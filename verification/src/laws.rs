//! What holds of every resolver, proved from the contracts of its
//! operations.

use vstd::prelude::*;
use crate::entries::{
    distinct_keys, index_of, lemma_lookup_at, lemma_upsert_distinct, lemma_upsert_lookup, lookup,
    upsert,
};
use crate::index_map::has_key;
use crate::ports::{
    input_port, lemma_input_port_of_name, lemma_name_of_input_port, lemma_name_of_output_port,
    lemma_output_port_of_name, output_port, HdmiIn, HdmiOut,
};
use crate::switch::{lemma_input_defaults, lemma_output_defaults, SwitchView};

verus! {

/// A name stands for the port that its alias points at, and where it is
/// no alias, for the port that it is the built-in name of.
pub proof fn lemma_alias_before_default(v: SwitchView, name: Seq<char>)
    requires
        v.wf(),
    ensures
        v.resolve_input(name) == match lookup(v.input_aliases, name) {
            Some(target) => input_port(target),
            None => input_port(name),
        },
        v.resolve_output(name) == match lookup(v.output_aliases, name) {
            Some(target) => output_port(target),
            None => output_port(name),
        },
{
    lemma_input_defaults(name);
    lemma_output_defaults(name);
}

/// A built-in input name that no alias shadows stands for its own port,
/// so it resolves to itself.
pub proof fn lemma_input_name_resolves_to_itself(v: SwitchView, port: HdmiIn)
    requires
        v.wf(),
        !has_key(v.input_aliases, port.name()),
    ensures
        v.resolve_input(port.name()) == Some(port),
{
    lemma_alias_before_default(v, port.name());
    lemma_input_port_of_name(port);
}

/// A built-in output name that no alias shadows stands for its own port,
/// so it resolves to itself.
pub proof fn lemma_output_name_resolves_to_itself(v: SwitchView, port: HdmiOut)
    requires
        v.wf(),
        !has_key(v.output_aliases, port.name()),
    ensures
        v.resolve_output(port.name()) == Some(port),
{
    lemma_alias_before_default(v, port.name());
    lemma_output_port_of_name(port);
}

/// Every registered input alias resolves to the port whose name is its
/// target.
pub proof fn lemma_input_alias_resolves_to_target(v: SwitchView, i: int)
    requires
        v.wf(),
        0 <= i < v.input_aliases.len(),
    ensures
        v.resolve_input(v.input_aliases[i].0) matches Some(port) && port.name()
            == v.input_aliases[i].1,
{
    lemma_lookup_at(v.input_aliases, i);
    lemma_name_of_input_port(v.input_aliases[i].1);
}

/// Every registered output alias resolves to the port whose name is its
/// target.
pub proof fn lemma_output_alias_resolves_to_target(v: SwitchView, i: int)
    requires
        v.wf(),
        0 <= i < v.output_aliases.len(),
    ensures
        v.resolve_output(v.output_aliases[i].0) matches Some(port) && port.name()
            == v.output_aliases[i].1,
{
    lemma_lookup_at(v.output_aliases, i);
    lemma_name_of_output_port(v.output_aliases[i].1);
}

/// Where one alias is registered twice, the second registration alone
/// decides: the mapping is what it would be had the first never been made,
/// and the alias maps to the second target.
pub proof fn lemma_last_registration_wins(
    pairs: Seq<(Seq<char>, Seq<char>)>,
    alias: Seq<char>,
    first: Seq<char>,
    second: Seq<char>,
)
    requires
        distinct_keys(pairs),
    ensures
        upsert(upsert(pairs, alias, first), alias, second) == upsert(pairs, alias, second),
        lookup(upsert(upsert(pairs, alias, first), alias, second), alias) == Some(second),
{
    let once = upsert(pairs, alias, first);
    lemma_upsert_distinct(pairs, alias, first);
    lemma_upsert_lookup(once, alias, second, alias);
    let at = if has_key(pairs, alias) {
        index_of(pairs, alias)
    } else {
        pairs.len() as int
    };
    assert(once[at].0 == alias);
    lemma_lookup_at(once, at);
    assert(upsert(once, alias, second) =~= upsert(pairs, alias, second));
}

/// Registering an alias changes what that alias stands for and nothing
/// else: every other name maps to what it did.
pub proof fn lemma_registration_is_local(
    pairs: Seq<(Seq<char>, Seq<char>)>,
    alias: Seq<char>,
    target: Seq<char>,
    other: Seq<char>,
)
    requires
        distinct_keys(pairs),
        other != alias,
    ensures
        lookup(upsert(pairs, alias, target), other) == lookup(pairs, other),
{
    lemma_upsert_lookup(pairs, alias, target, other);
}

/// A name is refused exactly where it is neither an alias nor a built-in
/// name of its direction.
pub proof fn lemma_unknown_names(v: SwitchView, name: Seq<char>)
    requires
        v.wf(),
    ensures
        v.resolve_input(name) is None <==> !has_key(v.input_aliases, name) && input_port(name)
            is None,
        v.resolve_output(name) is None <==> !has_key(v.output_aliases, name) && output_port(name)
            is None,
{
    lemma_alias_before_default(v, name);
    if has_key(v.input_aliases, name) {
        let i = index_of(v.input_aliases, name);
        lemma_lookup_at(v.input_aliases, i);
    }
    if has_key(v.output_aliases, name) {
        let i = index_of(v.output_aliases, name);
        lemma_lookup_at(v.output_aliases, i);
    }
}

} // verus!
