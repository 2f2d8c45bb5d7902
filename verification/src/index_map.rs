//! What this library takes on trust about `indexmap::IndexMap`, the
//! insertion-ordered map that holds the aliases.
//!
//! Nothing here is proved. Each function below makes one call into the
//! `indexmap` crate and states what that crate documents of the call.

use vstd::prelude::*;
use indexmap::IndexMap;

verus! {

/// `indexmap::IndexMap`, held as it is: nothing inside it is visible to
/// the proofs, which know a map only by `entries`.
#[verifier::external_type_specification]
#[verifier::external_body]
#[verifier::reject_recursive_types(K)]
#[verifier::reject_recursive_types(V)]
#[verifier::reject_recursive_types(S)]
pub struct ExIndexMap<K, V, S>(IndexMap<K, V, S>);

/// The key-value pairs of a map, in the map's own order: position `i` of
/// the sequence is the pair that the map holds at index `i`.
pub uninterp spec fn entries(map: IndexMap<String, String>) -> Seq<(Seq<char>, Seq<char>)>;

/// Whether some pair of `pairs` has the key `key`.
pub open spec fn has_key(pairs: Seq<(Seq<char>, Seq<char>)>, key: Seq<char>) -> bool {
    exists|i: int| 0 <= i < pairs.len() && (#[trigger] pairs[i]).0 == key
}

/// `IndexMap::new`: a map that holds no pair.
#[verifier::external_body]
pub(crate) fn map_new() -> (map: IndexMap<String, String>)
    ensures
        entries(map) == Seq::<(Seq<char>, Seq<char>)>::empty(),
{
    IndexMap::new()
}

/// `IndexMap::len`: the number of pairs in the map.
#[verifier::external_body]
pub(crate) fn map_len(map: &IndexMap<String, String>) -> (n: usize)
    ensures
        n == entries(*map).len(),
{
    map.len()
}

/// `IndexMap::insert`. Where the key is new, the pair goes last and nothing
/// is returned. Where a pair with that key is there, it keeps its index,
/// takes the new value, and the value it had is returned.
#[verifier::external_body]
pub(crate) fn map_insert(
    map: &mut IndexMap<String, String>,
    key: String,
    value: String,
) -> (previous: Option<String>)
    ensures
        !has_key(entries(*old(map)), key@) ==> {
            &&& previous is None
            &&& entries(*final(map)) == entries(*old(map)).push((key@, value@))
        },
        forall|i: int|
            0 <= i < entries(*old(map)).len() && (#[trigger] entries(*old(map))[i]).0 == key@ ==> {
                &&& previous matches Some(p) && p@ == entries(*old(map))[i].1
                &&& entries(*final(map)) == entries(*old(map)).update(i, (key@, value@))
            },
{
    map.insert(key, value)
}

/// `IndexMap::get` with a string slice as the key: the value of a pair with
/// that key, or nothing where no pair has it.
#[verifier::external_body]
pub(crate) fn map_get<'a>(map: &'a IndexMap<String, String>, key: &str) -> (value: Option<
    &'a String,
>)
    ensures
        match value {
            Some(v) => exists|i: int|
                0 <= i < entries(*map).len() && #[trigger] entries(*map)[i] == (key@, v@),
            None => !has_key(entries(*map), key@),
        },
{
    map.get(key)
}

/// `IndexMap::get_index`: the pair at `index`, or nothing where `index` is
/// not below the map's length.
#[verifier::external_body]
pub(crate) fn map_get_index<'a>(map: &'a IndexMap<String, String>, index: usize) -> (pair: Option<
    (&'a String, &'a String),
>)
    ensures
        match pair {
            Some((k, v)) => {
                &&& index < entries(*map).len()
                &&& entries(*map)[index as int] == (k@, v@)
            },
            None => index >= entries(*map).len(),
        },
{
    map.get_index(index)
}

} // verus!
