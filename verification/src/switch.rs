//! The resolver: built-in port names, the aliases laid over them, and the
//! command that a pair of names stands for.

use vstd::prelude::*;
use indexmap::IndexMap;
use crate::entries::{
    distinct_keys, find, index_of, keys_fit, lemma_longest_key, lemma_upsert_lookup, listing,
    longest_key, longest_key_in, lookup, put, render, upsert,
};
use crate::error::SwitchError;
use crate::index_map::{entries, has_key, map_new};
use crate::ports::{
    input_port, is_valid_input, is_valid_output, lemma_input_port_of_name,
    lemma_output_port_of_name, output_port, to_hdmi_in, to_hdmi_out, HdmiIn, HdmiOut, HDMIIN1,
    HDMIIN2, HDMIIN3, HDMIIN4, HDMIOUT1, HDMIOUT2, HDMIOUT3, HDMIOUT4, HDMIOUTALL,
};

verus! {

/// The built-in input names, each mapped to itself.
pub open spec fn input_defaults() -> Seq<(Seq<char>, Seq<char>)> {
    seq![
        (HdmiIn::In1.name(), HdmiIn::In1.name()),
        (HdmiIn::In2.name(), HdmiIn::In2.name()),
        (HdmiIn::In3.name(), HdmiIn::In3.name()),
        (HdmiIn::In4.name(), HdmiIn::In4.name()),
    ]
}

/// The built-in output names, each mapped to itself.
pub open spec fn output_defaults() -> Seq<(Seq<char>, Seq<char>)> {
    seq![
        (HdmiOut::Out1.name(), HdmiOut::Out1.name()),
        (HdmiOut::Out2.name(), HdmiOut::Out2.name()),
        (HdmiOut::Out3.name(), HdmiOut::Out3.name()),
        (HdmiOut::Out4.name(), HdmiOut::Out4.name()),
        (HdmiOut::All.name(), HdmiOut::All.name()),
    ]
}

/// The line that tells the switch to route `input` to `output`.
pub open spec fn command(input: HdmiIn, output: HdmiOut) -> Seq<char> {
    "SET SW "@ + input.name() + " "@ + output.name() + "\n\r"@
}

/// What a resolver holds: four mappings in insertion order, and the
/// column width that listings use, 0 until a listing has fixed it.
pub struct SwitchView {
    pub input_defaults: Seq<(Seq<char>, Seq<char>)>,
    pub input_aliases: Seq<(Seq<char>, Seq<char>)>,
    pub output_defaults: Seq<(Seq<char>, Seq<char>)>,
    pub output_aliases: Seq<(Seq<char>, Seq<char>)>,
    pub longest: nat,
}

impl SwitchView {
    /// The defaults are the built-in names, no alias is registered twice,
    /// and every alias points at a port of its own direction.
    pub open spec fn wf(self) -> bool {
        &&& self.input_defaults == input_defaults()
        &&& self.output_defaults == output_defaults()
        &&& distinct_keys(self.input_aliases)
        &&& distinct_keys(self.output_aliases)
        &&& forall|i: int|
            0 <= i < self.input_aliases.len() ==> input_port(
                (#[trigger] self.input_aliases[i]).1,
            ).is_some()
        &&& forall|i: int|
            0 <= i < self.output_aliases.len() ==> output_port(
                (#[trigger] self.output_aliases[i]).1,
            ).is_some()
    }

    /// The input port that `name` stands for: what the alias of that name
    /// points at, or else what the built-in name of that name points at.
    pub open spec fn resolve_input(self, name: Seq<char>) -> Option<HdmiIn> {
        match lookup(self.input_aliases, name) {
            Some(target) => input_port(target),
            None => match lookup(self.input_defaults, name) {
                Some(target) => input_port(target),
                None => None,
            },
        }
    }

    /// The output port that `name` stands for: what the alias of that name
    /// points at, or else what the built-in name of that name points at.
    pub open spec fn resolve_output(self, name: Seq<char>) -> Option<HdmiOut> {
        match lookup(self.output_aliases, name) {
            Some(target) => output_port(target),
            None => match lookup(self.output_defaults, name) {
                Some(target) => output_port(target),
                None => None,
            },
        }
    }

    /// The greatest of the width held so far and the byte lengths of the
    /// keys of all four mappings.
    pub open spec fn longest_of_all(self) -> nat {
        longest_key(
            self.output_aliases,
            longest_key(
                self.output_defaults,
                longest_key(self.input_aliases, longest_key(self.input_defaults, self.longest)),
            ),
        )
    }

    /// The width held is wide enough for every key of the four mappings.
    pub open spec fn all_keys_fit(self) -> bool {
        &&& keys_fit(self.input_defaults, self.longest)
        &&& keys_fit(self.input_aliases, self.longest)
        &&& keys_fit(self.output_defaults, self.longest)
        &&& keys_fit(self.output_aliases, self.longest)
    }

    /// The width that a listing uses: the one held, or, where none is held
    /// yet, the longest key of all.
    pub open spec fn listing_width(self) -> nat {
        if self.longest == 0 {
            self.longest_of_all()
        } else {
            self.longest
        }
    }
}

/// Resolves port names and aliases and builds switch commands.
pub struct Switch {
    input_defaults: IndexMap<String, String>,
    input_aliases: IndexMap<String, String>,
    output_defaults: IndexMap<String, String>,
    output_aliases: IndexMap<String, String>,
    longest_str: usize,
}

impl View for Switch {
    type V = SwitchView;

    closed spec fn view(&self) -> SwitchView {
        SwitchView {
            input_defaults: entries(self.input_defaults),
            input_aliases: entries(self.input_aliases),
            output_defaults: entries(self.output_defaults),
            output_aliases: entries(self.output_aliases),
            longest: self.longest_str as nat,
        }
    }
}

/// The built-in input names are four different keys.
pub proof fn lemma_input_defaults(name: Seq<char>)
    ensures
        distinct_keys(input_defaults()),
        lookup(input_defaults(), name) == if input_port(name).is_some() {
            Some(name)
        } else {
            None
        },
{
    let d = input_defaults();
    lemma_input_port_of_name(HdmiIn::In1);
    lemma_input_port_of_name(HdmiIn::In2);
    lemma_input_port_of_name(HdmiIn::In3);
    lemma_input_port_of_name(HdmiIn::In4);
    assert(d[0].0 == HdmiIn::In1.name() && d[1].0 == HdmiIn::In2.name() && d[2].0
        == HdmiIn::In3.name() && d[3].0 == HdmiIn::In4.name());
    if has_key(d, name) {
        let i = index_of(d, name);
        assert(d[i].0 == name);
        assert(d[i].1 == name);
    }
}

/// The built-in output names are five different keys.
pub proof fn lemma_output_defaults(name: Seq<char>)
    ensures
        distinct_keys(output_defaults()),
        lookup(output_defaults(), name) == if output_port(name).is_some() {
            Some(name)
        } else {
            None
        },
{
    let d = output_defaults();
    lemma_output_port_of_name(HdmiOut::Out1);
    lemma_output_port_of_name(HdmiOut::Out2);
    lemma_output_port_of_name(HdmiOut::Out3);
    lemma_output_port_of_name(HdmiOut::Out4);
    lemma_output_port_of_name(HdmiOut::All);
    assert(d[0].0 == HdmiOut::Out1.name() && d[1].0 == HdmiOut::Out2.name() && d[2].0
        == HdmiOut::Out3.name() && d[3].0 == HdmiOut::Out4.name() && d[4].0
        == HdmiOut::All.name());
    if has_key(d, name) {
        let i = index_of(d, name);
        assert(d[i].0 == name);
        assert(d[i].1 == name);
    }
}

/// The width that a listing fixes is wide enough for every key of the
/// four mappings, and a later listing finds the same width again.
pub proof fn lemma_listing_width(v: SwitchView)
    ensures
        v.longest == 0 ==> (SwitchView { longest: v.listing_width(), ..v }).all_keys_fit(),
        (SwitchView { longest: v.listing_width(), ..v }).listing_width() == v.listing_width(),
{
    let first = longest_key(v.input_defaults, v.longest);
    let second = longest_key(v.input_aliases, first);
    let third = longest_key(v.output_defaults, second);
    lemma_longest_key(v.input_defaults, v.longest);
    lemma_longest_key(v.input_aliases, first);
    lemma_longest_key(v.output_defaults, second);
    lemma_longest_key(v.output_aliases, third);
}

/// Formats the command that routes `input` to `output`.
pub fn format_command(input: HdmiIn, output: HdmiOut) -> (line: String)
    ensures
        line@ == command(input, output),
{
    let mut line = String::from_str("SET SW ");
    line.append(input.as_str());
    line.append(" ");
    line.append(output.as_str());
    line.append("\n\r");
    line
}

impl Switch {
    /// The invariant of the resolver, stated on what it holds.
    pub open spec fn wf(&self) -> bool {
        self@.wf()
    }

    /// A resolver with the built-in names and no alias.
    pub fn new() -> (switch: Switch)
        ensures
            switch.wf(),
            switch@.input_aliases.len() == 0,
            switch@.output_aliases.len() == 0,
            switch@.longest == 0,
    {
        let mut input_defaults = map_new();
        let mut output_defaults = map_new();
        proof {
            lemma_input_defaults(Seq::empty());
            lemma_output_defaults(Seq::empty());
        }
        put(&mut input_defaults, String::from_str(HDMIIN1), String::from_str(HDMIIN1));
        put(&mut input_defaults, String::from_str(HDMIIN2), String::from_str(HDMIIN2));
        put(&mut input_defaults, String::from_str(HDMIIN3), String::from_str(HDMIIN3));
        put(&mut input_defaults, String::from_str(HDMIIN4), String::from_str(HDMIIN4));
        put(&mut output_defaults, String::from_str(HDMIOUT1), String::from_str(HDMIOUT1));
        put(&mut output_defaults, String::from_str(HDMIOUT2), String::from_str(HDMIOUT2));
        put(&mut output_defaults, String::from_str(HDMIOUT3), String::from_str(HDMIOUT3));
        put(&mut output_defaults, String::from_str(HDMIOUT4), String::from_str(HDMIOUT4));
        put(&mut output_defaults, String::from_str(HDMIOUTALL), String::from_str(HDMIOUTALL));
        proof {
            assert(entries(input_defaults) =~= self::input_defaults());
            assert(entries(output_defaults) =~= self::output_defaults());
        }
        Switch {
            input_defaults,
            input_aliases: map_new(),
            output_defaults,
            output_aliases: map_new(),
            longest_str: 0,
        }
    }

    /// Raises the listing width to the longest key of the four mappings,
    /// keeps it, and returns it.
    pub fn longest_input_output_key(&mut self) -> (longest: usize)
        ensures
            longest == old(self)@.longest_of_all(),
            final(self)@ == (SwitchView { longest: longest as nat, ..old(self)@ }),
            longest >= old(self)@.longest,
            final(self)@.all_keys_fit(),
    {
        let first: usize = longest_key_in(&self.input_defaults, self.longest_str);
        let second: usize = longest_key_in(&self.input_aliases, first);
        let third: usize = longest_key_in(&self.output_defaults, second);
        let fourth: usize = longest_key_in(&self.output_aliases, third);
        proof {
            lemma_longest_key(self@.input_defaults, self@.longest);
            lemma_longest_key(self@.input_aliases, first as nat);
            lemma_longest_key(self@.output_defaults, second as nat);
            lemma_longest_key(self@.output_aliases, third as nat);
        }
        self.longest_str = fourth;
        self.longest_str
    }

    /// The lines that list the built-in input names. Fixes the listing
    /// width first where none is held yet.
    pub fn list_input_defaults(&mut self) -> (lines: Vec<String>)
        requires
            old(self)@.longest == 0 || keys_fit(old(self)@.input_defaults, old(self)@.longest),
        ensures
            final(self)@ == (SwitchView { longest: old(self)@.listing_width(), ..old(self)@ }),
            old(self)@.longest == 0 ==> final(self)@.all_keys_fit(),
            lines.deep_view() == listing(
                "  Input Defaults:"@,
                old(self)@.input_defaults,
                old(self)@.listing_width(),
            ),
    {
        if self.longest_str == 0 {
            self.longest_input_output_key();
        }
        render(&self.input_defaults, "  Input Defaults:", self.longest_str)
    }

    /// The lines that list the input aliases. Fixes the listing width
    /// first where none is held yet.
    pub fn list_input_aliases(&mut self) -> (lines: Vec<String>)
        requires
            old(self)@.longest == 0 || keys_fit(old(self)@.input_aliases, old(self)@.longest),
        ensures
            final(self)@ == (SwitchView { longest: old(self)@.listing_width(), ..old(self)@ }),
            old(self)@.longest == 0 ==> final(self)@.all_keys_fit(),
            lines.deep_view() == listing(
                "  Input aliases:"@,
                old(self)@.input_aliases,
                old(self)@.listing_width(),
            ),
    {
        if self.longest_str == 0 {
            self.longest_input_output_key();
        }
        render(&self.input_aliases, "  Input aliases:", self.longest_str)
    }

    /// The lines that list the built-in output names. Fixes the listing
    /// width first where none is held yet.
    pub fn list_output_defaults(&mut self) -> (lines: Vec<String>)
        requires
            old(self)@.longest == 0 || keys_fit(old(self)@.output_defaults, old(self)@.longest),
        ensures
            final(self)@ == (SwitchView { longest: old(self)@.listing_width(), ..old(self)@ }),
            old(self)@.longest == 0 ==> final(self)@.all_keys_fit(),
            lines.deep_view() == listing(
                "  Output Defaults:"@,
                old(self)@.output_defaults,
                old(self)@.listing_width(),
            ),
    {
        if self.longest_str == 0 {
            self.longest_input_output_key();
        }
        render(&self.output_defaults, "  Output Defaults:", self.longest_str)
    }

    /// The lines that list the output aliases. Fixes the listing width
    /// first where none is held yet.
    pub fn list_output_aliases(&mut self) -> (lines: Vec<String>)
        requires
            old(self)@.longest == 0 || keys_fit(old(self)@.output_aliases, old(self)@.longest),
        ensures
            final(self)@ == (SwitchView { longest: old(self)@.listing_width(), ..old(self)@ }),
            old(self)@.longest == 0 ==> final(self)@.all_keys_fit(),
            lines.deep_view() == listing(
                "  Output aliases:"@,
                old(self)@.output_aliases,
                old(self)@.listing_width(),
            ),
    {
        if self.longest_str == 0 {
            self.longest_input_output_key();
        }
        render(&self.output_aliases, "  Output aliases:", self.longest_str)
    }

    /// Registers `alias` for the input port named `default`. A target that
    /// is no input port is refused, and the resolver stays as it was. An
    /// alias that is there already is pointed at the new target.
    pub fn load_input_alias(&mut self, alias: &str, default: &str) -> (done: Result<
        (),
        SwitchError,
    >)
        requires
            old(self).wf(),
        ensures
            final(self).wf(),
            match input_port(default@) {
                Some(port) => {
                    &&& done is Ok
                    &&& final(self)@ == (SwitchView {
                        input_aliases: upsert(old(self)@.input_aliases, alias@, default@),
                        ..old(self)@
                    })
                    &&& final(self)@.resolve_input(alias@) == Some(port)
                },
                None => {
                    &&& done matches Err(SwitchError::InputAliasTarget(name)) && name@ == default@
                    &&& final(self)@ == old(self)@
                },
            },
    {
        if is_valid_input(default) {
            proof {
                lemma_upsert_lookup(self@.input_aliases, alias@, default@, alias@);
            }
            put(&mut self.input_aliases, String::from_str(alias), String::from_str(default));
            proof {
                let before = old(self)@.input_aliases;
                let after = self@.input_aliases;
                assert forall|i: int| 0 <= i < after.len() implies input_port(
                    (#[trigger] after[i]).1,
                ).is_some() by {
                    if after[i] != (alias@, default@) {
                        assert(after[i] == before[i]);
                    }
                }
            }
            Ok(())
        } else {
            Err(SwitchError::InputAliasTarget(String::from_str(default)))
        }
    }

    /// Registers `alias` for the output port named `default`. A target that
    /// is no output port is refused, and the resolver stays as it was. An
    /// alias that is there already is pointed at the new target.
    pub fn load_output_alias(&mut self, alias: &str, default: &str) -> (done: Result<
        (),
        SwitchError,
    >)
        requires
            old(self).wf(),
        ensures
            final(self).wf(),
            match output_port(default@) {
                Some(port) => {
                    &&& done is Ok
                    &&& final(self)@ == (SwitchView {
                        output_aliases: upsert(old(self)@.output_aliases, alias@, default@),
                        ..old(self)@
                    })
                    &&& final(self)@.resolve_output(alias@) == Some(port)
                },
                None => {
                    &&& done matches Err(SwitchError::OutputAliasTarget(name)) && name@
                        == default@
                    &&& final(self)@ == old(self)@
                },
            },
    {
        if is_valid_output(default) {
            proof {
                lemma_upsert_lookup(self@.output_aliases, alias@, default@, alias@);
            }
            put(&mut self.output_aliases, String::from_str(alias), String::from_str(default));
            proof {
                let before = old(self)@.output_aliases;
                let after = self@.output_aliases;
                assert forall|i: int| 0 <= i < after.len() implies output_port(
                    (#[trigger] after[i]).1,
                ).is_some() by {
                    if after[i] != (alias@, default@) {
                        assert(after[i] == before[i]);
                    }
                }
            }
            Ok(())
        } else {
            Err(SwitchError::OutputAliasTarget(String::from_str(default)))
        }
    }

    /// The input port that `name` stands for, an alias before a built-in
    /// name. A name that is neither is refused, and the error carries it.
    pub fn resolve_input(&self, name: &str) -> (port: Result<HdmiIn, SwitchError>)
        requires
            self.wf(),
        ensures
            match self@.resolve_input(name@) {
                Some(p) => port == Ok::<HdmiIn, SwitchError>(p),
                None => port matches Err(SwitchError::UnknownInput(n)) && n@ == name@,
            },
    {
        proof {
            lemma_input_defaults(name@);
        }
        let found = match find(&self.input_aliases, name) {
            Some(target) => Some(target),
            None => find(&self.input_defaults, name),
        };
        if let Some(target) = found {
            proof {
                if lookup(self@.input_aliases, name@).is_some() {
                    let i = index_of(self@.input_aliases, name@);
                    assert(self@.input_aliases[i].1 == target@);
                }
            }
            if let Ok(p) = to_hdmi_in(target.as_str()) {
                return Ok(p);
            }
        }
        Err(SwitchError::UnknownInput(String::from_str(name)))
    }

    /// The output port that `name` stands for, an alias before a built-in
    /// name. A name that is neither is refused, and the error carries it.
    pub fn resolve_output(&self, name: &str) -> (port: Result<HdmiOut, SwitchError>)
        requires
            self.wf(),
        ensures
            match self@.resolve_output(name@) {
                Some(p) => port == Ok::<HdmiOut, SwitchError>(p),
                None => port matches Err(SwitchError::UnknownOutput(n)) && n@ == name@,
            },
    {
        proof {
            lemma_output_defaults(name@);
        }
        let found = match find(&self.output_aliases, name) {
            Some(target) => Some(target),
            None => find(&self.output_defaults, name),
        };
        if let Some(target) = found {
            proof {
                if lookup(self@.output_aliases, name@).is_some() {
                    let i = index_of(self@.output_aliases, name@);
                    assert(self@.output_aliases[i].1 == target@);
                }
            }
            if let Ok(p) = to_hdmi_out(target.as_str()) {
                return Ok(p);
            }
        }
        Err(SwitchError::UnknownOutput(String::from_str(name)))
    }

    /// The command that routes the input named `input` to the output named
    /// `output`. The input is resolved first: where it is unknown, the
    /// error names it, whatever the output is.
    pub fn command_build(self, input: &str, output: &str) -> (line: Result<String, SwitchError>)
        requires
            self.wf(),
        ensures
            match self@.resolve_input(input@) {
                None => line matches Err(SwitchError::UnknownInput(n)) && n@ == input@,
                Some(i) => match self@.resolve_output(output@) {
                    None => line matches Err(SwitchError::UnknownOutput(n)) && n@ == output@,
                    Some(o) => line matches Ok(text) && text@ == command(i, o),
                },
            },
    {
        let source = match self.resolve_input(input) {
            Ok(p) => p,
            Err(e) => {
                return Err(e);
            },
        };
        let sink = match self.resolve_output(output) {
            Ok(p) => p,
            Err(e) => {
                return Err(e);
            },
        };
        Ok(format_command(source, sink))
    }
}

} // verus!
