//! What one run does, decided from the settings and the subcommand: which
//! file holds the settings, and what is to be sent or shown.

use vstd::prelude::*;
use crate::configuration::Configuration;
use crate::entries::{listing, upsert};
use crate::error::SwitchError;
use crate::ports::{input_port, output_port};
use crate::switch::{
    command, input_defaults, lemma_listing_width, output_defaults, Switch, SwitchView,
};

verus! {

/// What the user asks for.
#[derive(Debug)]
pub enum SubCommand {
    /// Route the named input to the named output.
    Switch { input: String, output: String },
    /// Show the aliases and the built-in names.
    Ls,
}

/// What is left to do once a run is decided.
#[derive(Debug)]
pub enum Action {
    /// Send this line to the switch.
    Send(String),
    /// Show these lines to the user.
    Print(Vec<String>),
}

/// Where the settings are kept below a home directory.
pub open spec fn default_location() -> Seq<char> {
    "/.config/hdmi-switch/configuration.yaml"@
}

/// The file that holds the settings: the one given, or else, where the
/// given path is empty, the usual place below the home directory.
pub open spec fn file_path(given: Seq<char>, home: Option<Seq<char>>) -> Option<Seq<char>> {
    if given.len() != 0 {
        Some(given)
    } else {
        match home {
            Some(dir) => Some(dir + default_location()),
            None => None,
        }
    }
}

/// The aliases that stand after `added` is registered on top of
/// `aliases`, pair by pair, or the first target that is no input port.
pub open spec fn load_inputs(
    aliases: Seq<(Seq<char>, Seq<char>)>,
    added: Seq<(Seq<char>, Seq<char>)>,
) -> Result<Seq<(Seq<char>, Seq<char>)>, Seq<char>>
    decreases added.len(),
{
    if added.len() == 0 {
        Ok(aliases)
    } else if input_port(added[0].1) is None {
        Err(added[0].1)
    } else {
        load_inputs(upsert(aliases, added[0].0, added[0].1), added.drop_first())
    }
}

/// The aliases that stand after `added` is registered on top of
/// `aliases`, pair by pair, or the first target that is no output port.
pub open spec fn load_outputs(
    aliases: Seq<(Seq<char>, Seq<char>)>,
    added: Seq<(Seq<char>, Seq<char>)>,
) -> Result<Seq<(Seq<char>, Seq<char>)>, Seq<char>>
    decreases added.len(),
{
    if added.len() == 0 {
        Ok(aliases)
    } else if output_port(added[0].1) is None {
        Err(added[0].1)
    } else {
        load_outputs(upsert(aliases, added[0].0, added[0].1), added.drop_first())
    }
}

/// A resolver that has listed nothing yet and holds these aliases.
pub open spec fn fresh(
    input_aliases: Seq<(Seq<char>, Seq<char>)>,
    output_aliases: Seq<(Seq<char>, Seq<char>)>,
) -> SwitchView {
    SwitchView {
        input_defaults: input_defaults(),
        input_aliases,
        output_defaults: output_defaults(),
        output_aliases,
        longest: 0,
    }
}

/// Everything that a listing shows: the aliases of both directions, then
/// the built-in names of both, all in one column width.
pub open spec fn report(v: SwitchView) -> Seq<Seq<char>> {
    let width = v.listing_width();
    seq!["Aliases:"@] + listing("  Input aliases:"@, v.input_aliases, width) + seq![""@] + listing(
        "  Output aliases:"@,
        v.output_aliases,
        width,
    ) + seq![""@, ""@, "Defaults:"@] + listing("  Input Defaults:"@, v.input_defaults, width)
        + seq![""@] + listing("  Output Defaults:"@, v.output_defaults, width)
}

/// The file that holds the settings. `given` is the path from the command
/// line, empty where none was given; `home` is the home directory, where
/// one is known.
pub fn get_file_path(given: &str, home: Option<&str>) -> (path: Option<String>)
    ensures
        match file_path(
            given@,
            match home {
                Some(dir) => Some(dir@),
                None => None,
            },
        ) {
            Some(p) => path matches Some(s) && s@ == p,
            None => path is None,
        },
{
    if !given.is_empty() {
        Some(String::from_str(given))
    } else {
        match home {
            Some(dir) => {
                let mut path = String::from_str(dir);
                path.append("/.config/hdmi-switch/configuration.yaml");
                Some(path)
            },
            None => None,
        }
    }
}

/// Registers the input aliases in order and stops at the first that is
/// refused.
fn load_input_aliases(switch: &mut Switch, added: &Vec<(String, String)>) -> (done: Result<
    (),
    SwitchError,
>)
    requires
        old(switch).wf(),
    ensures
        final(switch).wf(),
        match load_inputs(old(switch)@.input_aliases, added.deep_view()) {
            Ok(aliases) => done is Ok && final(switch)@ == (SwitchView {
                input_aliases: aliases,
                ..old(switch)@
            }),
            Err(target) => done matches Err(SwitchError::InputAliasTarget(name)) && name@
                == target,
        },
{
    let ghost all = added.deep_view();
    let ghost start = old(switch)@;
    let mut i: usize = 0;
    assert(all.skip(0) =~= all);
    while i < added.len()
        invariant
            i <= added.len(),
            all == added.deep_view(),
            start == old(switch)@,
            switch.wf(),
            switch@ == (SwitchView { input_aliases: switch@.input_aliases, ..start }),
            load_inputs(start.input_aliases, all) == load_inputs(
                switch@.input_aliases,
                all.skip(i as int),
            ),
        decreases added.len() - i,
    {
        let ghost rest = all.skip(i as int);
        proof {
            assert(rest[0] == all[i as int]);
            assert(rest.drop_first() =~= all.skip(i + 1));
        }
        let pair = &added[i];
        assert(all[i as int] == (pair.0@, pair.1@));
        match switch.load_input_alias(pair.0.as_str(), pair.1.as_str()) {
            Ok(()) => {},
            Err(e) => {
                return Err(e);
            },
        }
        i += 1;
    }
    Ok(())
}

/// Registers the output aliases in order and stops at the first that is
/// refused.
fn load_output_aliases(switch: &mut Switch, added: &Vec<(String, String)>) -> (done: Result<
    (),
    SwitchError,
>)
    requires
        old(switch).wf(),
    ensures
        final(switch).wf(),
        match load_outputs(old(switch)@.output_aliases, added.deep_view()) {
            Ok(aliases) => done is Ok && final(switch)@ == (SwitchView {
                output_aliases: aliases,
                ..old(switch)@
            }),
            Err(target) => done matches Err(SwitchError::OutputAliasTarget(name)) && name@
                == target,
        },
{
    let ghost all = added.deep_view();
    let ghost start = old(switch)@;
    let mut i: usize = 0;
    assert(all.skip(0) =~= all);
    while i < added.len()
        invariant
            i <= added.len(),
            all == added.deep_view(),
            start == old(switch)@,
            switch.wf(),
            switch@ == (SwitchView { output_aliases: switch@.output_aliases, ..start }),
            load_outputs(start.output_aliases, all) == load_outputs(
                switch@.output_aliases,
                all.skip(i as int),
            ),
        decreases added.len() - i,
    {
        let ghost rest = all.skip(i as int);
        proof {
            assert(rest[0] == all[i as int]);
            assert(rest.drop_first() =~= all.skip(i + 1));
        }
        let pair = &added[i];
        assert(all[i as int] == (pair.0@, pair.1@));
        match switch.load_output_alias(pair.0.as_str(), pair.1.as_str()) {
            Ok(()) => {},
            Err(e) => {
                return Err(e);
            },
        }
        i += 1;
    }
    Ok(())
}

/// A resolver that holds the aliases of the settings, the inputs
/// registered before the outputs. The first alias whose target is no port
/// of its direction is refused, and the error carries that target.
pub fn load_configuration(configuration: &Configuration) -> (switch: Result<Switch, SwitchError>)
    ensures
        match load_inputs(Seq::empty(), configuration.input.aliases.deep_view()) {
            Err(target) => switch matches Err(SwitchError::InputAliasTarget(name)) && name@
                == target,
            Ok(input_aliases) => match load_outputs(
                Seq::empty(),
                configuration.output.aliases.deep_view(),
            ) {
                Err(target) => switch matches Err(SwitchError::OutputAliasTarget(name)) && name@
                    == target,
                Ok(output_aliases) => switch matches Ok(s) && s.wf() && s@ == fresh(
                    input_aliases,
                    output_aliases,
                ),
            },
        },
{
    let mut switch = Switch::new();
    assert(switch@.input_aliases =~= Seq::empty());
    assert(switch@.output_aliases =~= Seq::empty());
    match load_input_aliases(&mut switch, &configuration.input.aliases) {
        Ok(()) => {},
        Err(e) => {
            return Err(e);
        },
    }
    match load_output_aliases(&mut switch, &configuration.output.aliases) {
        Ok(()) => {},
        Err(e) => {
            return Err(e);
        },
    }
    Ok(switch)
}

/// The lines of a full listing: the aliases of both directions, then the
/// built-in names of both. Fixes the listing width first where none is
/// held yet.
pub fn list_all(switch: &mut Switch) -> (lines: Vec<String>)
    requires
        old(switch)@.longest == 0 || old(switch)@.all_keys_fit(),
    ensures
        final(switch)@.all_keys_fit(),
        final(switch)@ == (SwitchView { longest: old(switch)@.listing_width(), ..old(switch)@ }),
        lines.deep_view() == report(old(switch)@),
{
    proof {
        lemma_listing_width(switch@);
    }
    let mut lines: Vec<String> = Vec::new();
    lines.push(String::from_str("Aliases:"));
    let mut input_aliases = switch.list_input_aliases();
    let ghost first = input_aliases.deep_view();
    lines.append(&mut input_aliases);
    lines.push(String::new());
    let mut output_aliases = switch.list_output_aliases();
    let ghost second = output_aliases.deep_view();
    lines.append(&mut output_aliases);
    lines.push(String::new());
    lines.push(String::new());
    lines.push(String::from_str("Defaults:"));
    let mut input_defaults = switch.list_input_defaults();
    let ghost third = input_defaults.deep_view();
    lines.append(&mut input_defaults);
    lines.push(String::new());
    let mut output_defaults = switch.list_output_defaults();
    let ghost fourth = output_defaults.deep_view();
    lines.append(&mut output_defaults);
    proof {
        reveal_strlit("");
        assert(""@ =~= Seq::<char>::empty());
        assert(lines.deep_view() =~= seq!["Aliases:"@] + first + seq![""@] + second + seq![
            ""@,
            ""@,
            "Defaults:"@,
        ] + third + seq![""@] + fourth);
    }
    lines
}

/// Whether `action` is what a run on the resolver `v` comes to: nothing
/// can be done without a subcommand; a switch is the command for the two
/// names, the input resolved before the output; a listing is the full
/// report.
pub open spec fn decided(
    action: Result<Action, SwitchError>,
    v: SwitchView,
    cmd: Option<SubCommand>,
) -> bool {
    match cmd {
        None => action == Err::<Action, SwitchError>(SwitchError::NoSubcommand),
        Some(SubCommand::Ls) => action matches Ok(Action::Print(lines)) && lines.deep_view()
            == report(v),
        Some(SubCommand::Switch { input, output }) => match v.resolve_input(input@) {
            None => action matches Err(SwitchError::UnknownInput(n)) && n@ == input@,
            Some(i) => match v.resolve_output(output@) {
                None => action matches Err(SwitchError::UnknownOutput(n)) && n@ == output@,
                Some(o) => action matches Ok(Action::Send(line)) && line@ == command(i, o),
            },
        },
    }
}

/// Decides a run. The aliases of the settings are registered first, the
/// inputs before the outputs, and the first that is refused ends the run
/// with its error. After that the subcommand is carried out on the
/// resolver they make.
pub fn execute(configuration: &Configuration, cmd: Option<SubCommand>) -> (action: Result<
    Action,
    SwitchError,
>)
    ensures
        match load_inputs(Seq::empty(), configuration.input.aliases.deep_view()) {
            Err(target) => action matches Err(SwitchError::InputAliasTarget(name)) && name@
                == target,
            Ok(input_aliases) => match load_outputs(
                Seq::empty(),
                configuration.output.aliases.deep_view(),
            ) {
                Err(target) => action matches Err(SwitchError::OutputAliasTarget(name)) && name@
                    == target,
                Ok(output_aliases) => decided(action, fresh(input_aliases, output_aliases), cmd),
            },
        },
{
    let mut switch = match load_configuration(configuration) {
        Ok(switch) => switch,
        Err(e) => {
            return Err(e);
        },
    };
    match cmd {
        Some(SubCommand::Switch { input, output }) => {
            match switch.command_build(input.as_str(), output.as_str()) {
                Ok(line) => Ok(Action::Send(line)),
                Err(e) => Err(e),
            }
        },
        Some(SubCommand::Ls) => Ok(Action::Print(list_all(&mut switch))),
        None => Err(SwitchError::NoSubcommand),
    }
}

} // verus!
