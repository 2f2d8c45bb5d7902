//! The ways in which naming a port can fail, each with the offending name.

use vstd::prelude::*;

verus! {

/// A failure of the library. Every variant but the last carries the name
/// that was refused, exactly as the caller wrote it.
#[derive(Debug, PartialEq, Eq)]
pub enum SwitchError {
    /// An input alias points at a name that is no input port.
    InputAliasTarget(String),
    /// An output alias points at a name that is no output port.
    OutputAliasTarget(String),
    /// The name is neither an input alias nor an input port.
    UnknownInput(String),
    /// The name is neither an output alias nor an output port.
    UnknownOutput(String),
    /// The name is no input port.
    NotAnInput(String),
    /// The name is no output port.
    NotAnOutput(String),
    /// No subcommand was given.
    NoSubcommand,
}

impl SwitchError {
    /// The name that was refused; empty where the error carries none.
    pub open spec fn subject(&self) -> Seq<char> {
        match self {
            SwitchError::InputAliasTarget(s) => s@,
            SwitchError::OutputAliasTarget(s) => s@,
            SwitchError::UnknownInput(s) => s@,
            SwitchError::UnknownOutput(s) => s@,
            SwitchError::NotAnInput(s) => s@,
            SwitchError::NotAnOutput(s) => s@,
            SwitchError::NoSubcommand => Seq::empty(),
        }
    }

    /// The text shown to the user for this error.
    pub open spec fn message_text(&self) -> Seq<char> {
        match self {
            SwitchError::InputAliasTarget(s) => "Loading aliases: Input "@ + s@
                + " is not a supported input."@,
            SwitchError::OutputAliasTarget(s) => "Loading aliases: Output "@ + s@
                + " is not a supported output."@,
            SwitchError::UnknownInput(s) => "Input "@ + s@ + " not supported"@,
            SwitchError::UnknownOutput(s) => "Output "@ + s@ + " not supported"@,
            SwitchError::NotAnInput(s) => s@ + " is not a supported HDMI input"@,
            SwitchError::NotAnOutput(s) => s@ + " is not a suppported HDMI output"@,
            SwitchError::NoSubcommand =>
                "No subcommand found. Please use -h for available subcommands"@,
        }
    }

    /// The name that was refused.
    pub fn name(&self) -> (s: &str)
        ensures
            s@ == self.subject(),
    {
        match self {
            SwitchError::InputAliasTarget(s) => s.as_str(),
            SwitchError::OutputAliasTarget(s) => s.as_str(),
            SwitchError::UnknownInput(s) => s.as_str(),
            SwitchError::UnknownOutput(s) => s.as_str(),
            SwitchError::NotAnInput(s) => s.as_str(),
            SwitchError::NotAnOutput(s) => s.as_str(),
            SwitchError::NoSubcommand => {
                proof {
                    reveal_strlit("");
                }
                assert(""@ =~= Seq::<char>::empty());
                ""
            },
        }
    }

    /// Renders the error as the sentence shown to the user.
    pub fn message(&self) -> (text: String)
        ensures
            text@ == self.message_text(),
    {
        match self {
            SwitchError::InputAliasTarget(s) => {
                let mut text = String::from_str("Loading aliases: Input ");
                text.append(s.as_str());
                text.append(" is not a supported input.");
                text
            },
            SwitchError::OutputAliasTarget(s) => {
                let mut text = String::from_str("Loading aliases: Output ");
                text.append(s.as_str());
                text.append(" is not a supported output.");
                text
            },
            SwitchError::UnknownInput(s) => {
                let mut text = String::from_str("Input ");
                text.append(s.as_str());
                text.append(" not supported");
                text
            },
            SwitchError::UnknownOutput(s) => {
                let mut text = String::from_str("Output ");
                text.append(s.as_str());
                text.append(" not supported");
                text
            },
            SwitchError::NotAnInput(s) => {
                let mut text = s.clone();
                text.append(" is not a supported HDMI input");
                text
            },
            SwitchError::NotAnOutput(s) => {
                let mut text = s.clone();
                text.append(" is not a suppported HDMI output");
                text
            },
            SwitchError::NoSubcommand => String::from_str(
                "No subcommand found. Please use -h for available subcommands",
            ),
        }
    }
}

} // verus!
