//! The physical ports of the switch and the names they go by on the wire.

use vstd::prelude::*;
use crate::error::SwitchError;
use crate::text::str_eq;

verus! {

pub const HDMIIN1: &'static str = "hdmiin1";
pub const HDMIIN2: &'static str = "hdmiin2";
pub const HDMIIN3: &'static str = "hdmiin3";
pub const HDMIIN4: &'static str = "hdmiin4";

pub const HDMIOUT1: &'static str = "hdmiout1";
pub const HDMIOUT2: &'static str = "hdmiout2";
pub const HDMIOUT3: &'static str = "hdmiout3";
pub const HDMIOUT4: &'static str = "hdmiout4";
pub const HDMIOUTALL: &'static str = "all";

/// One of the four inputs of the switch.
#[derive(Clone, Copy, Debug, PartialEq, Eq, Structural)]
pub enum HdmiIn {
    In1,
    In2,
    In3,
    In4,
}

/// One of the four outputs of the switch, or all of them at once.
#[derive(Clone, Copy, Debug, PartialEq, Eq, Structural)]
pub enum HdmiOut {
    Out1,
    Out2,
    Out3,
    Out4,
    All,
}

impl HdmiIn {
    /// The canonical name of the port.
    pub open spec fn name(self) -> Seq<char> {
        match self {
            HdmiIn::In1 => "hdmiin1"@,
            HdmiIn::In2 => "hdmiin2"@,
            HdmiIn::In3 => "hdmiin3"@,
            HdmiIn::In4 => "hdmiin4"@,
        }
    }

    /// The canonical name of the port.
    pub fn as_str(self) -> (s: &'static str)
        ensures
            s@ == self.name(),
    {
        match self {
            HdmiIn::In1 => HDMIIN1,
            HdmiIn::In2 => HDMIIN2,
            HdmiIn::In3 => HDMIIN3,
            HdmiIn::In4 => HDMIIN4,
        }
    }
}

impl HdmiOut {
    /// The canonical name of the port.
    pub open spec fn name(self) -> Seq<char> {
        match self {
            HdmiOut::Out1 => "hdmiout1"@,
            HdmiOut::Out2 => "hdmiout2"@,
            HdmiOut::Out3 => "hdmiout3"@,
            HdmiOut::Out4 => "hdmiout4"@,
            HdmiOut::All => "all"@,
        }
    }

    /// The canonical name of the port.
    pub fn as_str(self) -> (s: &'static str)
        ensures
            s@ == self.name(),
    {
        match self {
            HdmiOut::Out1 => HDMIOUT1,
            HdmiOut::Out2 => HDMIOUT2,
            HdmiOut::Out3 => HDMIOUT3,
            HdmiOut::Out4 => HDMIOUT4,
            HdmiOut::All => HDMIOUTALL,
        }
    }
}

/// The input port that `name` is the canonical name of, if any.
pub open spec fn input_port(name: Seq<char>) -> Option<HdmiIn> {
    if name == "hdmiin1"@ {
        Some(HdmiIn::In1)
    } else if name == "hdmiin2"@ {
        Some(HdmiIn::In2)
    } else if name == "hdmiin3"@ {
        Some(HdmiIn::In3)
    } else if name == "hdmiin4"@ {
        Some(HdmiIn::In4)
    } else {
        None
    }
}

/// The output port that `name` is the canonical name of, if any.
pub open spec fn output_port(name: Seq<char>) -> Option<HdmiOut> {
    if name == "hdmiout1"@ {
        Some(HdmiOut::Out1)
    } else if name == "hdmiout2"@ {
        Some(HdmiOut::Out2)
    } else if name == "hdmiout3"@ {
        Some(HdmiOut::Out3)
    } else if name == "hdmiout4"@ {
        Some(HdmiOut::Out4)
    } else if name == "all"@ {
        Some(HdmiOut::All)
    } else {
        None
    }
}

/// The four input names differ from one another, so each names its own port.
pub proof fn lemma_input_port_of_name(port: HdmiIn)
    ensures
        input_port(port.name()) == Some(port),
{
    reveal_strlit("hdmiin1");
    reveal_strlit("hdmiin2");
    reveal_strlit("hdmiin3");
    reveal_strlit("hdmiin4");
    assert("hdmiin1"@[6] == '1');
    assert("hdmiin2"@[6] == '2');
    assert("hdmiin3"@[6] == '3');
    assert("hdmiin4"@[6] == '4');
}

/// A name that is read as an input port is that port's canonical name.
pub proof fn lemma_name_of_input_port(name: Seq<char>)
    ensures
        input_port(name) matches Some(port) ==> port.name() == name,
{
}

/// The five output names differ from one another, so each names its own port.
pub proof fn lemma_output_port_of_name(port: HdmiOut)
    ensures
        output_port(port.name()) == Some(port),
{
    reveal_strlit("hdmiout1");
    reveal_strlit("hdmiout2");
    reveal_strlit("hdmiout3");
    reveal_strlit("hdmiout4");
    reveal_strlit("all");
    assert("hdmiout1"@[7] == '1');
    assert("hdmiout2"@[7] == '2');
    assert("hdmiout3"@[7] == '3');
    assert("hdmiout4"@[7] == '4');
    assert("all"@.len() == 3);
}

/// A name that is read as an output port is that port's canonical name.
pub proof fn lemma_name_of_output_port(name: Seq<char>)
    ensures
        output_port(name) matches Some(port) ==> port.name() == name,
{
}

/// Reads a canonical input name. Any other string is refused, and the
/// error carries it.
pub fn to_hdmi_in(input: &str) -> (port: Result<HdmiIn, SwitchError>)
    ensures
        match input_port(input@) {
            Some(p) => port == Ok::<HdmiIn, SwitchError>(p),
            None => port matches Err(SwitchError::NotAnInput(s)) && s@ == input@,
        },
{
    if str_eq(input, HDMIIN1) {
        Ok(HdmiIn::In1)
    } else if str_eq(input, HDMIIN2) {
        Ok(HdmiIn::In2)
    } else if str_eq(input, HDMIIN3) {
        Ok(HdmiIn::In3)
    } else if str_eq(input, HDMIIN4) {
        Ok(HdmiIn::In4)
    } else {
        Err(SwitchError::NotAnInput(String::from_str(input)))
    }
}

/// Reads a canonical output name. Any other string is refused, and the
/// error carries it.
pub fn to_hdmi_out(output: &str) -> (port: Result<HdmiOut, SwitchError>)
    ensures
        match output_port(output@) {
            Some(p) => port == Ok::<HdmiOut, SwitchError>(p),
            None => port matches Err(SwitchError::NotAnOutput(s)) && s@ == output@,
        },
{
    if str_eq(output, HDMIOUT1) {
        Ok(HdmiOut::Out1)
    } else if str_eq(output, HDMIOUT2) {
        Ok(HdmiOut::Out2)
    } else if str_eq(output, HDMIOUT3) {
        Ok(HdmiOut::Out3)
    } else if str_eq(output, HDMIOUT4) {
        Ok(HdmiOut::Out4)
    } else if str_eq(output, HDMIOUTALL) {
        Ok(HdmiOut::All)
    } else {
        Err(SwitchError::NotAnOutput(String::from_str(output)))
    }
}

/// Whether `input` is the canonical name of an input port.
pub fn is_valid_input(input: &str) -> (valid: bool)
    ensures
        valid == input_port(input@).is_some(),
{
    match to_hdmi_in(input) {
        Ok(_) => true,
        Err(_) => false,
    }
}

/// Whether `output` is the canonical name of an output port.
pub fn is_valid_output(output: &str) -> (valid: bool)
    ensures
        valid == output_port(output@).is_some(),
{
    match to_hdmi_out(output) {
        Ok(_) => true,
        Err(_) => false,
    }
}

} // verus!
