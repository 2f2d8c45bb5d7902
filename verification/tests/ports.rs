use hdmi_switch::error::SwitchError;
use hdmi_switch::ports::{
    is_valid_input, is_valid_output, to_hdmi_in, to_hdmi_out, HdmiIn, HdmiOut, HDMIIN1, HDMIIN2,
    HDMIIN3, HDMIIN4, HDMIOUT1, HDMIOUT2, HDMIOUT3, HDMIOUT4, HDMIOUTALL,
};
use hdmi_switch::text::{padding, str_eq};

#[test]
fn input_names_are_read_as_their_ports() {
    assert_eq!(to_hdmi_in("hdmiin1"), Ok(HdmiIn::In1));
    assert_eq!(to_hdmi_in("hdmiin2"), Ok(HdmiIn::In2));
    assert_eq!(to_hdmi_in("hdmiin3"), Ok(HdmiIn::In3));
    assert_eq!(to_hdmi_in("hdmiin4"), Ok(HdmiIn::In4));
}

#[test]
fn output_names_are_read_as_their_ports() {
    assert_eq!(to_hdmi_out("hdmiout1"), Ok(HdmiOut::Out1));
    assert_eq!(to_hdmi_out("hdmiout2"), Ok(HdmiOut::Out2));
    assert_eq!(to_hdmi_out("hdmiout3"), Ok(HdmiOut::Out3));
    assert_eq!(to_hdmi_out("hdmiout4"), Ok(HdmiOut::Out4));
    assert_eq!(to_hdmi_out("all"), Ok(HdmiOut::All));
}

#[test]
fn port_names_round_trip() {
    for port in [HdmiIn::In1, HdmiIn::In2, HdmiIn::In3, HdmiIn::In4] {
        assert_eq!(to_hdmi_in(port.as_str()), Ok(port));
    }
    for port in [HdmiOut::Out1, HdmiOut::Out2, HdmiOut::Out3, HdmiOut::Out4, HdmiOut::All] {
        assert_eq!(to_hdmi_out(port.as_str()), Ok(port));
    }
}

#[test]
fn name_constants_are_the_wire_names() {
    assert_eq!(HDMIIN1, "hdmiin1");
    assert_eq!(HDMIIN2, "hdmiin2");
    assert_eq!(HDMIIN3, "hdmiin3");
    assert_eq!(HDMIIN4, "hdmiin4");
    assert_eq!(HDMIOUT1, "hdmiout1");
    assert_eq!(HDMIOUT2, "hdmiout2");
    assert_eq!(HDMIOUT3, "hdmiout3");
    assert_eq!(HDMIOUT4, "hdmiout4");
    assert_eq!(HDMIOUTALL, "all");
    assert_eq!(HdmiIn::In2.as_str(), "hdmiin2");
    assert_eq!(HdmiOut::All.as_str(), "all");
}

#[test]
fn a_name_of_the_other_direction_is_refused() {
    assert_eq!(to_hdmi_in("hdmiout1"), Err(SwitchError::NotAnInput("hdmiout1".to_string())));
    assert_eq!(to_hdmi_in("all"), Err(SwitchError::NotAnInput("all".to_string())));
    assert_eq!(to_hdmi_out("hdmiin1"), Err(SwitchError::NotAnOutput("hdmiin1".to_string())));
}

#[test]
fn near_misses_are_refused() {
    for name in ["", "hdmiin", "hdmiin0", "hdmiin5", "hdmiin11", "HDMIIN1", " hdmiin1", "hdmiin1 "] {
        assert_eq!(to_hdmi_in(name), Err(SwitchError::NotAnInput(name.to_string())));
        assert!(!is_valid_input(name));
    }
    for name in ["", "hdmiout", "hdmiout0", "hdmiout5", "ALL", "al", "alll", "hdmiout1\n"] {
        assert_eq!(to_hdmi_out(name), Err(SwitchError::NotAnOutput(name.to_string())));
        assert!(!is_valid_output(name));
    }
}

#[test]
fn validity_follows_the_port_names() {
    assert!(is_valid_input("hdmiin1"));
    assert!(is_valid_input("hdmiin4"));
    assert!(!is_valid_input("pc"));
    assert!(is_valid_output("hdmiout3"));
    assert!(is_valid_output("all"));
    assert!(!is_valid_output("tv"));
}

#[test]
fn error_messages_name_the_refused_string() {
    assert_eq!(
        SwitchError::InputAliasTarget("x".to_string()).message(),
        "Loading aliases: Input x is not a supported input."
    );
    assert_eq!(
        SwitchError::OutputAliasTarget("y".to_string()).message(),
        "Loading aliases: Output y is not a supported output."
    );
    assert_eq!(SwitchError::UnknownInput("bogus".to_string()).message(), "Input bogus not supported");
    assert_eq!(SwitchError::UnknownOutput("tv".to_string()).message(), "Output tv not supported");
    assert_eq!(
        SwitchError::NotAnInput("in9".to_string()).message(),
        "in9 is not a supported HDMI input"
    );
    assert_eq!(
        SwitchError::NotAnOutput("out9".to_string()).message(),
        "out9 is not a suppported HDMI output"
    );
    assert_eq!(
        SwitchError::NoSubcommand.message(),
        "No subcommand found. Please use -h for available subcommands"
    );
}

#[test]
fn error_names_are_the_refused_strings() {
    assert_eq!(SwitchError::InputAliasTarget("a".to_string()).name(), "a");
    assert_eq!(SwitchError::OutputAliasTarget("b".to_string()).name(), "b");
    assert_eq!(SwitchError::UnknownInput("c".to_string()).name(), "c");
    assert_eq!(SwitchError::UnknownOutput("d".to_string()).name(), "d");
    assert_eq!(SwitchError::NotAnInput("e".to_string()).name(), "e");
    assert_eq!(SwitchError::NotAnOutput("f".to_string()).name(), "f");
    assert_eq!(SwitchError::NoSubcommand.name(), "");
}

#[test]
fn strings_compare_by_their_characters() {
    assert!(str_eq("", ""));
    assert!(str_eq("hdmiin1", "hdmiin1"));
    assert!(!str_eq("hdmiin1", "hdmiin2"));
    assert!(!str_eq("hdmiin1", "hdmiin"));
    assert!(!str_eq("", "a"));
    assert!(str_eq("t\u{e9}l\u{e9}", "t\u{e9}l\u{e9}"));
    assert!(!str_eq("t\u{e9}l\u{e9}", "tele"));
}

#[test]
fn padding_is_that_many_spaces() {
    assert_eq!(padding(0), "");
    assert_eq!(padding(1), " ");
    assert_eq!(padding(5), "     ");
}
