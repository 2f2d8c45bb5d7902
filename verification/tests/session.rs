use hdmi_switch::configuration::{
    Configuration, InputConfiguration, OutputConfiguration, ServerConfiguration, DEFAULT_PORT,
};
use hdmi_switch::error::SwitchError;
use hdmi_switch::ports::{HdmiIn, HdmiOut};
use hdmi_switch::session::{execute, get_file_path, list_all, load_configuration, Action, SubCommand};
use hdmi_switch::switch::Switch;

fn pairs(list: &[(&str, &str)]) -> Vec<(String, String)> {
    list.iter().map(|(a, t)| (a.to_string(), t.to_string())).collect()
}

fn settings(port: Option<u16>, inputs: &[(&str, &str)], outputs: &[(&str, &str)]) -> Configuration {
    Configuration {
        server: ServerConfiguration { host: "switch.local".to_string(), port },
        input: InputConfiguration { aliases: pairs(inputs) },
        output: OutputConfiguration { aliases: pairs(outputs) },
    }
}

fn usual() -> Configuration {
    settings(
        None,
        &[("pc", "hdmiin1"), ("ps", "hdmiin2"), ("switch", "hdmiin3"), ("work", "hdmiin4")],
        &[("pc", "hdmiout1"), ("tv", "hdmiout2")],
    )
}

fn switch_to(input: &str, output: &str) -> Option<SubCommand> {
    Some(SubCommand::Switch { input: input.to_string(), output: output.to_string() })
}

fn sent(action: Result<Action, SwitchError>) -> String {
    match action {
        Ok(Action::Send(line)) => line,
        other => panic!("nothing to send: {:?}", other),
    }
}

fn refused(action: Result<Action, SwitchError>) -> SwitchError {
    match action {
        Err(e) => e,
        Ok(other) => panic!("not refused: {:?}", other),
    }
}

#[test]
fn the_port_defaults_to_telnet() {
    assert_eq!(DEFAULT_PORT, 23);
    assert_eq!(settings(None, &[], &[]).get_port(), 23);
}

#[test]
fn a_port_that_is_set_is_used() {
    assert_eq!(settings(Some(2323), &[], &[]).get_port(), 2323);
    assert_eq!(settings(Some(0), &[], &[]).get_port(), 0);
    assert_eq!(settings(Some(65535), &[], &[]).get_port(), 65535);
}

#[test]
fn a_given_path_is_taken_as_it_is() {
    assert_eq!(get_file_path("/etc/hdmi.yaml", Some("/home/u")), Some("/etc/hdmi.yaml".to_string()));
    assert_eq!(get_file_path("relative.yaml", None), Some("relative.yaml".to_string()));
}

#[test]
fn without_a_path_the_settings_are_sought_below_home() {
    assert_eq!(
        get_file_path("", Some("/home/u")),
        Some("/home/u/.config/hdmi-switch/configuration.yaml".to_string())
    );
    assert_eq!(
        get_file_path("", Some("")),
        Some("/.config/hdmi-switch/configuration.yaml".to_string())
    );
}

#[test]
fn without_a_path_and_a_home_there_is_no_file() {
    assert_eq!(get_file_path("", None), None);
}

#[test]
fn a_switch_request_sends_the_command() {
    assert_eq!(sent(execute(&usual(), switch_to("pc", "tv"))), "SET SW hdmiin1 hdmiout2\n\r");
    assert_eq!(sent(execute(&usual(), switch_to("hdmiin3", "all"))), "SET SW hdmiin3 all\n\r");
}

#[test]
fn a_run_without_subcommand_is_refused() {
    assert_eq!(refused(execute(&usual(), None)), SwitchError::NoSubcommand);
}

#[test]
fn an_unknown_input_ends_the_run_before_the_output_is_looked_at() {
    assert_eq!(
        refused(execute(&usual(), switch_to("bogus", "tv"))),
        SwitchError::UnknownInput("bogus".to_string())
    );
    assert_eq!(
        refused(execute(&usual(), switch_to("bogus", "nowhere"))),
        SwitchError::UnknownInput("bogus".to_string())
    );
    assert_eq!(
        refused(execute(&usual(), switch_to("pc", "nowhere"))),
        SwitchError::UnknownOutput("nowhere".to_string())
    );
}

#[test]
fn a_bad_alias_ends_the_run_whatever_was_asked() {
    let bad_input = settings(None, &[("pc", "hdmiin1"), ("ps", "hdmi2")], &[("tv", "hdmi9")]);
    for cmd in [None, Some(SubCommand::Ls), switch_to("pc", "tv")] {
        assert_eq!(
            refused(execute(&bad_input, cmd)),
            SwitchError::InputAliasTarget("hdmi2".to_string())
        );
    }
    let bad_output = settings(None, &[("pc", "hdmiin1")], &[("tv", "hdmiout2"), ("wall", "hdmiin1")]);
    for cmd in [None, Some(SubCommand::Ls), switch_to("pc", "tv")] {
        assert_eq!(
            refused(execute(&bad_output, cmd)),
            SwitchError::OutputAliasTarget("hdmiin1".to_string())
        );
    }
}

#[test]
fn the_first_bad_alias_is_the_one_reported() {
    let two_bad = settings(None, &[("a", "one"), ("b", "two")], &[]);
    assert_eq!(
        load_configuration(&two_bad).err(),
        Some(SwitchError::InputAliasTarget("one".to_string()))
    );
}

#[test]
fn loading_registers_every_alias() {
    let switch = load_configuration(&usual()).unwrap();
    assert_eq!(switch.resolve_input("work"), Ok(HdmiIn::In4));
    assert_eq!(switch.resolve_output("tv"), Ok(HdmiOut::Out2));
    assert_eq!(switch.resolve_output("pc"), Ok(HdmiOut::Out1));
}

#[test]
fn a_later_alias_of_the_settings_replaces_an_earlier_one() {
    let twice = settings(None, &[("pc", "hdmiin1"), ("pc", "hdmiin3")], &[]);
    assert_eq!(sent(execute(&twice, switch_to("pc", "all"))), "SET SW hdmiin3 all\n\r");
}

#[test]
fn a_listing_shows_aliases_then_built_in_names() {
    let lines = match execute(&usual(), Some(SubCommand::Ls)) {
        Ok(Action::Print(lines)) => lines,
        other => panic!("nothing to show: {:?}", other),
    };
    assert_eq!(
        lines,
        vec![
            "Aliases:",
            "  Input aliases:",
            "    pc:       hdmiin1",
            "    ps:       hdmiin2",
            "    switch:   hdmiin3",
            "    work:     hdmiin4",
            "",
            "  Output aliases:",
            "    pc:       hdmiout1",
            "    tv:       hdmiout2",
            "",
            "",
            "Defaults:",
            "  Input Defaults:",
            "    hdmiin1:  hdmiin1",
            "    hdmiin2:  hdmiin2",
            "    hdmiin3:  hdmiin3",
            "    hdmiin4:  hdmiin4",
            "",
            "  Output Defaults:",
            "    hdmiout1: hdmiout1",
            "    hdmiout2: hdmiout2",
            "    hdmiout3: hdmiout3",
            "    hdmiout4: hdmiout4",
            "    all:      all",
        ]
    );
}

#[test]
fn a_listing_without_aliases_keeps_its_frame() {
    let mut switch = Switch::new();
    let lines = list_all(&mut switch);
    assert_eq!(lines.len(), 19);
    assert_eq!(lines[0], "Aliases:");
    assert_eq!(lines[1], "  Input aliases:");
    assert_eq!(lines[2], "");
    assert_eq!(lines[3], "  Output aliases:");
    assert_eq!(lines[4], "");
    assert_eq!(lines[5], "");
    assert_eq!(lines[6], "Defaults:");
    assert_eq!(lines[7], "  Input Defaults:");
    assert_eq!(lines[12], "");
    assert_eq!(lines[13], "  Output Defaults:");
    assert_eq!(lines[18], "    all:      all");
}
