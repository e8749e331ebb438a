use runel::command::RunelCommand;
use runel::error::RunelParseError;
use runel::mode::RunelMode;
use runel::widget::RunelWidget;

#[test]
fn command_reload_correct() {
    let res = RunelCommand::from_str("command:reload").unwrap();
    if let RunelCommand::Reload = res {
    } else {
        panic!("Incorrect command");
    }
}

#[test]
fn command_quit_correct() {
    let res = RunelCommand::from_str("command:quit").unwrap();
    if let RunelCommand::Quit = res {
    } else {
        panic!("Incorrect command");
    }
}

#[test]
fn mode_correct() {
    let res = RunelCommand::from_str("mode:some_cool_mode").unwrap();
    if let RunelCommand::Mode {
        command: Some(a), ..
    } = res
    {
        assert_eq!(a, "some_cool_mode".to_string());
    } else {
        panic!("Incorrect command");
    }
}

#[test]
fn set_correct() {
    let res = RunelCommand::from_str("set:timer:off").unwrap();
    if let RunelCommand::SetWidget { widget, value } = res {
        assert_eq!(widget, RunelWidget::Timer);
        assert_eq!(value, "off".to_string());
    } else {
        panic!("Incorrect command");
    }
}

#[test]
#[should_panic]
fn invalid_set() {
    RunelCommand::from_str("set:invalid").unwrap();
}

#[test]
#[should_panic]
fn invalid_command() {
    RunelCommand::from_str("command:invalid").unwrap();
}

#[test]
#[should_panic]
fn invalid_syntax() {
    RunelCommand::from_str("setaoesnth").unwrap();
}

#[test]
#[should_panic]
fn invalid_cmd() {
    RunelCommand::from_str("nono:bananas").unwrap();
}

#[test]
fn bare_reload_and_quit() {
    assert!(matches!(RunelCommand::from_str("reload"), Ok(RunelCommand::Reload)));
    assert!(matches!(RunelCommand::from_str("quit"), Ok(RunelCommand::Quit)));
}

#[test]
fn each_parse_error() {
    match RunelCommand::from_str("setaoesnth") {
        Err(RunelParseError::InvalidSyntax) => {}
        other => panic!("{:?}", other),
    }
    match RunelCommand::from_str("nono:bananas") {
        Err(RunelParseError::InvalidCommand(word)) => assert_eq!(word, "nono"),
        other => panic!("{:?}", other),
    }
    match RunelCommand::from_str("command:invalid") {
        Err(RunelParseError::InvalidCommand(word)) => assert_eq!(word, "command"),
        other => panic!("{:?}", other),
    }
    match RunelCommand::from_str("set:invalid") {
        Err(RunelParseError::InvalidSetSyntax) => {}
        other => panic!("{:?}", other),
    }
    match RunelCommand::from_str("set:nothing:1") {
        Err(RunelParseError::InvalidWidget(word)) => assert_eq!(word, "nothing"),
        other => panic!("{:?}", other),
    }
}

#[test]
fn parse_error_messages() {
    assert_eq!(
        RunelParseError::InvalidSyntax.to_string(),
        "Could not find ':' char. The command syntax is wrong"
    );
    assert_eq!(
        RunelParseError::InvalidCommand("nono".to_string()).to_string(),
        "'nono' is not a valid command"
    );
    assert_eq!(
        RunelParseError::InvalidSetSyntax.to_string(),
        "Syntax for 'set' command is not valid: could not find ':' char or the value is empty"
    );
    assert_eq!(
        RunelParseError::InvalidWidget("nothing".to_string()).to_string(),
        "Non existent widget 'nothing'"
    );
}

#[test]
fn set_value_keeps_later_colons() {
    match RunelCommand::from_str("set:clock:04:20") {
        Ok(RunelCommand::SetWidget { widget, value }) => {
            assert_eq!(widget, RunelWidget::Clock);
            assert_eq!(value, "04:20");
        }
        other => panic!("{:?}", other),
    }
    match RunelCommand::from_str("set:custom:") {
        Ok(RunelCommand::SetWidget { widget, value }) => {
            assert_eq!(widget, RunelWidget::Custom);
            assert_eq!(value, "");
        }
        other => panic!("{:?}", other),
    }
}

#[test]
fn default_mode_has_no_program() {
    let res = RunelCommand::from_str("mode:default").unwrap();
    assert!(!res.is_custom());
    assert_eq!(res.mode_command(), None);
    match res {
        RunelCommand::Mode { mode, command } => {
            assert_eq!(mode, RunelMode::Default);
            assert_eq!(command, None);
        }
        other => panic!("{:?}", other),
    }
    let res = RunelCommand::from_str("mode:wifi").unwrap();
    assert!(res.is_custom());
    assert_eq!(res.mode_command(), Some("wifi"));
    assert!(!RunelCommand::Reload.is_custom());
    assert_eq!(RunelCommand::Quit.mode_command(), None);
}

#[test]
fn commands_as_lines() {
    let set = RunelCommand::SetWidget {
        widget: RunelWidget::Custom,
        value: "a:b".to_string(),
    };
    assert_eq!(set.to_string(), "set:custom:a:b");
    let mode = RunelCommand::Mode {
        mode: RunelMode::Custom,
        command: Some("wifi".to_string()),
    };
    assert_eq!(mode.to_string(), "mode:custom");
    let mode = RunelCommand::Mode {
        mode: RunelMode::Default,
        command: None,
    };
    assert_eq!(mode.to_string(), "mode:default");
    assert_eq!(RunelCommand::Reload.to_string(), "reload");
    assert_eq!(RunelCommand::Quit.to_string(), "quit");
}

#[test]
fn written_set_parses_back() {
    let set = RunelCommand::SetWidget {
        widget: RunelWidget::Battery,
        value: "Charging 77".to_string(),
    };
    match RunelCommand::from_str(&set.to_string()) {
        Ok(RunelCommand::SetWidget { widget, value }) => {
            assert_eq!(widget, RunelWidget::Battery);
            assert_eq!(value, "Charging 77");
        }
        other => panic!("{:?}", other),
    }
}

#[test]
fn widget_names_round_trip() {
    let all = [
        (RunelWidget::Space, "space"),
        (RunelWidget::Left, "left"),
        (RunelWidget::Right, "right"),
        (RunelWidget::Custom, "custom"),
        (RunelWidget::Bspwm, "bspwm"),
        (RunelWidget::Title, "title"),
        (RunelWidget::Timer, "timer"),
        (RunelWidget::Keyboard, "keyboard"),
        (RunelWidget::Brightness, "brightness"),
        (RunelWidget::Volume, "volume"),
        (RunelWidget::Battery, "battery"),
        (RunelWidget::Date, "date"),
        (RunelWidget::Clock, "clock"),
    ];
    for (widget, name) in all {
        assert_eq!(widget.to_string(), name);
        assert_eq!(widget.name(), name);
        assert_eq!(RunelWidget::from_str(name).unwrap(), widget);
    }
    match RunelWidget::from_str("Clock") {
        Err(RunelParseError::InvalidWidget(word)) => assert_eq!(word, "Clock"),
        other => panic!("{:?}", other),
    }
}
