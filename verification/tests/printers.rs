use runel::command::RunelCommand;
use runel::error::{PrinterError, RunelParseError};
use runel::printers::battery::Battery;
use runel::printers::brightness::{Brightness, BACKLIGHT_DIR, BRIGHTNESS, MAX_BRIGHTNESS};
use runel::printers::bspwm::{first_match, Bspwm, SOCKET_PATTERN, SUBSCRIBE};
use runel::printers::datetime::DateTime;
use runel::printers::keyboard::{Keyboard, Setup};
use runel::printers::socket::Socket;
use runel::printers::title::Title;
use runel::printers::volume::{Volume, VolumeState};
use runel::text::u8_to_string;
use runel::widget::RunelWidget;

fn set(command: RunelCommand) -> (RunelWidget, String) {
    match command {
        RunelCommand::SetWidget { widget, value } => (widget, value),
        other => panic!("{:?}", other),
    }
}

fn paths(all: &[&str]) -> Vec<String> {
    all.iter().map(|p| p.to_string()).collect()
}

#[test]
fn the_socket_is_the_first_path_that_matches() {
    let _ = Bspwm::new();
    let entries = paths(&[
        "/tmp/.X11-unix",
        "/tmp/bspwm-socket",
        "/tmp/bspwm_0_0-socket",
        "/tmp/bspwmhost_1_2-socket",
    ]);
    assert_eq!(Bspwm::find_socket(&entries).unwrap(), "/tmp/bspwm_0_0-socket");
    let entries = paths(&["/tmp/bspwmhost_1_2-socket", "/tmp/bspwm_0_0-socket"]);
    assert_eq!(
        Bspwm::find_socket(&entries).unwrap(),
        "/tmp/bspwmhost_1_2-socket"
    );
    // The numbers may be missing, the two underscores may not.
    let entries = paths(&["/tmp/bspwm_0-socket", "/tmp/bspwm__-socket"]);
    assert_eq!(Bspwm::find_socket(&entries).unwrap(), "/tmp/bspwm__-socket");
}

#[test]
fn no_socket_is_an_error() {
    let entries = paths(&["/tmp/.X11-unix", "/tmp/bspwm_0_0.socket", "socket"]);
    match Bspwm::find_socket(&entries) {
        Err(PrinterError::BspwmNotFound) => {}
        other => panic!("{:?}", other),
    }
    assert!(matches!(
        Bspwm::find_socket(&Vec::new()),
        Err(PrinterError::BspwmNotFound)
    ));
}

#[test]
fn first_match_of_a_compiled_pattern() {
    let re = regex::Regex::new(SOCKET_PATTERN).unwrap();
    let entries = paths(&["a", "bspwm_1_2-socket", "bspwm_3_4-socket"]);
    assert_eq!(first_match(&re, &entries), Some(1));
    assert_eq!(first_match(&re, &paths(&["a", "b"])), None);
    let digits = regex::Regex::new(r"^\d+$").unwrap();
    assert_eq!(first_match(&digits, &paths(&["x1", "12", "3"])), Some(1));
}

#[test]
fn bspwm_lines_become_commands() {
    assert_eq!(SUBSCRIBE, "subscribe\0report\0");
    assert_eq!(
        set(Bspwm::command("WMeDP1:OH".into())),
        (RunelWidget::Bspwm, "WMeDP1:OH".to_string())
    );
    assert_eq!(
        Bspwm::unreachable().to_string(),
        "Reached unreachable in main loop of printer 'bspwm'"
    );
}

#[test]
fn printer_error_messages() {
    assert_eq!(PrinterError::BspwmNotFound.to_string(), "Can't find bspwm socket");
    assert_eq!(PrinterError::SelemNotFound.to_string(), "Can't find alsa selem");
    assert_eq!(
        PrinterError::RunelParseError(RunelParseError::InvalidWidget("w".into())).to_string(),
        "Non existent widget 'w'"
    );
    assert_eq!(
        PrinterError::Unreachable("title".into()).to_string(),
        "Reached unreachable in main loop of printer 'title'"
    );
    assert_eq!(PrinterError::KbdError("xkb: no reply").to_string(), "xkb: no reply");
    let why = regex::Regex::new("(").unwrap_err();
    assert_eq!(
        PrinterError::RegexError(why.clone()).to_string(),
        format!("{}", why)
    );
}

#[test]
fn the_battery_value_is_trimmed() {
    let printer = Battery::new(15);
    assert_eq!(printer.seconds(), 15);
    assert_eq!(
        set(Battery::command("Charging\n", "77\n")),
        (RunelWidget::Battery, "Charging 77".to_string())
    );
    assert_eq!(
        set(Battery::command("  Not charging \t\n", " 100")),
        (RunelWidget::Battery, "Not charging 100".to_string())
    );
}

#[test]
fn the_battery_line_has_a_sign() {
    assert_eq!(Battery::line("Discharging\n".into(), "54\n"), "-54\n");
    assert_eq!(Battery::line("Charging\n".into(), "77\n"), "+77\n");
    assert_eq!(Battery::line("Unknown\n".into(), "100\n"), "?100\n");
    assert_eq!(Battery::line("Full\n".into(), "100\n"), "=100\n");
    assert_eq!(Battery::line("Not charging\n".into(), "99\n"), "Not charging 99\n");
    assert_eq!(Battery::line("".into(), ""), " ");
}

#[test]
fn brightness_events() {
    let _ = Brightness::new();
    assert_eq!(BACKLIGHT_DIR, "/sys/class/backlight/intel_backlight");
    assert_eq!(BRIGHTNESS, "/sys/class/backlight/intel_backlight/brightness");
    assert_eq!(
        MAX_BRIGHTNESS,
        "/sys/class/backlight/intel_backlight/max_brightness"
    );
    assert!(Brightness::is_level_event(true, false, Some("brightness")));
    assert!(!Brightness::is_level_event(false, false, Some("brightness")));
    assert!(!Brightness::is_level_event(true, true, Some("brightness")));
    assert!(!Brightness::is_level_event(true, false, Some("max_brightness")));
    assert!(!Brightness::is_level_event(true, false, None));
    assert_eq!(
        set(Brightness::command(89)),
        (RunelWidget::Brightness, "89".to_string())
    );
}

#[test]
fn a_level_is_shown_once() {
    let mut current = 0;
    assert_eq!(Brightness::show(&mut current, 0), None);
    assert_eq!(Brightness::show(&mut current, 40), Some("40".to_string()));
    assert_eq!(current, 40);
    assert_eq!(Brightness::show(&mut current, 40), None);
    assert_eq!(Brightness::show(&mut current, 100), Some("100".to_string()));
}

#[test]
fn numbers_in_decimal() {
    for n in [0u8, 1, 9, 10, 11, 99, 100, 101, 110, 199, 200, 255] {
        assert_eq!(u8_to_string(n), n.to_string());
    }
}

#[test]
fn the_clock_sends_what_it_is_given() {
    let clock = DateTime::new(3, RunelWidget::Clock, "%R");
    assert_eq!(clock.seconds(), 3);
    assert_eq!(clock.widget(), RunelWidget::Clock);
    assert_eq!(clock.format(), "%R");
    assert_eq!(
        set(clock.command("04:20".into())),
        (RunelWidget::Clock, "04:20".to_string())
    );
    let date = DateTime::new(60, RunelWidget::Date, "%d %b, %a");
    assert_eq!(
        set(date.command("19 Aug, Mon".into())),
        (RunelWidget::Date, "19 Aug, Mon".to_string())
    );
}

#[test]
fn keyboard_setup_faults() {
    let _ = Keyboard::new();
    let fault = |step| match Keyboard::check(step) {
        Ok(()) => None,
        Err(PrinterError::KbdError(what)) => Some(what),
        Err(other) => panic!("{:?}", other),
    };
    assert_eq!(fault(Setup::Extension { reply: Some(true) }), None);
    assert_eq!(
        fault(Setup::Extension { reply: Some(false) }),
        Some("xkb: not supported")
    );
    assert_eq!(fault(Setup::Extension { reply: None }), Some("xkb: no reply"));
    assert_eq!(fault(Setup::Prepared { done: true }), None);
    assert_eq!(
        fault(Setup::Prepared { done: false }),
        Some("xkb: setup extension")
    );
    assert_eq!(fault(Setup::Device { id: 3 }), None);
    assert_eq!(
        fault(Setup::Device { id: -1 }),
        Some("xkb: get core kbd device")
    );
    assert_eq!(fault(Setup::Keymap { compiled: true }), None);
    assert_eq!(
        fault(Setup::Keymap { compiled: false }),
        Some("xkb: keymap from device")
    );
}

#[test]
fn a_layout_is_sent_when_the_group_changes() {
    let mut last = 0;
    assert!(!Keyboard::on_group(&mut last, 0));
    assert!(Keyboard::on_group(&mut last, 1));
    assert_eq!(last, 1);
    assert!(!Keyboard::on_group(&mut last, 1));
    assert!(Keyboard::on_group(&mut last, 0));
    assert_eq!(
        set(Keyboard::command("dvorak".into())),
        (RunelWidget::Keyboard, "dvorak".to_string())
    );
    assert_eq!(
        Keyboard::unreachable().to_string(),
        "Reached unreachable in main loop of printer 'xkb'"
    );
}

#[test]
fn socket_lines_are_commands() {
    let _ = Socket::new();
    assert!(matches!(Socket::on_line("quit"), Ok(RunelCommand::Quit)));
    assert_eq!(
        set(Socket::on_line("set:custom:wifi up").unwrap()),
        (RunelWidget::Custom, "wifi up".to_string())
    );
    match Socket::on_line("bananas") {
        Err(PrinterError::RunelParseError(RunelParseError::InvalidSyntax)) => {}
        other => panic!("{:?}", other),
    }
    assert_eq!(
        Socket::unreachable("socket listener: ", "closed", "").to_string(),
        "Reached unreachable in main loop of printer 'socket listener: closed'"
    );
    assert_eq!(
        Socket::unreachable("", "closed", ": socket connection").to_string(),
        "Reached unreachable in main loop of printer 'closed: socket connection'"
    );
}

#[test]
fn title_lines_become_commands() {
    let _ = Title::new();
    assert_eq!(
        set(Title::command("term".into())),
        (RunelWidget::Title, "term".to_string())
    );
    assert_eq!(
        Title::unreachable().to_string(),
        "Reached unreachable in main loop of printer 'title'"
    );
}

#[test]
fn the_volume_state() {
    let mut state = VolumeState::new();
    assert_eq!((state.volume(), state.muted()), (0, false));
    assert_eq!(state.to_string(), "0 on");
    assert!(!state.update_current_state(None));
    assert!(!state.update_current_state(Some((0, 1))));
    assert!(state.update_current_state(Some((40, 1))));
    assert_eq!(state.to_string(), "40 on");
    assert!(!state.update_current_state(Some((40, 7))));
    assert!(state.update_current_state(Some((40, 0))));
    assert_eq!((state.volume(), state.muted()), (40, true));
    assert_eq!(state.to_string(), "40 off");
    assert!(state.update_current_state(Some((100, 1))));
    assert_eq!(state.to_string(), "100 on");
}

#[test]
fn the_volume_printer() {
    let _ = Volume::new();
    let mut state = VolumeState::new();
    assert_eq!(
        set(Volume::command(&mut state, Some((100, 1))).unwrap()),
        (RunelWidget::Volume, "100 on".to_string())
    );
    assert_eq!(
        set(Volume::command(&mut state, Some((7, 0))).unwrap()),
        (RunelWidget::Volume, "7 off".to_string())
    );
    assert!(matches!(
        Volume::command(&mut state, None),
        Err(PrinterError::SelemNotFound)
    ));
    assert_eq!(state.to_string(), "7 off");
}
