use runel::controller::{make_uid, Directive, Message, ModeController, Update};
use runel::listener::{on_receive, on_resolved, Heard, CAPACITY, MAX_MSG_LEN, MQUEUE};
use runel::mode::{Mode, RunelMode};
use runel::reader::{ModeReader, Phase, ReaderStep};
use runel::source::ReadLine;
use runel::supervisor::{
    kill_child, KillStep, KillerMessage, Outcome, Supervisor, Verdict, GRACE_SECONDS,
};

fn mode(name: &str) -> Mode {
    Mode::from_str(name, format!("/etc/runel/{}", name), true).unwrap()
}

fn update(u: Update) -> Result<Update, String> {
    Ok(u)
}

#[test]
fn ids_count_up_from_one() {
    let mut uid = make_uid();
    assert_eq!(uid.next(), 1);
    assert_eq!(uid.next(), 2);
    assert_eq!(uid.next(), 3);
}

#[test]
fn mode_descriptors() {
    let m = mode("wifi");
    assert_eq!(m.mode, "wifi");
    assert_eq!(m.path, "/etc/runel/wifi");
    assert_eq!(m.to_string(), "wifi");
    assert_eq!(
        Mode::from_str("wifi", "/etc/runel/wifi".into(), false).unwrap_err(),
        "Mode \"wifi\" does not exists"
    );
    // Two descriptors are the same mode when their names are.
    let elsewhere = Mode::from_str("wifi", "/opt/wifi".into(), true).unwrap();
    assert!(m == elsewhere);
    assert!(m != mode("default"));
    assert_eq!(RunelMode::from_str("default"), RunelMode::Default);
    assert_eq!(RunelMode::from_str("wifi"), RunelMode::Custom);
    assert_eq!(RunelMode::from_str(""), RunelMode::Custom);
    assert_eq!(RunelMode::Default.to_string(), "default");
    assert_eq!(RunelMode::Custom.to_string(), "custom");
}

#[test]
fn the_first_mode_is_generation_one() {
    let (controller, id, path) = ModeController::new(mode("default"));
    assert_eq!(id, 1);
    assert_eq!(path, "/etc/runel/default");
    assert_eq!(controller.id(), 1);
    assert_eq!(controller.mode(), "default");
}

#[test]
fn a_current_line_is_adopted_and_acknowledged() {
    let (mut controller, id, _) = ModeController::new(mode("default"));
    let mut value = String::new();
    match controller.on_update(update(Update::Id(id)), "12:00", &mut value) {
        Directive::Adopt { changed } => assert!(changed),
        other => panic!("{:?}", other),
    }
    assert_eq!(value, "12:00");
    match controller.on_update(update(Update::Id(id)), "12:00", &mut value) {
        Directive::Adopt { changed } => assert!(!changed),
        other => panic!("{:?}", other),
    }
    assert_eq!(value, "12:00");
}

#[test]
fn a_stale_line_leaves_the_value() {
    let (mut controller, _, _) = ModeController::new(mode("default"));
    let mut value = String::from("current");
    for stale in [0, 2, 7, usize::MAX] {
        assert!(matches!(
            controller.on_update(update(Update::Id(stale)), "stale", &mut value),
            Directive::Skip
        ));
        assert_eq!(value, "current");
        assert_eq!(controller.id(), 1);
        assert_eq!(controller.mode(), "default");
    }
}

#[test]
fn a_swap_to_the_active_mode_does_nothing() {
    let (mut controller, _, _) = ModeController::new(mode("default"));
    let mut value = String::from("current");
    let elsewhere = Mode::from_str("default", "/opt/default".into(), true).unwrap();
    assert!(matches!(
        controller.on_update(update(Update::Mode(elsewhere)), "", &mut value),
        Directive::Skip
    ));
    assert_eq!(controller.id(), 1);
    assert_eq!(controller.mode(), "default");
    assert_eq!(value, "current");
}

#[test]
fn an_error_is_passed_on() {
    let (mut controller, _, _) = ModeController::new(mode("default"));
    let mut value = String::from("current");
    match controller.on_update(Err(String::from("read failed")), "", &mut value) {
        Directive::Fail(e) => assert_eq!(e, "read failed"),
        other => panic!("{:?}", other),
    }
    assert_eq!(controller.id(), 1);
    assert_eq!(value, "current");
}

/// A swap from `default` to `wifi` while the old program is in the middle
/// of a line: the old generation is told to quit and retired, a new
/// generation starts, and nothing announced under the old id reaches the
/// mode's value.
#[test]
fn swap_while_the_old_mode_is_writing() {
    let (mut controller, first, path) = ModeController::new(mode("default"));
    let mut supervisor: Supervisor<u32> = Supervisor::new(vec![100, 101]);
    let mut value = String::new();

    let mut old_reader = ModeReader::new(first);
    let mut old_buffer = String::new();
    assert_eq!(path, "/etc/runel/default");
    supervisor.handle(KillerMessage::Child(first, 200));

    // The request arrives while the old reader is blocked in a read.
    let directive = controller.on_update(update(Update::Mode(mode("wifi"))), &old_buffer, &mut value);
    let (retired, started, path) = match directive {
        Directive::Swap { retired, started, path } => (retired, started, path),
        other => panic!("{:?}", other),
    };
    assert_eq!((retired, started), (1, 2));
    assert_eq!(path, "/etc/runel/wifi");
    assert_eq!(controller.mode(), "wifi");
    assert_eq!(controller.id(), 2);
    let mut new_reader = ModeReader::new(started);
    let mut new_buffer = String::new();
    supervisor.handle(KillerMessage::Child(started, 201));

    // The old program finishes its line; the announcement is stale.
    match old_reader.on_read::<String>(ReadLine::Line("old line\n".into()), &mut old_buffer) {
        ReaderStep::Announce(id) => {
            assert_eq!(id, retired);
            assert!(matches!(
                controller.on_update(update(Update::Id(id)), &new_buffer, &mut value),
                Directive::Skip
            ));
        }
        other => panic!("{:?}", other),
    }
    assert_eq!(value, "");
    // What unblocks the old reader is the quit sent at the swap.
    assert!(!old_reader.on_answer(Message::Quit));
    assert_eq!(old_reader.phase(), Phase::Done);
    match supervisor.handle(KillerMessage::Kill(old_reader.id())) {
        Verdict::Retire(child) => assert_eq!(child, 200),
        other => panic!("{:?}", other),
    }
    assert!(!supervisor.tracks(retired));
    assert!(supervisor.tracks(started));

    // The new generation's lines are adopted.
    match new_reader.on_read::<String>(ReadLine::Line("wifi: up\n".into()), &mut new_buffer) {
        ReaderStep::Announce(id) => {
            assert_eq!(id, started);
            match controller.on_update(update(Update::Id(id)), &new_buffer, &mut value) {
                Directive::Adopt { changed } => assert!(changed),
                other => panic!("{:?}", other),
            }
        }
        other => panic!("{:?}", other),
    }
    assert_eq!(value, "wifi: up");
    assert!(new_reader.on_answer(Message::Ack));
    assert_eq!(new_reader.phase(), Phase::Reading);
}

#[test]
fn the_reader_handles_one_line_at_a_time() {
    let mut reader = ModeReader::new(5);
    let mut buffer = String::from("before");
    assert_eq!(reader.id(), 5);
    assert_eq!(reader.phase(), Phase::Reading);
    assert!(matches!(
        reader.on_read::<String>(ReadLine::Line("one\n".into()), &mut buffer),
        ReaderStep::Announce(5)
    ));
    assert_eq!(buffer, "one");
    assert_eq!(reader.phase(), Phase::Waiting);
    assert!(reader.on_answer(Message::Ack));
    assert_eq!(reader.phase(), Phase::Reading);
    assert!(matches!(
        reader.on_read::<String>(ReadLine::Eof, &mut buffer),
        ReaderStep::Retire(5)
    ));
    assert_eq!(buffer, "");
    assert_eq!(reader.phase(), Phase::Done);
}

#[test]
fn a_failed_read_stops_the_reader() {
    let mut reader = ModeReader::new(3);
    let mut buffer = String::from("before");
    match reader.on_read(ReadLine::Failed(String::from("bad pipe")), &mut buffer) {
        ReaderStep::Fail(e, id) => {
            assert_eq!(e, "bad pipe");
            assert_eq!(id, 3);
        }
        other => panic!("{:?}", other),
    }
    assert_eq!(reader.phase(), Phase::Done);
}

#[test]
fn control_channel_settings() {
    assert_eq!(MQUEUE, "/runel");
    assert_eq!(MAX_MSG_LEN, 255);
    assert_eq!(CAPACITY, 10);
}

#[test]
fn a_control_message_names_a_mode() {
    let received: Result<&[u8], String> = Ok(b"wifi");
    let name = match on_receive(received) {
        Heard::Request(name) => name,
        other => panic!("{:?}", other),
    };
    assert_eq!(name, "wifi");
    match on_resolved(&name, "/etc/runel/wifi".into(), true) {
        Some(Update::Mode(m)) => {
            assert_eq!(m.mode, "wifi");
            assert_eq!(m.path, "/etc/runel/wifi");
        }
        other => panic!("{:?}", other),
    }
    match on_receive::<String>(Err("queue closed".into())) {
        Heard::Fail(e) => assert_eq!(e, "queue closed"),
        other => panic!("{:?}", other),
    }
}

/// A message that is no UTF-8, or that names no mode, causes no swap.
#[test]
fn a_malformed_control_message_is_dropped() {
    let (mut controller, _, _) = ModeController::new(mode("default"));
    let mut value = String::from("current");
    let messages: [&[u8]; 3] = [&[0xff, 0xfe, b'x'], b"no such mode", b""];
    let decoded = ["\u{fffd}\u{fffd}x", "no such mode", ""];
    for (bytes, expected) in messages.into_iter().zip(decoded) {
        let received: Result<&[u8], String> = Ok(bytes);
        let name = match on_receive(received) {
            Heard::Request(name) => name,
            other => panic!("{:?}", other),
        };
        assert_eq!(name, expected);
        let update = on_resolved(&name, format!("/etc/runel/{}", name), false);
        assert!(update.is_none());
        if let Some(update) = update {
            controller.on_update::<String>(Ok(update), "", &mut value);
        }
    }
    assert_eq!(controller.id(), 1);
    assert_eq!(controller.mode(), "default");
    assert_eq!(value, "current");
}

#[test]
fn the_supervisor_tracks_children_by_id() {
    let mut supervisor: Supervisor<&str> = Supervisor::new(Vec::new());
    assert!(supervisor.is_empty());
    assert!(matches!(
        supervisor.handle(KillerMessage::Child(1, "first")),
        Verdict::Idle
    ));
    assert!(matches!(
        supervisor.handle(KillerMessage::Child(2, "second")),
        Verdict::Idle
    ));
    assert!(supervisor.tracks(1) && supervisor.tracks(2) && !supervisor.tracks(3));
    // An id that is entered again keeps one handle, the new one.
    assert!(matches!(
        supervisor.handle(KillerMessage::Child(1, "again")),
        Verdict::Idle
    ));
    assert!(matches!(
        supervisor.handle(KillerMessage::Kill(3)),
        Verdict::Idle
    ));
    match supervisor.handle(KillerMessage::Kill(1)) {
        Verdict::Retire(child) => assert_eq!(child, "again"),
        other => panic!("{:?}", other),
    }
    assert!(matches!(
        supervisor.handle(KillerMessage::Kill(1)),
        Verdict::Idle
    ));
    assert!(!supervisor.tracks(1) && supervisor.tracks(2));
    assert!(!supervisor.is_empty());
}

/// A termination signal while two long-lived sources and one mode program
/// run: all three are handed back to be terminated, and nothing is left in
/// the table.
#[test]
fn shutdown_terminates_every_child() {
    let mut supervisor: Supervisor<u32> = Supervisor::new(vec![100, 101]);
    supervisor.handle(KillerMessage::Child(1, 200));
    match supervisor.handle(KillerMessage::Signal) {
        Verdict::Shutdown(all) => assert_eq!(all, vec![100, 101, 200]),
        other => panic!("{:?}", other),
    }
    assert!(supervisor.is_empty());
    assert!(!supervisor.tracks(1));
    match supervisor.handle(KillerMessage::Signal) {
        Verdict::Shutdown(all) => assert!(all.is_empty()),
        other => panic!("{:?}", other),
    }
}

#[test]
fn winding_a_child_down() {
    assert_eq!(GRACE_SECONDS, 1);
    // The child goes by itself.
    assert_eq!(kill_child(KillStep::Terminate, Outcome::Succeeded), KillStep::Probe);
    assert_eq!(kill_child(KillStep::Probe, Outcome::Succeeded), KillStep::Done);
    // The child ignores the request.
    assert_eq!(kill_child(KillStep::Probe, Outcome::Running), KillStep::Force);
    assert_eq!(kill_child(KillStep::Force, Outcome::Succeeded), KillStep::Reap);
    assert_eq!(kill_child(KillStep::Reap, Outcome::Succeeded), KillStep::Done);
    // A failure ends it.
    for step in [KillStep::Terminate, KillStep::Probe, KillStep::Force, KillStep::Reap] {
        assert_eq!(kill_child(step, Outcome::Failed), KillStep::Done);
    }
    assert_eq!(kill_child(KillStep::Done, Outcome::Succeeded), KillStep::Done);
}
