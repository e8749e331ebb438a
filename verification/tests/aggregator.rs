use runel::cell::update_value;
use runel::color::Color;
use runel::server::{print_bar, redraw, run, Bar};
use runel::source::{command_step, ReadLine, SourceStep};

fn line(text: &str) -> ReadLine<String> {
    ReadLine::Line(format!("{}\n", text))
}

#[test]
fn update_value_is_gated_by_equality() {
    let mut value = String::from("old");
    assert!(update_value(&mut value, "new"));
    assert_eq!(value, "new");
    assert!(!update_value(&mut value, "new"));
    assert_eq!(value, "new");
    assert!(update_value(&mut value, ""));
    assert_eq!(value, "");
    assert!(!update_value(&mut value, ""));
}

#[test]
fn one_notification_per_distinct_consecutive_line() {
    let mut value = String::new();
    let mut sent = 0;
    for text in ["A", "A", "B"] {
        match command_step(&mut value, line(text)) {
            SourceStep::Changed => sent += 1,
            SourceStep::Unchanged => {}
            other => panic!("{:?}", matches!(other, SourceStep::Finished)),
        }
    }
    assert_eq!(sent, 2);
    assert_eq!(value, "B");
}

#[test]
fn a_value_that_comes_back_is_a_change() {
    let mut value = String::from("A");
    let mut sent = 0;
    for text in ["A", "B", "A", "A", "", ""] {
        if let SourceStep::Changed = command_step(&mut value, line(text)) {
            sent += 1;
        }
    }
    assert_eq!(sent, 3);
    assert_eq!(value, "");
}

#[test]
fn the_terminator_is_stripped() {
    let mut value = String::new();
    assert!(matches!(
        command_step::<String>(&mut value, ReadLine::Line("abc\n".into())),
        SourceStep::Changed
    ));
    assert_eq!(value, "abc");
    // A last record without a terminator loses its last character all the same.
    assert!(matches!(
        command_step::<String>(&mut value, ReadLine::Line("abc".into())),
        SourceStep::Changed
    ));
    assert_eq!(value, "ab");
    assert!(matches!(
        command_step::<String>(&mut value, ReadLine::Line("\u{e9}t\u{e9}".into())),
        SourceStep::Changed
    ));
    assert_eq!(value, "\u{e9}t");
}

#[test]
fn end_of_stream_and_errors_leave_the_cell() {
    let mut value = String::from("kept");
    assert!(matches!(
        command_step::<String>(&mut value, ReadLine::Eof),
        SourceStep::Finished
    ));
    assert_eq!(value, "kept");
    match command_step(&mut value, ReadLine::Failed(String::from("broken pipe"))) {
        SourceStep::Failed(e) => assert_eq!(e, "broken pipe"),
        _ => panic!("the error was not passed on"),
    }
    assert_eq!(value, "kept");
}

#[test]
fn the_bar_line() {
    let title = Color::from_str("#aabbcc").unwrap();
    let bar = Bar {
        wmstatus: "WMeDP1".into(),
        title: "term".into(),
        mode: "wifi up".into(),
    };
    let mut out = String::from(">");
    print_bar(&title, &mut out, &bar);
    assert_eq!(out, ">%{l} WMeDP1 %{F#aabbcc}term%{F-}%{r} wifi up \n");

    let plain = Color::from_str("").unwrap();
    let mut out = String::new();
    print_bar(&plain, &mut out, &Bar::default());
    assert_eq!(out, "%{l}  %{r}  \n");
}

#[test]
fn colours_are_read_strictly() {
    assert!(Color::from_str("").unwrap().as_ref().is_none());
    assert_eq!(
        Color::from_str("#09afAF").unwrap().as_ref().as_deref(),
        Some("#09afAF")
    );
    for bad in ["#12345", "#1234567", "1234567", "#12345g", "#\u{e9}1234", " ", "#"] {
        assert_eq!(
            Color::from_str(bad).unwrap_err(),
            format!("Invalid hex color: {}", bad)
        );
    }
}

#[test]
fn drawing_in_a_colour() {
    let red = Color::from_str("#ff0000").unwrap();
    assert_eq!(red.draw("x").to_string(), "%{F#ff0000}x%{F-}");
    let none = Color::from_str("").unwrap();
    assert_eq!(none.draw("x").to_string(), "x");
    let mut out = String::from("a");
    red.draw("").write_to(&mut out);
    assert_eq!(out, "a%{F#ff0000}%{F-}");
}

#[test]
fn redraw_overwrites_the_buffer() {
    let title = Color::from_str("").unwrap();
    let bar = Bar {
        wmstatus: "W".into(),
        title: "t".into(),
        mode: "m".into(),
    };
    let mut buf = String::from("stale");
    assert!(redraw::<String>(&title, &mut buf, &bar, Ok(())).is_ok());
    assert_eq!(buf, "%{l} W t%{r} m \n");
    let failed = redraw(&title, &mut buf, &bar, Err(String::from("gone")));
    assert_eq!(failed, Err(String::from("gone")));
    assert_eq!(buf, "%{l} W t%{r} m \n");
}

/// The window manager's source emits the same record twice and then a new
/// one: the bar is drawn twice, and the second line shows the new record.
#[test]
fn repeated_status_draws_twice() {
    let title = Color::from_str("").unwrap();
    let mut bar = Bar::default();
    let mut buf = String::new();
    let mut drawn = Vec::new();
    for record in ["MeDP1:OH:oB", "MeDP1:OH:oB", "MeDP1:Of:oB"] {
        if let SourceStep::Changed = command_step::<String>(&mut bar.wmstatus, line(record)) {
            redraw::<String>(&title, &mut buf, &bar, Ok(())).unwrap();
            drawn.push(buf.clone());
        }
    }
    assert_eq!(
        drawn,
        vec![
            String::from("%{l} MeDP1:OH:oB %{r}  \n"),
            String::from("%{l} MeDP1:Of:oB %{r}  \n"),
        ]
    );
}

fn bar(wmstatus: &str) -> Bar {
    Bar {
        wmstatus: wmstatus.into(),
        title: String::new(),
        mode: String::new(),
    }
}

#[test]
fn run_draws_in_order_until_the_first_error() {
    let title = Color::from_str("").unwrap();
    let (lines, failure) = run::<String>(&title, vec![Ok(bar("a")), Ok(bar("b")), Ok(bar("b"))]);
    assert_eq!(
        lines,
        vec!["%{l} a %{r}  \n", "%{l} b %{r}  \n", "%{l} b %{r}  \n"]
    );
    assert_eq!(failure, None);

    let (lines, failure) = run(
        &title,
        vec![
            Ok(bar("a")),
            Err(String::from("first")),
            Ok(bar("c")),
            Err(String::from("second")),
        ],
    );
    assert_eq!(lines, vec!["%{l} a %{r}  \n"]);
    assert_eq!(failure, Some(String::from("first")));

    let (lines, failure) = run::<String>(&title, Vec::new());
    assert!(lines.is_empty());
    assert_eq!(failure, None);
}
