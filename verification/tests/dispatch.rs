use console_error_panic_hook::{hook, Emission, FaultInfo, Sink};

const OUT_OF_BOUNDS: &str = "index out of bounds: the len is 3 but the index is 5";

fn fault(text: &str) -> FaultInfo {
    FaultInfo::new(text.to_string())
}

#[test]
fn fault_info_keeps_the_rendered_text() {
    let info = fault(OUT_OF_BOUNDS);
    assert_eq!(info.rendered(), OUT_OF_BOUNDS);
    assert_eq!(fault("").rendered(), "");
}

#[test]
fn standard_error_receives_the_message_and_one_newline() {
    let out = hook(&fault(OUT_OF_BOUNDS), Sink::StandardError);
    assert_eq!(out.sink, Sink::StandardError);
    assert_eq!(
        out.text,
        "index out of bounds: the len is 3 but the index is 5\n"
    );
}

#[test]
fn external_log_receives_the_rendered_text_alone() {
    let out = hook(&fault(OUT_OF_BOUNDS), Sink::ExternalLog);
    assert_eq!(
        out,
        Emission {
            sink: Sink::ExternalLog,
            text: OUT_OF_BOUNDS.to_string(),
        }
    );
}

#[test]
fn external_log_never_gets_a_line_terminator_added() {
    for text in ["", "a", "two\nlines", "ends with newline\n"] {
        let out = hook(&fault(text), Sink::ExternalLog);
        assert_eq!(out.sink, Sink::ExternalLog);
        assert_eq!(out.text, text);
    }
}

#[test]
fn standard_error_line_is_text_then_exactly_one_terminator() {
    let texts = [
        "",
        "x",
        "panicked at src/main.rs:2:5:\nindex out of bounds",
        "already ends with a newline\n",
        "\n",
        "na\u{ef}ve caf\u{e9} \u{1f980}",
    ];
    for text in texts {
        let out = hook(&fault(text), Sink::StandardError);
        assert_eq!(out.sink, Sink::StandardError);
        assert!(out.text.contains(text));
        assert!(out.text.starts_with(text));
        assert_eq!(out.text.len(), text.len() + 1);
        assert_eq!(out.text.chars().count(), text.chars().count() + 1);
        assert_eq!(out.text.chars().last(), Some('\n'));
        assert_eq!(&out.text[..text.len()], text);
    }
}

#[test]
fn empty_fault_text_gives_a_bare_newline_on_standard_error() {
    let out = hook(&fault(""), Sink::StandardError);
    assert_eq!(out.text, "\n");
}

#[test]
fn a_trailing_newline_in_the_text_is_kept_and_one_more_added() {
    let out = hook(&fault("boom\n"), Sink::StandardError);
    assert_eq!(out.text, "boom\n\n");
}

#[test]
fn the_two_sinks_differ_by_the_terminator_only() {
    let info = fault("attempt to divide by zero");
    let line = hook(&info, Sink::StandardError);
    let log = hook(&info, Sink::ExternalLog);
    assert_eq!(line.text, format!("{}\n", log.text));
    assert_ne!(line.sink, log.sink);
}

#[test]
fn dispatch_leaves_the_fault_info_unchanged() {
    let info = fault(OUT_OF_BOUNDS);
    let first = hook(&info, Sink::StandardError);
    let second = hook(&info, Sink::StandardError);
    assert_eq!(first, second);
    assert_eq!(info, fault(OUT_OF_BOUNDS));
}
