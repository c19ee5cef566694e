//! Log-line composition, with the color and clock crates really linked.

use janus_plugin::LogLevel;
use janus_plugin::log_line;

#[test]
fn info_line_is_tag_then_message() {
    colored::control::set_override(false);
    let line = log_line(false, LogLevel::Info, "hello");
    colored::control::unset_override();
    assert_eq!(line, "[INFO] hello");
}

#[test]
fn severe_lines_are_bare_messages() {
    assert_eq!(log_line(false, LogLevel::Fatal, "boom"), "boom");
    assert_eq!(log_line(false, LogLevel::Error, "bad"), "bad");
}

#[test]
fn warn_line_plain_when_colors_off() {
    colored::control::set_override(false);
    let line = log_line(false, LogLevel::Warn, "careful");
    colored::control::unset_override();
    assert_eq!(line, "[WARN] careful");
}

#[test]
fn warn_line_colored_when_colors_forced() {
    colored::control::set_override(true);
    let line = log_line(false, LogLevel::Warn, "careful");
    colored::control::unset_override();
    assert_eq!(line, "\x1B[33m[WARN]\x1B[0m careful");
}

#[test]
fn colored_tags_use_level_colors() {
    colored::control::set_override(true);
    let fatal = LogLevel::Fatal.display();
    let err = LogLevel::Error.display();
    let warn = LogLevel::Warn.display();
    colored::control::unset_override();
    assert_eq!(fatal, "\x1B[35m[FATAL]\x1B[0m");
    assert_eq!(err, "\x1B[31m[ERR]\x1B[0m");
    assert_eq!(warn, "\x1B[33m[WARN]\x1B[0m");
}

#[test]
fn quiet_tags_are_never_colored() {
    colored::control::set_override(true);
    let info = LogLevel::Info.display();
    let verb = LogLevel::Verb.display();
    colored::control::unset_override();
    assert_eq!(info, "[INFO]");
    assert_eq!(verb, "[VERB]");
}

#[test]
fn labels_are_bracketed_upper_case() {
    assert_eq!(LogLevel::Fatal.label(), "[FATAL]");
    assert_eq!(LogLevel::Error.label(), "[ERR]");
    assert_eq!(LogLevel::Warn.label(), "[WARN]");
    assert_eq!(LogLevel::Info.label(), "[INFO]");
    assert_eq!(LogLevel::Verb.label(), "[VERB]");
    assert_eq!(LogLevel::Huge.label(), "[HUGE]");
    assert_eq!(LogLevel::Dbg.label(), "[DBG]");
}

#[test]
fn timestamped_line_is_bracketed_clock_then_rest() {
    colored::control::set_override(false);
    let line = log_line(true, LogLevel::Info, "x");
    colored::control::unset_override();
    assert!(line.starts_with('['));
    assert!(line.ends_with("] [INFO] x"));
}
