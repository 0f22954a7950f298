use diagnostics::log;
use diagnostics::slot::logger;
use diagnostics::{init, LogFormat, LoggerSlot, Stream};

#[test]
fn second_init_has_no_effect() {
    let mut slot = LoggerSlot::empty();
    init(&mut slot, LogFormat::GitHub);
    init(&mut slot, LogFormat::Human);
    assert!(!log::is_human(&mut slot));
    let record = log::warn(&mut slot, "disk full", true);
    assert_eq!(record.stream, Stream::Stdout);
    assert_eq!(record.line, "::warning::disk full");
}

#[test]
fn second_init_has_no_effect_on_human() {
    let mut slot = LoggerSlot::empty();
    init(&mut slot, LogFormat::Human);
    init(&mut slot, LogFormat::GitHub);
    assert!(log::is_human(&mut slot));
    assert_eq!(log::error(&mut slot, "bad input", false).line, "error: bad input");
}

#[test]
fn first_use_installs_the_default() {
    let mut slot = LoggerSlot::empty();
    assert!(log::is_human(&mut slot));
    init(&mut slot, LogFormat::GitHub);
    assert!(log::is_human(&mut slot));
    assert!(logger(&mut slot).is_human());
}

#[test]
fn logger_is_the_installed_one() {
    let mut slot = LoggerSlot::empty();
    init(&mut slot, LogFormat::GitHub);
    assert!(!logger(&mut slot).is_human());
    assert_eq!(logger(&mut slot).info("hello").stream, Stream::Stdout);
}

#[test]
fn slot_functions_follow_the_logger() {
    let mut slot = LoggerSlot::empty();
    init(&mut slot, LogFormat::GitHub);
    let context = vec!["build".to_string(), "link".to_string()];
    assert_eq!(log::info(&mut slot, "hello").line, "hello");
    assert_eq!(log::info(&mut slot, "hello").stream, Stream::Stdout);
    assert_eq!(log::warn(&mut slot, "w", false).line, "::warning::w");
    assert_eq!(log::error(&mut slot, "e", false).line, "::error::e");
    assert_eq!(
        log::error_with_context(&mut slot, &context, "undefined symbol", false).line,
        "::error::build > link: undefined symbol"
    );
}

#[test]
fn default_slot_logs_for_humans() {
    let mut slot = LoggerSlot::empty();
    let record = log::info(&mut slot, "hello");
    assert_eq!(record.stream, Stream::Stderr);
    assert_eq!(record.line, "hello");
    let context = vec!["build".to_string()];
    assert_eq!(
        log::error_with_context(&mut slot, &context, "oops", false).line,
        "error: [build] oops"
    );
    assert_eq!(
        log::warn(&mut slot, "careful", true).line,
        "\x1b[33m\x1b[1mwarning:\x1b[0m careful"
    );
}
