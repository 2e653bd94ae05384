use better_auth_rs_core::env::logger::{
    create_logger, create_logger_for, format_message, format_message_at, should_publish_log, LogAction,
    LogLevel,
    Logger,
};

#[test]
fn should_publish_respects_levels() {
    // threshold Warn: warn/error publish; debug/info/success do not.
    assert!(should_publish_log(LogLevel::Warn, LogLevel::Warn));
    assert!(should_publish_log(LogLevel::Warn, LogLevel::Error));
    assert!(!should_publish_log(LogLevel::Warn, LogLevel::Info));
    assert!(!should_publish_log(LogLevel::Warn, LogLevel::Debug));
    assert!(!should_publish_log(LogLevel::Warn, LogLevel::Success));
    // success sits between info and warn.
    assert!(should_publish_log(LogLevel::Info, LogLevel::Success));
}

#[test]
fn handler_receives_published_messages_and_maps_success_to_info() {
    let log = create_logger(Some(Logger {
        level: Some(LogLevel::Debug),
        has_handler: true,
        ..Default::default()
    }));
    let calls = vec![log.warn("w"), log.success("s"), log.debug("d")];
    assert_eq!(
        calls,
        vec![
            LogAction::Handler(LogLevel::Warn, "w".to_owned()),
            LogAction::Handler(LogLevel::Info, "s".to_owned()),
            LogAction::Handler(LogLevel::Debug, "d".to_owned()),
        ]
    );
}

#[test]
fn below_threshold_is_not_published() {
    let log = create_logger(Some(Logger {
        level: Some(LogLevel::Warn),
        has_handler: true,
        ..Default::default()
    }));
    assert_eq!(log.info("ignored"), LogAction::Skip);
    assert_eq!(log.error("kept"), LogAction::Handler(LogLevel::Error, "kept".to_owned()));
}

#[test]
fn disabled_logger_emits_nothing() {
    let log = create_logger(Some(Logger {
        disabled: Some(true),
        level: Some(LogLevel::Debug),
        has_handler: true,
        ..Default::default()
    }));
    assert_eq!(log.error("nope"), LogAction::Skip);
}

#[test]
fn level_getter_defaults_to_warn() {
    assert_eq!(create_logger(None).level(), LogLevel::Warn);
    assert_eq!(
        create_logger(Some(Logger {
            level: Some(LogLevel::Error),
            ..Default::default()
        }))
        .level(),
        LogLevel::Error
    );
}

#[test]
fn console_lines_go_to_stderr_for_warnings_and_stdout_otherwise() {
    let log = create_logger_for(
        Some(Logger { level: Some(LogLevel::Debug), disable_colors: Some(true), ..Default::default() }),
        true,
    );
    assert_eq!(
        log.emit_at(LogLevel::Warn, "careful", "2024-01-02T03:04:05Z"),
        LogAction::Stderr("2024-01-02T03:04:05Z WARN [Better Auth]: careful".to_owned())
    );
    assert_eq!(
        log.emit_at(LogLevel::Success, "done", "T"),
        LogAction::Stdout("T SUCCESS [Better Auth]: done".to_owned())
    );
    match log.info("hello") {
        LogAction::Stdout(line) => assert!(line.ends_with(" INFO [Better Auth]: hello")),
        other => panic!("unexpected {other:?}"),
    }
}

#[test]
fn colored_line_layout() {
    assert_eq!(
        format_message_at(LogLevel::Error, "boom", true, "T"),
        "\x1b[2mT\x1b[0m \x1b[31mERROR\x1b[0m \x1b[1m[Better Auth]:\x1b[0m boom"
    );
    assert_eq!(format_message_at(LogLevel::Debug, "x", false, "T"), "T DEBUG [Better Auth]: x");
}

#[test]
fn colors_follow_configuration_then_terminal() {
    assert!(create_logger_for(None, true).colors());
    assert!(!create_logger_for(None, false).colors());
    assert!(!create_logger_for(Some(Logger { disable_colors: Some(true), ..Default::default() }), true).colors());
    assert!(create_logger_for(Some(Logger { disable_colors: Some(false), ..Default::default() }), false).colors());
}

#[test]
fn level_index_label_and_color() {
    assert_eq!(LogLevel::Debug.index(), 0);
    assert_eq!(LogLevel::Error.index(), 4);
    assert_eq!(LogLevel::Success.label(), "SUCCESS");
    assert_eq!(LogLevel::Info.color(), "\x1b[34m");
}

#[test]
fn messages_at_the_threshold_level_are_published() {
    for level in [LogLevel::Debug, LogLevel::Info, LogLevel::Success, LogLevel::Warn, LogLevel::Error] {
        assert!(should_publish_log(level, level));
        let log = create_logger(Some(Logger { level: Some(level), has_handler: true, ..Default::default() }));
        assert_ne!(log.emit_at(level, "m", "t"), LogAction::Skip);
    }
}

#[test]
fn lines_are_stamped_in_rfc3339_utc() {
    let line = format_message(LogLevel::Info, "hello", false);
    let (ts, rest) = line.split_once(' ').unwrap();
    assert_eq!(rest, "INFO [Better Auth]: hello");
    let b = ts.as_bytes();
    assert!(b.len() == 20 || (22..=30).contains(&b.len()));
    assert_eq!((b[4], b[7], b[10], b[13], b[16]), (b'-', b'-', b'T', b':', b':'));
    assert_eq!(*b.last().unwrap(), b'Z');
    for (i, c) in b.iter().enumerate() {
        if ![4, 7, 10, 13, 16, 19].contains(&i) && i + 1 < b.len() {
            assert!(c.is_ascii_digit(), "{ts}");
        }
    }
}
