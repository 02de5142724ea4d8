use win_service_logger::level::{
    Level, event_type_for, EVENTLOG_INFORMATION_TYPE, EVENTLOG_WARNING_TYPE, EVENTLOG_ERROR_TYPE,
};
use win_service_logger::record::Record;
use win_service_logger::render::format_record;
use win_service_logger::sink::{Logger, LogStep};
use win_service_logger::{Facade, init, init_with_name, try_init, try_init_with_name};

fn record(level: Level, file: Option<&str>, line: Option<u32>, message: &str) -> Record {
    Record::new(level, file.map(|f| f.to_string()), line, message.to_string())
}

#[test]
fn enabled_accepts_debug_and_above() {
    let logger = Logger::new("Rust Application");
    assert!(!logger.enabled(Level::Trace));
    assert!(logger.enabled(Level::Debug));
    assert!(logger.enabled(Level::Info));
    assert!(logger.enabled(Level::Warn));
    assert!(logger.enabled(Level::Error));
}

#[test]
fn default_install_sets_debug_threshold() {
    let mut facade = Facade::new();
    assert!(try_init(&mut facade).is_ok());
    let backend = facade.installed_backend().expect("a backend was installed");
    assert!(!backend.enabled(Level::Trace));
    assert!(backend.enabled(Level::Debug));
    assert!(backend.enabled(Level::Error));
}

#[test]
fn second_install_is_rejected() {
    let mut facade = Facade::new();
    assert!(try_init(&mut facade).is_ok());
    assert!(try_init(&mut facade).is_err());
    assert!(try_init_with_name(&mut facade, "Other").is_err());
    let backend = facade.installed_backend().expect("a backend was installed");
    assert_eq!(backend.source_name(), "Rust Application");
}

#[test]
fn named_install_keeps_its_name_on_conflict() {
    let mut facade = Facade::new();
    init_with_name(&mut facade, "My Service");
    assert!(try_init(&mut facade).is_err());
    let backend = facade.installed_backend().expect("a backend was installed");
    assert_eq!(backend.source_name(), "My Service");
}

#[test]
fn install_default_then_named_conflict() {
    let mut facade = Facade::new();
    init(&mut facade);
    assert!(try_init_with_name(&mut facade, "Other").is_err());
    let backend = facade.installed_backend().expect("a backend was installed");
    assert_eq!(backend.source_name(), "Rust Application");
}

#[test]
fn format_with_location() {
    let rec = record(Level::Warn, Some("app.rs"), Some(42), "disk low");
    assert_eq!(format_record(&rec), "app.rs(42): WARN - disk low");
}

#[test]
fn format_without_location() {
    let rec = record(Level::Error, None, None, "boom");
    assert_eq!(format_record(&rec), "<unknown>(0): ERROR - boom");
}

#[test]
fn format_every_level_name() {
    for (level, name) in [
        (Level::Trace, "TRACE"),
        (Level::Debug, "DEBUG"),
        (Level::Info, "INFO"),
        (Level::Warn, "WARN"),
        (Level::Error, "ERROR"),
    ] {
        let rec = record(level, Some("m.rs"), Some(1), "x");
        assert_eq!(format_record(&rec), format!("m.rs(1): {} - x", name));
    }
}

#[test]
fn format_decimal_lines() {
    for (line, text) in [(0u32, "0"), (7, "7"), (10, "10"), (1090, "1090"), (u32::MAX, "4294967295")]
    {
        let rec = record(Level::Info, Some("n.rs"), Some(line), "m");
        assert_eq!(format_record(&rec), format!("n.rs({}): INFO - m", text));
    }
}

#[test]
fn severity_mapping_is_total_and_fixed() {
    assert_eq!(event_type_for(Level::Trace), EVENTLOG_INFORMATION_TYPE);
    assert_eq!(event_type_for(Level::Debug), EVENTLOG_INFORMATION_TYPE);
    assert_eq!(event_type_for(Level::Info), EVENTLOG_INFORMATION_TYPE);
    assert_eq!(event_type_for(Level::Warn), EVENTLOG_WARNING_TYPE);
    assert_eq!(event_type_for(Level::Error), EVENTLOG_ERROR_TYPE);
    assert_eq!(EVENTLOG_INFORMATION_TYPE, 4);
    assert_eq!(EVENTLOG_WARNING_TYPE, 2);
    assert_eq!(EVENTLOG_ERROR_TYPE, 1);
}

#[test]
fn trace_record_is_skipped() {
    let logger = Logger::new("Rust Application");
    let rec = record(Level::Trace, Some("a.rs"), Some(1), "quiet");
    assert!(matches!(logger.log(&rec), LogStep::Skipped));
}

#[test]
fn first_accepted_record_asks_for_registration() {
    let logger = Logger::new("Rust Application");
    let rec = record(Level::Info, Some("a.rs"), Some(1), "hello");
    assert!(matches!(logger.log(&rec), LogStep::NeedsRegistration));
}

#[test]
fn registered_sink_reports_with_its_handle() {
    let mut logger = Logger::new("Rust Application");
    logger.complete_registration(0x1234);
    let rec = record(Level::Warn, Some("app.rs"), Some(42), "disk low");
    match logger.log(&rec) {
        LogStep::Report(ev) => {
            assert_eq!(ev.handle, 0x1234);
            assert_eq!(ev.event_type, EVENTLOG_WARNING_TYPE);
            assert_eq!(ev.category, 0);
            assert_eq!(ev.event_id, 0);
            let expected: Vec<u16> =
                "app.rs(42): WARN - disk low".encode_utf16().chain([0u16]).collect();
            assert_eq!(ev.message, expected);
        }
        _ => panic!("an accepted record on a registered sink must report"),
    }
}

#[test]
fn null_handle_from_failed_registration_is_still_used() {
    let mut logger = Logger::new("Rust Application");
    logger.complete_registration(0);
    let rec = record(Level::Error, None, None, "late");
    match logger.log(&rec) {
        LogStep::Report(ev) => {
            assert_eq!(ev.handle, 0);
            assert_eq!(ev.event_type, EVENTLOG_ERROR_TYPE);
            let expected: Vec<u16> =
                "<unknown>(0): ERROR - late".encode_utf16().chain([0u16]).collect();
            assert_eq!(ev.message, expected);
        }
        _ => panic!("an accepted record on a registered sink must report"),
    }
}

#[test]
fn wide_message_handles_non_ascii_text() {
    let mut logger = Logger::new("Rust Application");
    logger.complete_registration(9);
    let rec = record(Level::Info, Some("unicode.rs"), Some(3), "snowman \u{2603} and \u{1F600}");
    match logger.log(&rec) {
        LogStep::Report(ev) => {
            let expected: Vec<u16> = "unicode.rs(3): INFO - snowman \u{2603} and \u{1F600}"
                .encode_utf16()
                .chain([0u16])
                .collect();
            assert_eq!(ev.message, expected);
        }
        _ => panic!("an accepted record on a registered sink must report"),
    }
}

#[test]
fn uninitialized_sink_releases_nothing() {
    let mut logger = Logger::new("Rust Application");
    assert_eq!(logger.release_handle(), None);
}

#[test]
fn initialized_sink_releases_exactly_once() {
    let mut logger = Logger::new("Rust Application");
    logger.complete_registration(0x77);
    assert_eq!(logger.release_handle(), Some(0x77));
    assert_eq!(logger.release_handle(), None);
    assert_eq!(logger.release_handle(), None);
}

#[test]
fn flush_changes_nothing() {
    let mut logger = Logger::new("Rust Application");
    logger.flush();
    assert!(logger.needs_registration());
    logger.complete_registration(5);
    logger.flush();
    logger.flush();
    assert!(!logger.needs_registration());
    let rec = record(Level::Debug, Some("f.rs"), Some(8), "still here");
    match logger.log(&rec) {
        LogStep::Report(ev) => assert_eq!(ev.handle, 5),
        _ => panic!("flush must not disturb the sink"),
    }
}

#[test]
fn registration_happens_once_per_sink() {
    let mut logger = Logger::new("Rust Application");
    assert!(logger.needs_registration());
    logger.complete_registration(11);
    assert!(!logger.needs_registration());
    let rec = record(Level::Info, Some("a.rs"), Some(2), "first");
    match logger.log(&rec) {
        LogStep::Report(ev) => assert_eq!(ev.handle, 11),
        _ => panic!("registered sink must not ask to register again"),
    }
    match logger.log(&rec) {
        LogStep::Report(ev) => assert_eq!(ev.handle, 11),
        _ => panic!("registered sink must not ask to register again"),
    }
}
