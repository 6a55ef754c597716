use aklogger::format::{event_text, format_line, format_template};
use aklogger::logger::Logger;
use aklogger::severity::{label, passes, severity_from_name, Severity};

const SEVERITIES: [Severity; 5] = [
    Severity::Trace,
    Severity::Debug,
    Severity::Info,
    Severity::Warn,
    Severity::Error,
];

#[test]
fn passes_matrix() {
    for (t, threshold) in SEVERITIES.iter().enumerate() {
        for (s, severity) in SEVERITIES.iter().enumerate() {
            assert_eq!(passes(*threshold, *severity), s >= t);
        }
    }
}

#[test]
fn labels() {
    assert_eq!(label(Severity::Trace), "TRACE");
    assert_eq!(label(Severity::Debug), "DEBUG");
    assert_eq!(label(Severity::Info), "INFO");
    assert_eq!(label(Severity::Warn), "WARN");
    assert_eq!(label(Severity::Error), "ERROR");
}

#[test]
fn severity_names_lower() {
    assert_eq!(severity_from_name("trace"), Severity::Trace);
    assert_eq!(severity_from_name("debug"), Severity::Debug);
    assert_eq!(severity_from_name("info"), Severity::Info);
    assert_eq!(severity_from_name("warn"), Severity::Warn);
    assert_eq!(severity_from_name("error"), Severity::Error);
}

#[test]
fn severity_names_mixed_case() {
    assert_eq!(severity_from_name("TRACE"), Severity::Trace);
    assert_eq!(severity_from_name("Debug"), Severity::Debug);
    assert_eq!(severity_from_name("iNfO"), Severity::Info);
    assert_eq!(severity_from_name("WaRn"), Severity::Warn);
    assert_eq!(severity_from_name("ERROR"), Severity::Error);
}

#[test]
fn unrecognized_names_fail_open_to_error() {
    assert_eq!(severity_from_name(""), Severity::Error);
    assert_eq!(severity_from_name("inf"), Severity::Error);
    assert_eq!(severity_from_name("warning"), Severity::Error);
    assert_eq!(severity_from_name("critical"), Severity::Error);
    assert_eq!(severity_from_name(" info"), Severity::Error);
}

#[test]
fn line_format() {
    assert_eq!(
        format_line("aklogger", Severity::Info, "x"),
        "[aklogger] INFO - x"
    );
    assert_eq!(
        format_line("svc", Severity::Error, "boom"),
        "[svc] ERROR - boom"
    );
}

#[test]
fn template_exact() {
    assert_eq!(
        format_template("S", "D"),
        "\n=====================\nS\n---------------------\nD\n=====================\n"
    );
}

#[test]
fn event_text_with_and_without_details() {
    assert_eq!(event_text("s", None), "s");
    assert_eq!(
        event_text("S", Some("D")),
        "\n=====================\nS\n---------------------\nD\n=====================\n"
    );
}

#[test]
fn defaults() {
    let l = Logger::new();
    assert_eq!(l.name, "aklogger");
    assert_eq!(l.level, Severity::Info);
    assert_eq!(l.notify_level, Severity::Info);
    assert!(l.log_file.is_none());
    assert!(l.notify_token.is_none());
}

#[test]
fn name_based_setters() {
    let mut l = Logger::new();
    l.set_level_name("Debug");
    assert_eq!(l.level, Severity::Debug);
    l.set_notify_level_name("WARN");
    assert_eq!(l.notify_level, Severity::Warn);
    l.set_level_name("nonsense");
    assert_eq!(l.level, Severity::Error);
}

#[test]
fn below_threshold_is_silent() {
    let l = Logger::new();
    let d = l.emit(Severity::Debug, "x", None, None, None);
    assert!(d.console.is_none());
    assert!(d.file.is_none());
    assert!(d.notification.is_none());
}

#[test]
fn passing_event_reaches_console_only_by_default() {
    let l = Logger::new();
    let d = l.emit(Severity::Info, "x", None, None, None);
    assert_eq!(d.console.as_deref(), Some("[aklogger] INFO - x"));
    assert!(d.file.is_none());
    assert!(d.notification.is_none());
}

#[test]
fn file_sink_carries_path_and_line() {
    let mut l = Logger::new();
    l.set_log_file(Some("/tmp/t.log".to_string()));
    let d = l.emit(Severity::Error, "boom", None, None, None);
    assert_eq!(d.console.as_deref(), Some("[aklogger] ERROR - boom"));
    let f = d.file.expect("file sink should fire");
    assert_eq!(f.path, "/tmp/t.log");
    assert_eq!(f.line, "[aklogger] ERROR - boom");
    assert!(d.notification.is_none());
}

#[test]
fn clearing_the_file_disables_the_file_sink() {
    let mut l = Logger::new();
    l.set_log_file(Some("/tmp/t.log".to_string()));
    l.set_log_file(None);
    let d = l.emit(Severity::Error, "boom", None, None, None);
    assert!(d.console.is_some());
    assert!(d.file.is_none());
}

#[test]
fn notification_force_overrides_notify_level() {
    let mut l = Logger::new();
    l.enable_notifications("tok".to_string());
    l.set_notify_level(Severity::Error);
    let quiet = l.emit(Severity::Warn, "x", None, None, Some(false));
    assert!(quiet.notification.is_none());
    assert!(quiet.console.is_some());
    let forced = l.emit(Severity::Warn, "x", None, None, Some(true));
    let n = forced.notification.expect("forced notification should fire");
    assert_eq!(n.token, "tok");
    assert_eq!(n.destination, "#error");
    assert_eq!(n.payload, "[aklogger] WARN - x");
}

#[test]
fn notification_fires_on_severity_without_force() {
    let mut l = Logger::new();
    l.enable_notifications("tok".to_string());
    l.set_notify_level(Severity::Warn);
    let d = l.emit(Severity::Error, "x", None, None, None);
    let n = d.notification.expect("notification should fire on severity");
    assert_eq!(n.payload, "[aklogger] ERROR - x");
}

#[test]
fn no_credential_means_no_notification() {
    let mut l = Logger::new();
    l.set_notify_level(Severity::Trace);
    let d = l.emit(Severity::Error, "x", None, None, Some(true));
    assert!(d.console.is_some());
    assert!(d.notification.is_none());
}

#[test]
fn force_does_not_override_the_global_level() {
    let mut l = Logger::new();
    l.enable_notifications("tok".to_string());
    l.set_level(Severity::Error);
    let d = l.emit(Severity::Warn, "x", None, None, Some(true));
    assert!(d.console.is_none());
    assert!(d.file.is_none());
    assert!(d.notification.is_none());
}

#[test]
fn stricter_level_silences_previously_passing_events() {
    let mut l = Logger::new();
    l.set_log_file(Some("/tmp/t.log".to_string()));
    l.enable_notifications("tok".to_string());
    let before = l.emit(Severity::Info, "x", None, None, Some(true));
    assert!(before.console.is_some());
    assert!(before.file.is_some());
    assert!(before.notification.is_some());
    l.set_level(Severity::Warn);
    let after = l.emit(Severity::Info, "x", None, None, Some(true));
    assert!(after.console.is_none());
    assert!(after.file.is_none());
    assert!(after.notification.is_none());
}

#[test]
fn destination_tag_is_kept_or_falls_back() {
    let mut l = Logger::new();
    l.enable_notifications("tok".to_string());
    let tagged = l.emit(Severity::Error, "x", None, Some("#ops"), None);
    assert_eq!(tagged.notification.expect("should fire").destination, "#ops");
    let untagged = l.emit(Severity::Error, "x", None, None, None);
    assert_eq!(untagged.notification.expect("should fire").destination, "#error");
}

#[test]
fn renamed_logger_prefixes_its_tag() {
    let mut l = Logger::new();
    l.set_name("svc".to_string());
    let d = l.emit(Severity::Warn, "w", None, None, None);
    assert_eq!(d.console.as_deref(), Some("[svc] WARN - w"));
}

#[test]
fn details_travel_through_emit_as_template() {
    let l = Logger::new();
    let d = l.emit(Severity::Info, "S", Some("D"), None, None);
    assert_eq!(
        d.console.as_deref(),
        Some(
            "[aklogger] INFO - \n=====================\nS\n---------------------\nD\n=====================\n"
        )
    );
}

#[test]
fn convenience_methods_fix_the_severity() {
    let mut l = Logger::new();
    l.set_level(Severity::Trace);
    assert_eq!(
        l.trace("t", None, None, None).console.as_deref(),
        Some("[aklogger] TRACE - t")
    );
    assert_eq!(
        l.debug("d", None, None, None).console.as_deref(),
        Some("[aklogger] DEBUG - d")
    );
    assert_eq!(
        l.info("i", None, None, None).console.as_deref(),
        Some("[aklogger] INFO - i")
    );
    assert_eq!(
        l.warn("w", None, None, None).console.as_deref(),
        Some("[aklogger] WARN - w")
    );
    assert_eq!(
        l.error("e", None, None, None).console.as_deref(),
        Some("[aklogger] ERROR - e")
    );
}
