use charted::logging::{colors_disabled, devtools_level, devtools_log_settings, is_truthy, level_or_info, plain_log_line, LogLevel};

#[test]
fn truthy_values() {
    for s in ["true", "1", "s", "si", "siii", "y", "yes", "yis", "yus"] {
        assert!(is_truthy(s), "{s}");
    }
    for s in ["", "false", "0", "True", "yes!", "sx", "yess", "no", " true"] {
        assert!(!is_truthy(s), "{s}");
    }
}

#[test]
fn colours_follow_the_variable() {
    assert!(colors_disabled(Some("yes")));
    assert!(!colors_disabled(Some("no")));
    assert!(!colors_disabled(None));
}

#[test]
fn log_levels() {
    assert_eq!(level_or_info(None), LogLevel::Info);
    assert_eq!(level_or_info(Some(LogLevel::Trace)), LogLevel::Trace);
    assert_eq!(devtools_level(true, LogLevel::Error), LogLevel::Debug);
    assert_eq!(devtools_level(false, LogLevel::Error), LogLevel::Error);
    assert_eq!(LogLevel::Warn.name(), "WARN");
    assert!(LogLevel::Trace.verbosity() > LogLevel::Debug.verbosity());
}

#[test]
fn devtools_logger_settings() {
    let s = devtools_log_settings(false, Some(LogLevel::Trace));
    assert!(s.verbose);
    assert_eq!(s.filter, LogLevel::Trace);
    let s = devtools_log_settings(false, None);
    assert!(!s.verbose);
    assert_eq!(s.filter, LogLevel::Info);
    let s = devtools_log_settings(true, Some(LogLevel::Error));
    assert!(s.verbose);
    assert_eq!(s.filter, LogLevel::Debug);
}

#[test]
fn plain_lines_pad_the_level() {
    assert_eq!(plain_log_line(LogLevel::Info, "hi"), "[INFO ] hi");
    assert_eq!(plain_log_line(LogLevel::Error, "x"), "[ERROR] x");
    assert_eq!(plain_log_line(LogLevel::Warn, "x"), format!("[{:<5}] {}", "WARN", "x"));
}
