use easyinit::cmdline::Cmdline;
use easyinit::cmdline::CrashFile;
use easyinit::cmdline::IsSet;
use easyinit::crash_path::Date;
use easyinit::levels::LogFilter;
use easyinit::levels::LogLevel;
use easyinit::levels::Priority;

#[test]
fn empty_command_line_gives_the_defaults() {
    let c = Cmdline::new(false, None, None, None);
    assert_eq!(c.loglevel, LogFilter::Warn);
    assert!(matches!(c.crash_file, CrashFile::UnderPrefix(ref p) if p == "/var/log/"));
    let d = Cmdline::default();
    assert_eq!(d.loglevel, LogFilter::Warn);
    assert!(matches!(d.crash_file, CrashFile::UnderPrefix(ref p) if p == "/var/log/"));
}

#[test]
fn quiet_silences_the_log() {
    let c = Cmdline::new(true, None, None, None);
    assert_eq!(c.loglevel, LogFilter::Off);
}

#[test]
fn explicit_loglevel_takes_priority_over_quiet() {
    let c = Cmdline::new(true, Some(LogFilter::Debug), None, None);
    assert_eq!(c.loglevel, LogFilter::Debug);
}

#[test]
fn explicit_crash_path_wins_and_is_used_verbatim() {
    let c = Cmdline::new(
        false,
        None,
        Some("/crash/here.crash".to_string()),
        Some("/elsewhere/".to_string()),
    );
    assert!(matches!(c.crash_file, CrashFile::Explicit(ref p) if p == "/crash/here.crash"));
    let existing = vec!["/crash/here.crash".to_string()];
    let d = Date::new(2024, 1, 1);
    // The explicit path is taken as it stands, even over an existing file.
    assert_eq!(c.crash_report_path(&existing, &d), "/crash/here.crash");
}

#[test]
fn crash_report_goes_under_the_prefix() {
    let c = Cmdline::new(false, None, None, None);
    let d = Date::new(2024, 1, 1);
    assert_eq!(
        c.crash_report_path(&Vec::new(), &d),
        "/var/log/easyinit-2024-01-01-0.crash"
    );
    let existing = vec![
        "easyinit-2024-01-01-0.crash".to_string(),
        "easyinit-2024-01-01-1.crash".to_string(),
    ];
    assert_eq!(
        c.crash_report_path(&existing, &d),
        "/var/log/easyinit-2024-01-01-2.crash"
    );
}

#[test]
fn custom_crash_prefix_is_respected() {
    let c = Cmdline::new(false, None, None, Some("/data/crashes/".to_string()));
    let d = Date::new(2024, 2, 29);
    assert_eq!(
        c.crash_report_path(&Vec::new(), &d),
        "/data/crashes/easyinit-2024-02-29-0.crash"
    );
}

#[test]
fn syslog_priority_of_each_level() {
    assert_eq!(Priority::from(LogLevel::Error), Priority::Error);
    assert_eq!(Priority::from(LogLevel::Warn), Priority::Warning);
    assert_eq!(Priority::from(LogLevel::Info), Priority::Informational);
    assert_eq!(Priority::from(LogLevel::Debug), Priority::Debug);
    // Trace is more verbose than debug, but debug is the lowest priority.
    assert_eq!(Priority::from(LogLevel::Trace), Priority::Debug);
}

#[test]
fn syslog_priority_codes() {
    assert_eq!(Priority::Emergency.code(), 0);
    assert_eq!(Priority::Alert.code(), 1);
    assert_eq!(Priority::Critical.code(), 2);
    assert_eq!(Priority::Error.code(), 3);
    assert_eq!(Priority::Warning.code(), 4);
    assert_eq!(Priority::Notice.code(), 5);
    assert_eq!(Priority::Informational.code(), 6);
    assert_eq!(Priority::Debug.code(), 7);
}

#[test]
fn is_set_distinguishes_how_a_value_arrived() {
    assert_ne!(IsSet::Implicit(0), IsSet::Explicit(0));
    assert_eq!(IsSet::Explicit(3), IsSet::Explicit(3));
    assert_ne!(IsSet::<u8>::Lazily, IsSet::Implicit(0));
}
