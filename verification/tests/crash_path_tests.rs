use easyinit::crash_path::Date;
use easyinit::crash_path::ProbeErrorVerdict;
use easyinit::crash_path::classify_probe_error;
use easyinit::crash_path::crash_file_name;
use easyinit::crash_path::gen_filename;
use easyinit::decimal::decimal_string;

#[test]
fn decimal_renderings() {
    assert_eq!(decimal_string(0), "0");
    assert_eq!(decimal_string(7), "7");
    assert_eq!(decimal_string(10), "10");
    assert_eq!(decimal_string(42), "42");
    assert_eq!(decimal_string(1234567890), "1234567890");
    assert_eq!(decimal_string(u64::MAX), "18446744073709551615");
}

#[test]
fn crash_name_format() {
    let d = Date::new(2024, 1, 1);
    assert_eq!(crash_file_name(&d, 0), "easyinit-2024-01-01-0.crash");
    assert_eq!(crash_file_name(&d, 17), "easyinit-2024-01-01-17.crash");
}

#[test]
fn crash_name_zero_pads_the_stamp() {
    let d = Date::new(987, 9, 3);
    assert_eq!(crash_file_name(&d, 5), "easyinit-0987-09-03-5.crash");
}

#[test]
fn allocate_skips_existing_reports() {
    let existing: Vec<String> = (0..5)
        .map(|k| format!("easyinit-2024-01-01-{}.crash", k))
        .collect();
    let d = Date::new(2024, 1, 1);
    assert_eq!(gen_filename(&existing, &d), "easyinit-2024-01-01-5.crash");
}

#[test]
fn allocate_in_empty_directory_starts_at_zero() {
    let existing: Vec<String> = Vec::new();
    let d = Date::new(2024, 1, 1);
    assert_eq!(gen_filename(&existing, &d), "easyinit-2024-01-01-0.crash");
}

#[test]
fn allocate_takes_the_first_gap() {
    let existing = vec![
        "easyinit-2024-01-01-0.crash".to_string(),
        "easyinit-2024-01-01-2.crash".to_string(),
    ];
    let d = Date::new(2024, 1, 1);
    assert_eq!(gen_filename(&existing, &d), "easyinit-2024-01-01-1.crash");
}

#[test]
fn allocate_ignores_names_of_other_dates() {
    let existing = vec![
        "easyinit-2023-12-31-0.crash".to_string(),
        "unrelated.txt".to_string(),
    ];
    let d = Date::new(2024, 1, 1);
    assert_eq!(gen_filename(&existing, &d), "easyinit-2024-01-01-0.crash");
}

#[test]
fn probe_permission_denied_is_an_internal_inconsistency() {
    assert_eq!(
        classify_probe_error(true),
        ProbeErrorVerdict::InternalInconsistencyAbort
    );
    assert_eq!(classify_probe_error(false), ProbeErrorVerdict::ReportIo);
}
