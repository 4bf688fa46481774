use easyinit::panic_guard::FaultAction;
use easyinit::panic_guard::PanicGuard;
use easyinit::panic_guard::frame_line;
use easyinit::panic_guard::location_line;

#[test]
fn second_fault_in_the_hook_takes_the_minimal_path() {
    let mut guard = PanicGuard::new();
    // First fault on the thread: full reporting path.
    assert_eq!(guard.on_fault(), FaultAction::FullReport);
    // A fault raised from inside the hook: minimal abort, no second report.
    assert_eq!(guard.on_fault(), FaultAction::MinimalAbort);
    // And so for every further fault; the guard never resets.
    assert_eq!(guard.on_fault(), FaultAction::MinimalAbort);
}

#[test]
fn each_thread_has_its_own_guard() {
    let mut first = PanicGuard::new();
    let mut second = PanicGuard::new();
    assert_eq!(first.on_fault(), FaultAction::FullReport);
    // A fault on another thread is not masked by the first thread's state.
    assert_eq!(second.on_fault(), FaultAction::FullReport);
}

#[test]
fn location_line_format() {
    assert_eq!(
        location_line("src/main.rs", 7),
        "Panic occurred at src/main.rs on line 7\n"
    );
}

#[test]
fn resolved_frame_line_format() {
    assert_eq!(
        frame_line(Some("easyinit::boot"), Some("src/startup.rs"), Some(12)),
        "easyinit::boot in src/startup.rs at line 12\n"
    );
}

#[test]
fn unresolvable_frame_parts_get_explicit_markers() {
    assert_eq!(
        frame_line(None, None, None),
        "<unknown symbol> in <unknown file>\n"
    );
    assert_eq!(
        frame_line(Some("easyinit::boot"), Some("src/startup.rs"), None),
        "easyinit::boot in src/startup.rs at <unknown line>\n"
    );
    assert_eq!(
        frame_line(None, Some("src/startup.rs"), Some(3)),
        "<unknown symbol> in src/startup.rs at line 3\n"
    );
}
