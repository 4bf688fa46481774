use easyinit::journal::EXIT_ALREADY_LOCKED;
use easyinit::journal::EXIT_GENERIC_ERROR;
use easyinit::journal::Journal;
use easyinit::journal::LockAttempt;
use easyinit::journal::SetupError;
use easyinit::journal::add_lock;

#[test]
fn lock_created_lets_the_journal_run() {
    assert_eq!(add_lock(LockAttempt::Created), Ok(()));
    let j = Journal::start(LockAttempt::Created).expect("fresh lock must start the journal");
    assert!(j.owns_lock);
    assert!(j.exit_cleanup());
}

#[test]
fn preexisting_lock_exits_with_code_two_and_keeps_the_file() {
    // The lock file pre-exists: the second instance reports the held lock...
    assert_eq!(add_lock(LockAttempt::AlreadyExists), Err(SetupError::AlreadyLocked));
    assert_eq!(SetupError::AlreadyLocked.report(), 2);
    assert_eq!(EXIT_ALREADY_LOCKED, 2);
    // ...never starts, and owns no lock, so cleanup removes nothing.
    assert!(Journal::start(LockAttempt::AlreadyExists).is_err());
    let not_owner = Journal { owns_lock: false };
    assert!(!not_owner.exit_cleanup());
}

#[test]
fn other_io_errors_exit_with_the_generic_code() {
    assert_eq!(add_lock(LockAttempt::Failed(5)), Err(SetupError::Io(5)));
    assert_eq!(SetupError::Io(5).report(), 101);
    assert_eq!(EXIT_GENERIC_ERROR, 101);
    assert!(Journal::start(LockAttempt::Failed(5)).is_err());
}
