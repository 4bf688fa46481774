//! Journal process boundary: lock intake and exit behavior.
//!
//! Only the lock-and-intake behavior is part of the core: the journal claims
//! its role by creating `/run/easyinit-journal.lock` with create-if-absent
//! semantics, and its exit code tells a supervising process apart "someone
//! else already owns the role" from "something broke". The file operation
//! itself happens in the unverified shell; the shell reports what it
//! observed and this module decides.

use vstd::prelude::*;

verus! {

/// The journal daemon's state. The only fact the core tracks is whether
/// this instance owns the lock file, which decides the exit cleanup.
pub struct Journal {
    /// Whether this instance created (and therefore owns) the lock file.
    pub owns_lock: bool,
}

/// One record accepted by the journal. Storage format is out of scope; the
/// core carries entries as opaque text.
pub struct Entry {
    pub text: String,
}

/// Exit code when another journal instance already holds the lock.
pub const EXIT_ALREADY_LOCKED: u8 = 2;

/// Exit code for a generic I/O or developer error.
pub const EXIT_GENERIC_ERROR: u8 = 101;

/// Error for setting up the journal.
#[derive(Clone, Copy, PartialEq, Eq, Structural, Debug)]
pub enum SetupError {
    /// The journal lock file is already held by another process.
    AlreadyLocked,
    /// A generic I/O error, identified by its operating-system error code.
    Io(i32),
}

impl SetupError {
    /// The process exit code reported for this error: `2` for a held lock,
    /// `101` for anything else, so a supervisor can tell the two apart.
    pub fn report(&self) -> (code: u8)
        ensures
            *self == SetupError::AlreadyLocked ==> code == EXIT_ALREADY_LOCKED,
            (self matches SetupError::Io(_)) ==> code == EXIT_GENERIC_ERROR,
    {
        match self {
            SetupError::AlreadyLocked => EXIT_ALREADY_LOCKED,
            SetupError::Io(_) => EXIT_GENERIC_ERROR,
        }
    }
}

/// What the shell observed when it tried to create the lock file with
/// create-if-absent semantics.
#[derive(Clone, Copy, PartialEq, Eq, Structural, Debug)]
pub enum LockAttempt {
    /// The file did not exist and was created: the lock is now ours.
    Created,
    /// The file already existed: another instance owns the role.
    AlreadyExists,
    /// The creation failed with some other operating-system error code.
    Failed(i32),
}

/// Decides the outcome of the lock intake. A pre-existing lock file is the
/// `AlreadyLocked` error — not an I/O failure — and only a `Created`
/// observation lets the instance run.
pub fn add_lock(observed: LockAttempt) -> (r: Result<(), SetupError>)
    ensures
        (observed == LockAttempt::Created) <==> r is Ok,
        observed == LockAttempt::AlreadyExists <==> r == Result::<(), SetupError>::Err(
            SetupError::AlreadyLocked,
        ),
        forall|code: i32|
            observed == LockAttempt::Failed(code) <==> r == Result::<(), SetupError>::Err(
                SetupError::Io(code),
            ),
{
    match observed {
        LockAttempt::Created => Ok(()),
        LockAttempt::AlreadyExists => Err(SetupError::AlreadyLocked),
        LockAttempt::Failed(code) => Err(SetupError::Io(code)),
    }
}

impl Journal {
    /// Starts the journal from what the lock intake observed: the instance
    /// runs (owning the lock) exactly when it created the lock file itself.
    pub fn start(observed: LockAttempt) -> (r: Result<Journal, SetupError>)
        ensures
            (observed == LockAttempt::Created) <==> (r matches Ok(j) && j.owns_lock),
            (observed != LockAttempt::Created) <==> r is Err,
            observed == LockAttempt::AlreadyExists ==> r == Result::<Journal, SetupError>::Err(
                SetupError::AlreadyLocked,
            ),
    {
        match add_lock(observed) {
            Ok(()) => Ok(Journal { owns_lock: true }),
            Err(e) => Err(e),
        }
    }

    /// Whether exit cleanup may remove the lock file. An instance that never
    /// created the lock must leave the existing file in place, so a losing
    /// second instance makes no state change at all.
    pub fn exit_cleanup(&self) -> (remove_lock_file: bool)
        ensures
            remove_lock_file == self.owns_lock,
    {
        self.owns_lock
    }
}

} // verus!
