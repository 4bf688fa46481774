//! Verified lifecycle core of the easyinit init process.
//!
//! The modules here hold the decision logic of PID 1 — the single-shot
//! shutdown state machine, the required-filesystem mount sequencer, the
//! crash-report path allocator, the panic reentrancy guard, and the journal
//! lock intake — each stated as a contract and proved. All actual system
//! calls (mounting, signal dispositions, SysRq writes, file probing) are
//! performed by the surrounding unverified shell, which feeds observations
//! in and carries decisions out as plain values.

pub mod cmdline;
pub mod crash_path;
pub mod decimal;
pub mod journal;
pub mod levels;
pub mod mounts;
pub mod panic_guard;
pub mod shutdown;
pub mod signals;
