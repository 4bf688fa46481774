//! Signal intake policy.
//!
//! The policy is a declared table from signal number to disposition:
//! termination-class signals translate into shutdown reasons, the two
//! user-defined signals are ignored (reserved for future repurposing), and
//! everything else keeps its default disposition. Hardware-fault signals
//! (bus error, illegal instruction, floating-point exception, segmentation
//! violation) are never ignored and never blocked: per POSIX signal
//! semantics, blocking or ignoring them yields undefined process behavior,
//! so their exclusion is a hard constraint, proved below. Installing the
//! dispositions is a syscall and happens in the unverified shell.

use crate::shutdown::ShutdownReason;
use vstd::prelude::*;

verus! {

/// Linux signal number of SIGINT (keyboard interrupt).
pub const SIGINT_NO: i32 = 2;

/// Linux signal number of SIGILL (illegal instruction).
pub const SIGILL_NO: i32 = 4;

/// Linux signal number of SIGBUS (bus error).
pub const SIGBUS_NO: i32 = 7;

/// Linux signal number of SIGFPE (floating-point exception).
pub const SIGFPE_NO: i32 = 8;

/// Linux signal number of SIGUSR1.
pub const SIGUSR1_NO: i32 = 10;

/// Linux signal number of SIGSEGV (segmentation violation).
pub const SIGSEGV_NO: i32 = 11;

/// Linux signal number of SIGUSR2.
pub const SIGUSR2_NO: i32 = 12;

/// Linux signal number of SIGTERM.
pub const SIGTERM_NO: i32 = 15;

/// Linux signal number of SIGPWR (power failure).
pub const SIGPWR_NO: i32 = 30;

/// What the process does with an incoming signal.
#[derive(Clone, Copy, PartialEq, Eq, Structural, Debug)]
pub enum SignalDisposition {
    /// The signal drives the shutdown coordinator with this reason.
    Translate(ShutdownReason),
    /// The signal is explicitly ignored.
    Ignore,
    /// The signal keeps its default disposition.
    Default,
}

/// The hardware-fault signal class: faults of the executing instruction
/// stream, which must never be blocked or ignored.
pub open spec fn is_hardware_fault_spec(signo: i32) -> bool {
    signo == SIGBUS_NO || signo == SIGFPE_NO || signo == SIGILL_NO || signo == SIGSEGV_NO
}

/// Whether `signo` is in the hardware-fault signal class.
pub fn is_hardware_fault_signal(signo: i32) -> (b: bool)
    ensures
        b == is_hardware_fault_spec(signo),
{
    signo == SIGBUS_NO || signo == SIGFPE_NO || signo == SIGILL_NO || signo == SIGSEGV_NO
}

/// The declared signal policy: SIGTERM and SIGINT request a user shutdown,
/// SIGPWR a power-failure shutdown; SIGUSR1 and SIGUSR2 are ignored.
pub open spec fn signal_policy_spec(signo: i32) -> SignalDisposition {
    if signo == SIGTERM_NO || signo == SIGINT_NO {
        SignalDisposition::Translate(ShutdownReason::User)
    } else if signo == SIGPWR_NO {
        SignalDisposition::Translate(ShutdownReason::Power)
    } else if signo == SIGUSR1_NO || signo == SIGUSR2_NO {
        SignalDisposition::Ignore
    } else {
        SignalDisposition::Default
    }
}

/// The disposition the shell must install for `signo`.
pub fn signal_policy(signo: i32) -> (d: SignalDisposition)
    ensures
        d == signal_policy_spec(signo),
{
    if signo == SIGTERM_NO || signo == SIGINT_NO {
        SignalDisposition::Translate(ShutdownReason::User)
    } else if signo == SIGPWR_NO {
        SignalDisposition::Translate(ShutdownReason::Power)
    } else if signo == SIGUSR1_NO || signo == SIGUSR2_NO {
        SignalDisposition::Ignore
    } else {
        SignalDisposition::Default
    }
}

/// Law: no hardware-fault signal is ever ignored or blocked by the policy —
/// every signal of that class keeps its default disposition.
pub proof fn lemma_hardware_faults_keep_default(signo: i32)
    requires
        is_hardware_fault_spec(signo),
    ensures
        signal_policy_spec(signo) == SignalDisposition::Default,
{
}

} // verus!
