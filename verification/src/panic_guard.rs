//! Panic containment: the per-thread reentrancy guard of the process-wide
//! fault hook, and the exact text of the report lines the hook emits.
//!
//! The hook itself (installed with the host runtime's hook mechanism, and
//! walking the stack with the unwinder) lives in the unverified shell; it
//! asks this module, on every fault, whether to take the full reporting path
//! or the minimal abort path, and what each report line must say.

use crate::decimal::dec_digits;
use crate::decimal::push_decimal;
use vstd::prelude::*;

verus! {

/// Per-thread fault-handling state: idle until the first fault on the
/// thread, handling from then on. The guard never returns to idle — a
/// faulting thread is not expected to resume normal execution — so it decays
/// only with process termination.
pub struct PanicGuard {
    depth: u8,
}

/// What the fault hook may do for one fault on one thread.
#[derive(Clone, Copy, PartialEq, Eq, Structural, Debug)]
pub enum FaultAction {
    /// Report location, message and a resolved stack trace.
    FullReport,
    /// The hook faulted inside itself: write a minimal, allocation-free
    /// diagnostic and abort at once, with no further formatting.
    MinimalAbort,
}

/// The action the hook takes when a fault arrives with guard state `g`.
pub closed spec fn fault_action_spec(g: PanicGuard) -> FaultAction {
    if g.depth == 0 {
        FaultAction::FullReport
    } else {
        FaultAction::MinimalAbort
    }
}

/// The guard state after a fault arrives with guard state `g`.
pub closed spec fn fault_next_spec(g: PanicGuard) -> PanicGuard {
    if g.depth == 0 {
        PanicGuard { depth: 1 }
    } else {
        g
    }
}

impl PanicGuard {
    /// Whether no fault has been handled on this thread yet.
    pub closed spec fn is_idle(&self) -> bool {
        self.depth == 0
    }

    /// The guard of a freshly started thread.
    pub fn new() -> (g: PanicGuard)
        ensures
            g.is_idle(),
    {
        PanicGuard { depth: 0 }
    }

    /// Records one fault on this thread and decides the hook's path: the
    /// full reporting path exactly when the thread was idle, the minimal
    /// abort path on any reentrant fault.
    pub fn on_fault(&mut self) -> (a: FaultAction)
        ensures
            a == fault_action_spec(*old(self)),
            *final(self) == fault_next_spec(*old(self)),
            !final(self).is_idle(),
            (a == FaultAction::FullReport) <==> old(self).is_idle(),
    {
        if self.depth == 0 {
            self.depth = 1;
            FaultAction::FullReport
        } else {
            FaultAction::MinimalAbort
        }
    }
}

/// Law: a fault on an idle thread takes the full reporting path, and a
/// second fault on the same thread — the hook faulting inside itself —
/// takes the minimal abort path instead of reporting again.
pub proof fn lemma_fault_reentrancy(g: PanicGuard)
    requires
        g.is_idle(),
    ensures
        fault_action_spec(g) == FaultAction::FullReport,
        !fault_next_spec(g).is_idle(),
        fault_action_spec(fault_next_spec(g)) == FaultAction::MinimalAbort,
{
}

/// Law: once a thread is handling a fault, every further fault on it takes
/// the minimal abort path, and the thread never becomes idle again — the
/// full reporting path cannot run twice on one thread.
pub proof fn lemma_no_second_full_report(g: PanicGuard)
    requires
        !g.is_idle(),
    ensures
        fault_action_spec(g) == FaultAction::MinimalAbort,
        !fault_next_spec(g).is_idle(),
{
}

/// The line reporting where the fault happened.
pub open spec fn location_line_spec(file: &str, line: u32) -> Seq<char> {
    "Panic occurred at "@ + file@ + " on line "@ + dec_digits(line as nat) + "\n"@
}

/// Renders the fault-location report line for the hook.
pub fn location_line(file: &str, line: u32) -> (s: String)
    ensures
        s@ == location_line_spec(file, line),
{
    let mut s = String::new();
    s.append("Panic occurred at ");
    s.append(file);
    s.append(" on line ");
    push_decimal(&mut s, line as u64);
    s.append("\n");
    proof {
        assert(s@ =~= location_line_spec(file, line));
    }
    s
}

/// The symbol part of one stack-frame report line: the resolved name, or an
/// explicit marker so that unresolvable frames are still counted.
pub open spec fn frame_symbol_part(symbol: Option<&str>) -> Seq<char> {
    match symbol {
        Some(name) => name@,
        None => "<unknown symbol>"@,
    }
}

/// The source-location part of one stack-frame report line.
pub open spec fn frame_location_part(file: Option<&str>, lineno: Option<u32>) -> Seq<char> {
    match file {
        Some(f) => match lineno {
            Some(l) => f@ + " at line "@ + dec_digits(l as nat),
            None => f@ + " at <unknown line>"@,
        },
        None => "<unknown file>"@,
    }
}

/// One line of the stack-trace report for a frame whose symbol, source file
/// and source line were each resolved or not.
pub open spec fn frame_line_spec(
    symbol: Option<&str>,
    file: Option<&str>,
    lineno: Option<u32>,
) -> Seq<char> {
    frame_symbol_part(symbol) + " in "@ + frame_location_part(file, lineno) + "\n"@
}

/// Renders the report line for one stack frame. An unresolvable part is
/// reported with an explicit "unknown" marker rather than omitted, so the
/// frame count of the postmortem trace is preserved.
pub fn frame_line(symbol: Option<&str>, file: Option<&str>, lineno: Option<u32>) -> (s: String)
    ensures
        s@ == frame_line_spec(symbol, file, lineno),
{
    let mut s = String::new();
    match symbol {
        Some(name) => s.append(name),
        None => s.append("<unknown symbol>"),
    }
    s.append(" in ");
    match file {
        Some(f) => {
            s.append(f);
            match lineno {
                Some(l) => {
                    s.append(" at line ");
                    push_decimal(&mut s, l as u64);
                },
                None => s.append(" at <unknown line>"),
            }
        },
        None => s.append("<unknown file>"),
    }
    s.append("\n");
    proof {
        assert(s@ =~= frame_line_spec(symbol, file, lineno));
    }
    s
}

} // verus!
