//! Single-shot shutdown coordinator.
//!
//! The latch serializes every request to take the system down: exactly one
//! caller wins the transition out of `NotStarted` and runs the teardown
//! branch for its reason; every later caller observes the terminal state and
//! must not run teardown again. The branch itself is a plan of plain steps
//! that the unverified shell carries out, ending in a kernel handoff; when
//! the primary handoff syscall is unavailable the shell falls back to the
//! SysRq character protocol mapped here.

use vstd::prelude::*;

verus! {

/// Why the system is being taken down; selects the teardown branch.
#[derive(Clone, Copy, PartialEq, Eq, Structural, Debug)]
#[non_exhaustive]
pub enum ShutdownReason {
    /// Like `User`, but the kernel handoff reboots instead of powering off.
    Reboot,
    /// The user requested a shutdown: notify processes, wait a bounded grace
    /// period, then force-terminate whatever remains.
    User,
    /// Power failure: skip graceful waits and flush filesystem state first.
    Power,
    /// A watchdog reported a failed liveness check: like `User`, with a
    /// shorter grace period and a distinct log entry for postmortem.
    Watchdog,
    /// Like `Reboot`, but jumps directly into a staged kernel image; a
    /// missing staged image falls back to an ordinary reboot.
    KExec,
}

/// Bounded grace period, in seconds, granted to processes on a user shutdown.
pub const USER_GRACE_SECS: u64 = 90;

/// Shorter grace period, in seconds, used when a watchdog forced the shutdown.
pub const WATCHDOG_GRACE_SECS: u64 = 10;

/// One best-effort step of a teardown branch, carried out by the shell.
#[derive(Clone, Copy, PartialEq, Eq, Structural, Debug)]
pub enum TeardownStep {
    /// Record the watchdog trigger distinctly for postmortem analysis.
    LogWatchdogTrigger,
    /// Ask all other processes to terminate gracefully.
    NotifyProcessesGraceful,
    /// Wait up to the given number of seconds for processes to exit.
    WaitGrace(u64),
    /// Force-terminate the processes that remain.
    ForceTerminateProcesses,
    /// Flush filesystem state to stable storage.
    SyncFilesystems,
}

/// How the kernel finishes the transition once teardown is done.
#[derive(Clone, Copy, PartialEq, Eq, Structural, Debug)]
pub enum KernelHandoff {
    PowerOff,
    Reboot,
    /// Jump into an already-staged kernel image without firmware re-init.
    KExecJump,
}

/// The teardown branch for one reason: ordered best-effort steps, then a
/// kernel handoff.
#[derive(PartialEq, Eq, Debug)]
pub struct TeardownPlan {
    pub steps: Vec<TeardownStep>,
    pub handoff: KernelHandoff,
}

/// The ordered steps of the teardown branch selected by `reason`.
pub open spec fn plan_steps_spec(reason: ShutdownReason) -> Seq<TeardownStep> {
    match reason {
        ShutdownReason::User => seq![
            TeardownStep::NotifyProcessesGraceful,
            TeardownStep::WaitGrace(USER_GRACE_SECS),
            TeardownStep::ForceTerminateProcesses,
        ],
        ShutdownReason::Power => seq![TeardownStep::SyncFilesystems],
        ShutdownReason::Watchdog => seq![
            TeardownStep::LogWatchdogTrigger,
            TeardownStep::NotifyProcessesGraceful,
            TeardownStep::WaitGrace(WATCHDOG_GRACE_SECS),
            TeardownStep::ForceTerminateProcesses,
        ],
        ShutdownReason::Reboot => seq![
            TeardownStep::NotifyProcessesGraceful,
            TeardownStep::WaitGrace(USER_GRACE_SECS),
            TeardownStep::ForceTerminateProcesses,
        ],
        ShutdownReason::KExec => seq![
            TeardownStep::NotifyProcessesGraceful,
            TeardownStep::WaitGrace(USER_GRACE_SECS),
            TeardownStep::ForceTerminateProcesses,
        ],
    }
}

/// The kernel handoff selected by `reason`; a kexec request without a staged
/// kernel image falls back to an ordinary reboot.
pub open spec fn handoff_spec(reason: ShutdownReason, kexec_staged: bool) -> KernelHandoff {
    match reason {
        ShutdownReason::Reboot => KernelHandoff::Reboot,
        ShutdownReason::User => KernelHandoff::PowerOff,
        ShutdownReason::Power => KernelHandoff::PowerOff,
        ShutdownReason::Watchdog => KernelHandoff::PowerOff,
        ShutdownReason::KExec => if kexec_staged {
            KernelHandoff::KExecJump
        } else {
            KernelHandoff::Reboot
        },
    }
}

/// Builds the teardown branch for `reason`. `kexec_staged` says whether a
/// kexec kernel image is already staged; without one, a kexec request
/// degrades to a reboot handoff.
pub fn shutdown_branch(reason: ShutdownReason, kexec_staged: bool) -> (plan: TeardownPlan)
    ensures
        plan.steps@ == plan_steps_spec(reason),
        plan.handoff == handoff_spec(reason, kexec_staged),
{
    let mut steps: Vec<TeardownStep> = Vec::new();
    let handoff: KernelHandoff;
    match reason {
        ShutdownReason::User => {
            steps.push(TeardownStep::NotifyProcessesGraceful);
            steps.push(TeardownStep::WaitGrace(USER_GRACE_SECS));
            steps.push(TeardownStep::ForceTerminateProcesses);
            handoff = KernelHandoff::PowerOff;
        },
        ShutdownReason::Power => {
            steps.push(TeardownStep::SyncFilesystems);
            handoff = KernelHandoff::PowerOff;
        },
        ShutdownReason::Watchdog => {
            steps.push(TeardownStep::LogWatchdogTrigger);
            steps.push(TeardownStep::NotifyProcessesGraceful);
            steps.push(TeardownStep::WaitGrace(WATCHDOG_GRACE_SECS));
            steps.push(TeardownStep::ForceTerminateProcesses);
            handoff = KernelHandoff::PowerOff;
        },
        ShutdownReason::Reboot => {
            steps.push(TeardownStep::NotifyProcessesGraceful);
            steps.push(TeardownStep::WaitGrace(USER_GRACE_SECS));
            steps.push(TeardownStep::ForceTerminateProcesses);
            handoff = KernelHandoff::Reboot;
        },
        ShutdownReason::KExec => {
            steps.push(TeardownStep::NotifyProcessesGraceful);
            steps.push(TeardownStep::WaitGrace(USER_GRACE_SECS));
            steps.push(TeardownStep::ForceTerminateProcesses);
            if kexec_staged {
                handoff = KernelHandoff::KExecJump;
            } else {
                handoff = KernelHandoff::Reboot;
            }
        },
    }
    proof {
        assert(steps@ =~= plan_steps_spec(reason));
    }
    TeardownPlan { steps, handoff }
}

/// Process-wide shutdown latch. It has exactly two observable values:
/// not started, and terminal (shutdown in progress or done, which callers
/// never distinguish). It transitions at most once, and never back.
pub struct ShutdownLatch {
    terminal: bool,
}

impl ShutdownLatch {
    /// Whether the latch has reached its terminal value.
    pub closed spec fn is_terminal(&self) -> bool {
        self.terminal
    }

    /// A fresh latch, not yet started.
    pub fn new() -> (g: ShutdownLatch)
        ensures
            !g.is_terminal(),
    {
        ShutdownLatch { terminal: false }
    }

    /// The serialized model of the atomic compare-and-set: the caller wins
    /// exactly when the latch was not yet terminal, and the latch is terminal
    /// afterwards in every case.
    pub fn try_begin(&mut self) -> (won: bool)
        ensures
            won == !old(self).is_terminal(),
            final(self).is_terminal(),
    {
        let won = !self.terminal;
        self.terminal = true;
        won
    }

    /// Observer for callers that only need to know whether shutdown started.
    pub fn is_shutting_down(&self) -> (b: bool)
        ensures
            b == self.is_terminal(),
    {
        self.terminal
    }
}

/// What one call of `shutdown` decided.
#[derive(PartialEq, Eq, Debug)]
pub enum ShutdownDecision {
    /// This caller won the latch and must run the plan, then hand off to the
    /// kernel; it never returns to normal execution.
    Winner(TeardownPlan),
    /// Another caller already won; this one runs no teardown and only waits
    /// for the winner to terminate the process.
    AlreadyInProgress,
}

/// Serialized model of one `initiate(reason)` request against the latch.
///
/// Exactly the winner receives the teardown plan for its reason; a caller
/// that finds the latch already terminal receives `AlreadyInProgress` and must
/// not tear anything down. The latch is terminal after every call.
pub fn shutdown(
    latch: &mut ShutdownLatch,
    reason: ShutdownReason,
    kexec_staged: bool,
) -> (d: ShutdownDecision)
    ensures
        final(latch).is_terminal(),
        latch_step(*old(latch), *final(latch), true),
        (d is Winner) == !old(latch).is_terminal(),
        old(latch).is_terminal() ==> d is AlreadyInProgress,
        (d matches ShutdownDecision::Winner(plan) ==> {
            &&& plan.steps@ == plan_steps_spec(reason)
            &&& plan.handoff == handoff_spec(reason, kexec_staged)
        }),
{
    if latch.try_begin() {
        ShutdownDecision::Winner(shutdown_branch(reason, kexec_staged))
    } else {
        ShutdownDecision::AlreadyInProgress
    }
}

/// What a losing caller does with each observation of the latch while it
/// spins for the winner to terminate the process.
#[derive(Clone, Copy, PartialEq, Eq, Structural, Debug)]
pub enum LoserWaitVerdict {
    /// The latch is still terminal: keep spinning; the winner makes forward
    /// progress and ends the process.
    KeepWaiting,
    /// The latch was observed back at `NotStarted`. That can never
    /// legitimately happen, so the state is corrupted: abort immediately
    /// rather than proceed on it.
    InternalInconsistencyAbort,
}

/// Decides what a losing caller does after one observation of the latch:
/// wait while it stays terminal, abort on an impossible reversion.
pub fn loser_wait_verdict(observed_terminal: bool) -> (v: LoserWaitVerdict)
    ensures
        observed_terminal <==> v == LoserWaitVerdict::KeepWaiting,
{
    if observed_terminal {
        LoserWaitVerdict::KeepWaiting
    } else {
        LoserWaitVerdict::InternalInconsistencyAbort
    }
}

/// One step of a latch history: a call always leaves the latch terminal; an
/// idle observation leaves it unchanged.
pub open spec fn latch_step(pre: ShutdownLatch, post: ShutdownLatch, is_call: bool) -> bool {
    if is_call {
        post.is_terminal()
    } else {
        post == pre
    }
}

/// A serialized history of the latch: `states` are the successive latch values
/// and `calls[i]` says whether step `i` was an `initiate` call or an idle
/// observation.
pub open spec fn valid_latch_trace(states: Seq<ShutdownLatch>, calls: Seq<bool>) -> bool {
    &&& states.len() == calls.len() + 1
    &&& forall|i: int| 0 <= i < calls.len() ==> latch_step(states[i], states[i + 1], calls[i])
}

/// Whether the call at step `i` of a history wins the latch.
pub open spec fn call_wins(states: Seq<ShutdownLatch>, calls: Seq<bool>, i: int) -> bool {
    calls[i] && !states[i].is_terminal()
}

/// Law: the latch never transitions backward. In any serialized history, once
/// a state is terminal, every later state is terminal; `NotStarted` is never
/// observed again.
pub proof fn lemma_no_backward_transition(
    states: Seq<ShutdownLatch>,
    calls: Seq<bool>,
    i: int,
    j: int,
)
    requires
        valid_latch_trace(states, calls),
        0 <= i <= j < states.len(),
        states[i].is_terminal(),
    ensures
        states[j].is_terminal(),
    decreases j - i,
{
    if i < j {
        assert(latch_step(states[i], states[i + 1], calls[i]));
        lemma_no_backward_transition(states, calls, i + 1, j);
    }
}

/// In a history with no call before step `k`, the latch still holds its
/// initial value at step `k`.
proof fn lemma_idle_prefix(states: Seq<ShutdownLatch>, calls: Seq<bool>, k: int)
    requires
        valid_latch_trace(states, calls),
        0 <= k < states.len(),
        forall|j: int| 0 <= j < k ==> !calls[j],
    ensures
        states[k] == states[0],
    decreases k,
{
    if k > 0 {
        lemma_idle_prefix(states, calls, k - 1);
        assert(latch_step(states[k - 1], states[k], calls[k - 1]));
    }
}

/// Law: no two calls both win, under any interleaving. Once any call has
/// won, every later call observes the terminal latch and runs no teardown.
pub proof fn lemma_at_most_one_winner(states: Seq<ShutdownLatch>, calls: Seq<bool>, i: int, j: int)
    requires
        valid_latch_trace(states, calls),
        0 <= i < j < calls.len(),
        call_wins(states, calls, i),
    ensures
        !call_wins(states, calls, j),
{
    assert(latch_step(states[i], states[i + 1], calls[i]));
    lemma_no_backward_transition(states, calls, i + 1, j);
}

/// Law: the latch is single-shot. In any serialized history of concurrent
/// `initiate` calls against a fresh latch, the first call wins and no other
/// call does — exactly one caller ever runs a teardown branch.
pub proof fn lemma_single_shot(states: Seq<ShutdownLatch>, calls: Seq<bool>, first: int)
    requires
        valid_latch_trace(states, calls),
        !states[0].is_terminal(),
        0 <= first < calls.len(),
        calls[first],
        forall|j: int| 0 <= j < first ==> !calls[j],
    ensures
        call_wins(states, calls, first),
        forall|j: int| first < j < calls.len() ==> !call_wins(states, calls, j),
{
    lemma_idle_prefix(states, calls, first);
    assert(latch_step(states[first], states[first + 1], calls[first]));
    assert forall|j: int| first < j < calls.len() implies !call_wins(states, calls, j) by {
        lemma_no_backward_transition(states, calls, first + 1, j);
    }
}

/// A single ASCII character commands the kernel through the SysRq control
/// file; this is the degraded escalation path of the shutdown coordinator.
#[derive(Clone, Copy, PartialEq, Eq, Structural, Debug)]
#[non_exhaustive]
pub enum SysRqCommand {
    Reboot,
    /// Immediately sync all filesystems.
    Sync,
    /// Immediately remount all filesystems read-only.
    RemountReadOnly,
    /// Immediately trigger a kernel panic.
    Panic,
    /// Immediately power off, without syncing.
    Shutdown,
    /// Immediately terminate all processes except init.
    TerminateAllProcesses,
    /// Immediately kill all processes except init.
    KillAllProcesses,
}

/// The protocol character of each SysRq command.
pub open spec fn sysrq_char_spec(cmd: SysRqCommand) -> char {
    match cmd {
        SysRqCommand::Reboot => 'b',
        SysRqCommand::Sync => 's',
        SysRqCommand::RemountReadOnly => 'u',
        SysRqCommand::Panic => 'c',
        SysRqCommand::Shutdown => 'o',
        SysRqCommand::TerminateAllProcesses => 'e',
        SysRqCommand::KillAllProcesses => 'i',
    }
}

/// The character the shell must write to the SysRq control file for `cmd`.
pub fn sysrq_char(cmd: SysRqCommand) -> (c: char)
    ensures
        c == sysrq_char_spec(cmd),
{
    match cmd {
        SysRqCommand::Reboot => 'b',
        SysRqCommand::Sync => 's',
        SysRqCommand::RemountReadOnly => 'u',
        SysRqCommand::Panic => 'c',
        SysRqCommand::Shutdown => 'o',
        SysRqCommand::TerminateAllProcesses => 'e',
        SysRqCommand::KillAllProcesses => 'i',
    }
}

/// The SysRq command sequence of the degraded escalation path for a handoff:
/// sync, remount read-only, then the coarsest equivalent of the handoff.
/// SysRq cannot stage a kexec jump, so that handoff degrades to a reboot.
pub open spec fn sysrq_fallback_spec(handoff: KernelHandoff) -> Seq<SysRqCommand> {
    match handoff {
        KernelHandoff::PowerOff => seq![
            SysRqCommand::Sync,
            SysRqCommand::RemountReadOnly,
            SysRqCommand::Shutdown,
        ],
        KernelHandoff::Reboot => seq![
            SysRqCommand::Sync,
            SysRqCommand::RemountReadOnly,
            SysRqCommand::Reboot,
        ],
        KernelHandoff::KExecJump => seq![
            SysRqCommand::Sync,
            SysRqCommand::RemountReadOnly,
            SysRqCommand::Reboot,
        ],
    }
}

/// Commands to write, in order, when the primary handoff syscall failed and
/// only the SysRq control file is left.
pub fn sysrq_fallback(handoff: KernelHandoff) -> (cmds: Vec<SysRqCommand>)
    ensures
        cmds@ == sysrq_fallback_spec(handoff),
{
    let mut cmds: Vec<SysRqCommand> = Vec::new();
    cmds.push(SysRqCommand::Sync);
    cmds.push(SysRqCommand::RemountReadOnly);
    match handoff {
        KernelHandoff::PowerOff => cmds.push(SysRqCommand::Shutdown),
        KernelHandoff::Reboot => cmds.push(SysRqCommand::Reboot),
        KernelHandoff::KExecJump => cmds.push(SysRqCommand::Reboot),
    }
    proof {
        assert(cmds@ =~= sysrq_fallback_spec(handoff));
    }
    cmds
}

} // verus!
