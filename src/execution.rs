//! Classification of resource-bounded runs of a compiled artifact.
use crate::text::{decimal_text, int_text};
use vstd::prelude::*;

verus! {

/// Resource limits of one execution.
#[derive(Clone, Copy, Debug, PartialEq, Eq, Structural)]
pub struct Limits {
    pub time_ms: u64,
    pub memory_kb: u64,
}

/// How the child process ended.
#[derive(Clone, Copy, Debug, PartialEq, Eq, Structural)]
pub enum Termination {
    /// It exited with this status code.
    Exited(i32),
    /// It was ended by this signal.
    Signaled(i32),
}

/// Why the watchdog ended the child, if it did.
#[derive(Clone, Copy, Debug, PartialEq, Eq, Structural)]
pub enum KillReason {
    NotKilled,
    Time,
    Memory,
}

/// What was observed of one run.
#[derive(Clone, Copy, Debug, PartialEq, Eq, Structural)]
pub struct RunReport {
    pub termination: Termination,
    pub elapsed_ms: u64,
    pub peak_memory_kb: u64,
    pub killed: KillReason,
}

/// The watchdog's decision at one sampling point.
#[derive(Clone, Copy, Debug, PartialEq, Eq, Structural)]
pub enum WatchAction {
    Wait,
    KillForTime,
    KillForMemory,
}

/// The classified result of one run, with the measured usage.
#[derive(Debug)]
pub enum ExecutionOutcome {
    Completed { elapsed_ms: u64, peak_memory_kb: u64 },
    TimeLimitExceeded { elapsed_ms: u64, peak_memory_kb: u64 },
    MemoryLimitExceeded { elapsed_ms: u64, peak_memory_kb: u64 },
    RuntimeError { diagnostic: String, elapsed_ms: u64, peak_memory_kb: u64 },
}

/// The watchdog's decision: the time limit is checked first, then the memory limit.
pub open spec fn watch_spec(elapsed_ms: u64, peak_memory_kb: u64, limits: Limits) -> WatchAction {
    if elapsed_ms >= limits.time_ms {
        WatchAction::KillForTime
    } else if peak_memory_kb > limits.memory_kb {
        WatchAction::KillForMemory
    } else {
        WatchAction::Wait
    }
}

/// Decides, from the usage measured so far, whether the running child must be ended.
pub fn watch(elapsed_ms: u64, peak_memory_kb: u64, limits: Limits) -> (r: WatchAction)
    ensures
        r == watch_spec(elapsed_ms, peak_memory_kb, limits),
{
    if elapsed_ms >= limits.time_ms {
        WatchAction::KillForTime
    } else if peak_memory_kb > limits.memory_kb {
        WatchAction::KillForMemory
    } else {
        WatchAction::Wait
    }
}

/// The class of a run, as a model.
pub enum OutcomeKind {
    Completed,
    TimeLimitExceeded,
    MemoryLimitExceeded,
    RuntimeError(Seq<char>),
}

/// The signal with which the operating system ends a process that crossed a hard ceiling.
pub const KILL_SIGNAL: i32 = 9;

/// The diagnostic text of an abnormal termination.
pub open spec fn termination_text(t: Termination) -> Seq<char> {
    match t {
        Termination::Exited(c) => "exit code "@ + decimal_text(c as int),
        Termination::Signaled(s) => "killed by signal "@ + decimal_text(s as int),
    }
}

/// The class of a run: a limit violation takes precedence over how the child
/// ended; a kill by the operating system at or above the memory limit counts as
/// a memory violation; any other abnormal end is a runtime error.
pub open spec fn classify_spec(report: RunReport, limits: Limits) -> OutcomeKind {
    if report.killed == KillReason::Time || report.elapsed_ms > limits.time_ms {
        OutcomeKind::TimeLimitExceeded
    } else if report.killed == KillReason::Memory || report.peak_memory_kb > limits.memory_kb || (
    report.termination == Termination::Signaled(KILL_SIGNAL) && report.peak_memory_kb
        >= limits.memory_kb) {
        OutcomeKind::MemoryLimitExceeded
    } else if report.termination == Termination::Exited(0) {
        OutcomeKind::Completed
    } else {
        OutcomeKind::RuntimeError(termination_text(report.termination))
    }
}

impl ExecutionOutcome {
    /// The class of this outcome.
    pub open spec fn kind(&self) -> OutcomeKind {
        match self {
            ExecutionOutcome::Completed { .. } => OutcomeKind::Completed,
            ExecutionOutcome::TimeLimitExceeded { .. } => OutcomeKind::TimeLimitExceeded,
            ExecutionOutcome::MemoryLimitExceeded { .. } => OutcomeKind::MemoryLimitExceeded,
            ExecutionOutcome::RuntimeError { diagnostic, .. } => OutcomeKind::RuntimeError(
                diagnostic@,
            ),
        }
    }

    /// The elapsed time recorded in this outcome.
    pub open spec fn elapsed(&self) -> u64 {
        match self {
            ExecutionOutcome::Completed { elapsed_ms, .. } => *elapsed_ms,
            ExecutionOutcome::TimeLimitExceeded { elapsed_ms, .. } => *elapsed_ms,
            ExecutionOutcome::MemoryLimitExceeded { elapsed_ms, .. } => *elapsed_ms,
            ExecutionOutcome::RuntimeError { elapsed_ms, .. } => *elapsed_ms,
        }
    }

    /// The peak memory recorded in this outcome.
    pub open spec fn peak(&self) -> u64 {
        match self {
            ExecutionOutcome::Completed { peak_memory_kb, .. } => *peak_memory_kb,
            ExecutionOutcome::TimeLimitExceeded { peak_memory_kb, .. } => *peak_memory_kb,
            ExecutionOutcome::MemoryLimitExceeded { peak_memory_kb, .. } => *peak_memory_kb,
            ExecutionOutcome::RuntimeError { peak_memory_kb, .. } => *peak_memory_kb,
        }
    }
}

/// Classifies one observed run against its limits.
pub fn classify(report: RunReport, limits: Limits) -> (r: ExecutionOutcome)
    ensures
        r.kind() == classify_spec(report, limits),
        r.elapsed() == report.elapsed_ms,
        r.peak() == report.peak_memory_kb,
{
    let elapsed_ms = report.elapsed_ms;
    let peak_memory_kb = report.peak_memory_kb;
    if report.killed == KillReason::Time || elapsed_ms > limits.time_ms {
        ExecutionOutcome::TimeLimitExceeded { elapsed_ms, peak_memory_kb }
    } else if report.killed == KillReason::Memory || peak_memory_kb > limits.memory_kb || (
    report.termination == Termination::Signaled(KILL_SIGNAL) && peak_memory_kb
        >= limits.memory_kb) {
        ExecutionOutcome::MemoryLimitExceeded { elapsed_ms, peak_memory_kb }
    } else if report.termination == Termination::Exited(0) {
        ExecutionOutcome::Completed { elapsed_ms, peak_memory_kb }
    } else {
        let mut diagnostic = match report.termination {
            Termination::Exited(_) => String::from_str("exit code "),
            Termination::Signaled(_) => String::from_str("killed by signal "),
        };
        let code = match report.termination {
            Termination::Exited(c) => c,
            Termination::Signaled(s) => s,
        };
        let n = int_text(code as i64);
        diagnostic.append(n.as_str());
        ExecutionOutcome::RuntimeError { diagnostic, elapsed_ms, peak_memory_kb }
    }
}

/// A child ended by the watchdog is never classified as a crash: a kill at the
/// deadline is a time-limit verdict, a kill for memory is a memory-limit verdict
/// unless the time limit was also crossed. The watchdog kills only a child that
/// has reached the deadline or crossed the memory limit.
pub proof fn lemma_watchdog_kills_are_limit_verdicts(report: RunReport, limits: Limits)
    ensures
        report.killed == KillReason::Time ==> classify_spec(report, limits)
            is TimeLimitExceeded,
        report.killed == KillReason::Memory && report.elapsed_ms <= limits.time_ms
            ==> classify_spec(report, limits) is MemoryLimitExceeded,
        watch_spec(report.elapsed_ms, report.peak_memory_kb, limits) != WatchAction::Wait
            ==> report.elapsed_ms >= limits.time_ms || report.peak_memory_kb > limits.memory_kb,
{
}

} // verus!
