//! The judging orchestrator: a state machine that sequences compilation, case
//! runs, comparisons and reports. The caller performs each action it asks for
//! and hands back the event.
use crate::compare::CompareResult;
use crate::execution::{ExecutionOutcome, OutcomeKind};
use crate::toolchain::{CompileFailure, CompiledArtifact};
use crate::verdict::{JudgeCase, JudgeResult, VerdictModel};
use vstd::prelude::*;

verus! {

/// What the orchestrator waits for.
#[derive(Clone, Copy, Debug, PartialEq, Eq, Structural)]
pub enum Phase {
    /// The result of the compile.
    Compiling,
    /// The outcome of running the current case.
    Running,
    /// The comparison of the current case's output.
    Comparing,
    /// Confirmation that the last result was handed to the reporter.
    Reporting,
    /// Nothing: judging is over.
    Finished,
}

/// What the caller must do next.
#[derive(Debug)]
pub enum Action {
    /// Compile the submission.
    Compile,
    /// Run case `case` (1-based).
    Run { case: usize },
    /// Compare the output of case `case` with its expected output.
    Compare { case: usize },
    /// Hand this result to the reporter and wait until it is accepted.
    Report(JudgeResult),
    /// Judging is over.
    Done,
}

/// The verdict of a run that did not complete normally; `None` when it did.
pub open spec fn run_verdict(kind: OutcomeKind) -> Option<VerdictModel> {
    match kind {
        OutcomeKind::Completed => None,
        OutcomeKind::TimeLimitExceeded => Some(VerdictModel::TimeLimitExceeded),
        OutcomeKind::MemoryLimitExceeded => Some(VerdictModel::MemoryLimitExceeded),
        OutcomeKind::RuntimeError(t) => Some(VerdictModel::RuntimeError(t)),
    }
}

/// The verdict of a completed run, from its comparison model.
pub open spec fn compare_verdict(c: Option<Seq<char>>) -> VerdictModel {
    match c {
        None => VerdictModel::Accepted,
        Some(m) => VerdictModel::WrongAnswer(m),
    }
}

/// A measured quantity as reported: capped at `i32::MAX`.
pub open spec fn reported_usage(x: u64) -> i32 {
    if x > i32::MAX as u64 {
        i32::MAX
    } else {
        x as i32
    }
}

/// The diagnostic text reported for a failed compile.
pub open spec fn failure_text(f: CompileFailure) -> Seq<char> {
    match f {
        CompileFailure::UnsupportedLanguage => "language not supported"@,
        CompileFailure::Diagnostics(d) => d@,
    }
}

/// The case numbers `1..=n`, in order.
pub open spec fn case_numbers(n: int) -> Seq<int> {
    Seq::new(n as nat, |k: int| k + 1)
}

fn usage(x: u64) -> (r: i32)
    ensures
        r == reported_usage(x),
{
    if x > i32::MAX as u64 {
        i32::MAX
    } else {
        x as i32
    }
}

/// The judging state of one submission.
pub struct Judge {
    id: String,
    total: usize,
    phase: Phase,
    case: usize,
    compile_failed: bool,
    elapsed_ms: u64,
    peak_memory_kb: u64,
    /// Case numbers handed out to be run, in order.
    runs: Ghost<Seq<int>>,
    /// Case numbers of the results handed out to be reported, in order.
    reports: Ghost<Seq<int>>,
}

impl Judge {
    pub closed spec fn spec_id(&self) -> Seq<char> {
        self.id@
    }

    pub closed spec fn spec_total(&self) -> int {
        self.total as int
    }

    pub closed spec fn spec_phase(&self) -> Phase {
        self.phase
    }

    /// The current case number (0 before the first run).
    pub closed spec fn spec_case(&self) -> int {
        self.case as int
    }

    pub closed spec fn spec_compile_failed(&self) -> bool {
        self.compile_failed
    }

    /// The state is consistent with the cases run and the results reported so far.
    pub closed spec fn wf(&self) -> bool {
        &&& self.total <= i32::MAX
        &&& self.case <= self.total
        &&& match self.phase {
            Phase::Compiling => self.case == 0 && !self.compile_failed && self.runs@.len() == 0
                && self.reports@.len() == 0,
            Phase::Running | Phase::Comparing => !self.compile_failed && 1 <= self.case
                && self.runs@ == case_numbers(self.case as int) && self.reports@ == case_numbers(
                self.case - 1,
            ),
            Phase::Reporting | Phase::Finished => if self.compile_failed {
                self.case == 0 && self.runs@.len() == 0 && self.reports@ == seq![0int]
            } else {
                self.runs@ == case_numbers(self.case as int) && self.reports@ == case_numbers(
                    self.case as int,
                ) && (self.phase == Phase::Finished ==> self.case == self.total)
                    && (self.phase == Phase::Reporting ==> 1 <= self.case)
            },
        }
    }

    /// A judge for submission `id` with `total` cases, waiting for the compile.
    pub fn new(id: String, total: usize) -> (r: Judge)
        requires
            total <= i32::MAX,
        ensures
            r.wf(),
            r.spec_id() == id@,
            r.spec_total() == total,
            r.spec_phase() == Phase::Compiling,
    {
        Judge {
            id,
            total,
            phase: Phase::Compiling,
            case: 0,
            compile_failed: false,
            elapsed_ms: 0,
            peak_memory_kb: 0,
            runs: Ghost(Seq::empty()),
            reports: Ghost(Seq::empty()),
        }
    }

    /// What the judge waits for.
    pub fn phase(&self) -> (r: Phase)
        ensures
            r == self.spec_phase(),
    {
        self.phase
    }

    /// The action to start with.
    pub fn start(&self) -> (r: Action)
        ensures
            self.spec_phase() == Phase::Compiling ==> r is Compile,
            self.spec_phase() != Phase::Compiling ==> r is Done,
    {
        if self.phase == Phase::Compiling {
            Action::Compile
        } else {
            Action::Done
        }
    }

    /// Case numbers handed out to be run, in order.
    pub closed spec fn spec_runs(&self) -> Seq<int> {
        self.runs@
    }

    /// Case numbers of the results handed out to be reported, in order.
    pub closed spec fn spec_reports(&self) -> Seq<int> {
        self.reports@
    }

    /// The usage recorded for the current case.
    pub closed spec fn spec_usage(&self) -> (u64, u64) {
        (self.elapsed_ms, self.peak_memory_kb)
    }

    /// Takes the result of the compile.
    /// A failed compile is reported as case 0 and no case is run; otherwise
    /// case 1 is run, or judging ends when there are no cases.
    pub fn compiled(&mut self, result: Result<CompiledArtifact, CompileFailure>) -> (r: Action)
        requires
            old(self).wf(),
            old(self).spec_phase() == Phase::Compiling,
        ensures
            final(self).wf(),
            final(self).spec_id() == old(self).spec_id(),
            final(self).spec_total() == old(self).spec_total(),
            match result {
                Err(d) => r matches Action::Report(jr) && jr.case == 0 && jr.id@ == old(self).spec_id() && jr.result.model() == VerdictModel::CompileError(failure_text(d)) && jr.time
                    == 0 && jr.memory == 0 && final(self).spec_phase() == Phase::Reporting
                    && final(self).spec_compile_failed() && final(self).spec_reports() == seq![0int]
                    && final(self).spec_runs().len() == 0,
                Ok(_) => !final(self).spec_compile_failed() && if old(self).spec_total() == 0 {
                    r is Done && final(self).spec_phase() == Phase::Finished
                        && final(self).spec_runs().len() == 0 && final(self).spec_reports().len() == 0
                } else {
                    r matches Action::Run { case } && case == 1 && final(self).spec_case() == 1
                        && final(self).spec_phase() == Phase::Running && final(self).spec_runs()
                        == seq![1int] && final(self).spec_reports().len() == 0
                },
            },
    {
        match result {
            Err(f) => {
                let d = match f {
                    CompileFailure::UnsupportedLanguage => String::from_str("language not supported"),
                    CompileFailure::Diagnostics(d) => d,
                };
                self.compile_failed = true;
                self.phase = Phase::Reporting;
                proof { self.reports@ = seq![0int]; }
                Action::Report(
                    JudgeResult {
                        id: self.id.clone(),
                        case: 0,
                        result: JudgeCase::CompileError(d),
                        time: 0,
                        memory: 0,
                    },
                )
            },
            Ok(_) => {
                if self.total == 0 {
                    self.phase = Phase::Finished;
                    assert(self.runs@ =~= case_numbers(0));
                    assert(self.reports@ =~= case_numbers(0));
                    Action::Done
                } else {
                    self.case = 1;
                    self.phase = Phase::Running;
                    proof { self.runs@ = seq![1int]; }
                    assert(self.runs@ =~= case_numbers(1));
                    assert(self.reports@ =~= case_numbers(0));
                    Action::Run { case: 1 }
                }
            },
        }
    }

    /// Takes the outcome of running the current case. A normal completion asks
    /// for the comparison; any other outcome is reported at once.
    pub fn executed(&mut self, outcome: ExecutionOutcome) -> (r: Action)
        requires
            old(self).wf(),
            old(self).spec_phase() == Phase::Running,
        ensures
            final(self).wf(),
            final(self).spec_id() == old(self).spec_id(),
            final(self).spec_total() == old(self).spec_total(),
            final(self).spec_case() == old(self).spec_case(),
            final(self).spec_runs() == old(self).spec_runs(),
            match run_verdict(outcome.kind()) {
                None => r matches Action::Compare { case } && case == old(self).spec_case()
                    && final(self).spec_phase() == Phase::Comparing && final(self).spec_reports()
                    == old(self).spec_reports() && final(self).spec_usage() == (
                    outcome.elapsed(),
                    outcome.peak(),
                ),
                Some(v) => r matches Action::Report(jr) && jr.case == old(self).spec_case()
                    && jr.id@ == old(self).spec_id() && jr.result.model() == v && jr.time
                    == reported_usage(outcome.elapsed()) && jr.memory == reported_usage(
                    outcome.peak(),
                ) && final(self).spec_phase() == Phase::Reporting && final(self).spec_reports()
                    == old(self).spec_reports().push(old(self).spec_case()),
            },
    {
        let (verdict, elapsed_ms, peak_memory_kb) = match outcome {
            ExecutionOutcome::Completed { elapsed_ms, peak_memory_kb } => {
                self.elapsed_ms = elapsed_ms;
                self.peak_memory_kb = peak_memory_kb;
                self.phase = Phase::Comparing;
                return Action::Compare { case: self.case };
            },
            ExecutionOutcome::TimeLimitExceeded { elapsed_ms, peak_memory_kb } => (
                JudgeCase::TimeLimitExceeded,
                elapsed_ms,
                peak_memory_kb,
            ),
            ExecutionOutcome::MemoryLimitExceeded { elapsed_ms, peak_memory_kb } => (
                JudgeCase::MemoryLimitExceeded,
                elapsed_ms,
                peak_memory_kb,
            ),
            ExecutionOutcome::RuntimeError { diagnostic, elapsed_ms, peak_memory_kb } => (
                JudgeCase::RuntimeError(diagnostic),
                elapsed_ms,
                peak_memory_kb,
            ),
        };
        self.phase = Phase::Reporting;
        proof { self.reports@ = self.reports@.push(self.case as int); }
        assert(self.reports@ =~= case_numbers(self.case as int));
        Action::Report(
            JudgeResult {
                id: self.id.clone(),
                case: self.case as i32,
                result: verdict,
                time: usage(elapsed_ms),
                memory: usage(peak_memory_kb),
            },
        )
    }

    /// Takes the comparison of the current case's output and reports its verdict.
    pub fn compared(&mut self, comparison: CompareResult) -> (r: Action)
        requires
            old(self).wf(),
            old(self).spec_phase() == Phase::Comparing,
        ensures
            final(self).wf(),
            final(self).spec_id() == old(self).spec_id(),
            final(self).spec_total() == old(self).spec_total(),
            final(self).spec_case() == old(self).spec_case(),
            final(self).spec_runs() == old(self).spec_runs(),
            final(self).spec_phase() == Phase::Reporting,
            final(self).spec_reports() == old(self).spec_reports().push(old(self).spec_case()),
            r matches Action::Report(jr) && jr.case == old(self).spec_case() && jr.id@ == old(self).spec_id() && jr.result.model() == compare_verdict(comparison.model()) && jr.time
                == reported_usage(old(self).spec_usage().0) && jr.memory == reported_usage(
                old(self).spec_usage().1,
            ),
    {
        let verdict = match comparison {
            CompareResult::Match => JudgeCase::Accepted,
            CompareResult::Mismatch(m) => JudgeCase::WrongAnswer(m),
        };
        self.phase = Phase::Reporting;
        proof { self.reports@ = self.reports@.push(self.case as int); }
        assert(self.reports@ =~= case_numbers(self.case as int));
        Action::Report(
            JudgeResult {
                id: self.id.clone(),
                case: self.case as i32,
                result: verdict,
                time: usage(self.elapsed_ms),
                memory: usage(self.peak_memory_kb),
            },
        )
    }

    /// Takes the failure to read the current case's output or expected output:
    /// the case is reported as a runtime error carrying `diagnostic`.
    pub fn compare_failed(&mut self, diagnostic: String) -> (r: Action)
        requires
            old(self).wf(),
            old(self).spec_phase() == Phase::Comparing,
        ensures
            final(self).wf(),
            final(self).spec_id() == old(self).spec_id(),
            final(self).spec_total() == old(self).spec_total(),
            final(self).spec_case() == old(self).spec_case(),
            final(self).spec_runs() == old(self).spec_runs(),
            final(self).spec_phase() == Phase::Reporting,
            final(self).spec_reports() == old(self).spec_reports().push(old(self).spec_case()),
            r matches Action::Report(jr) && jr.case == old(self).spec_case() && jr.id@ == old(self).spec_id()
                && jr.result.model() == VerdictModel::RuntimeError(diagnostic@) && jr.time
                == reported_usage(old(self).spec_usage().0) && jr.memory == reported_usage(
                old(self).spec_usage().1,
            ),
    {
        self.phase = Phase::Reporting;
        proof { self.reports@ = self.reports@.push(self.case as int); }
        assert(self.reports@ =~= case_numbers(self.case as int));
        Action::Report(
            JudgeResult {
                id: self.id.clone(),
                case: self.case as i32,
                result: JudgeCase::RuntimeError(diagnostic),
                time: usage(self.elapsed_ms),
                memory: usage(self.peak_memory_kb),
            },
        )
    }

    /// Takes confirmation that the last result was handed to the reporter:
    /// runs the next case, or ends judging after a failed compile or the last case.
    pub fn reported(&mut self) -> (r: Action)
        requires
            old(self).wf(),
            old(self).spec_phase() == Phase::Reporting,
        ensures
            final(self).wf(),
            final(self).spec_id() == old(self).spec_id(),
            final(self).spec_total() == old(self).spec_total(),
            final(self).spec_compile_failed() == old(self).spec_compile_failed(),
            final(self).spec_reports() == old(self).spec_reports(),
            if old(self).spec_compile_failed() || old(self).spec_case() == old(self).spec_total() {
                r is Done && final(self).spec_phase() == Phase::Finished && final(self).spec_runs()
                    == old(self).spec_runs()
            } else {
                r matches Action::Run { case } && case == old(self).spec_case() + 1 && final(self).spec_case() == case && final(self).spec_phase() == Phase::Running && final(self).spec_runs() == old(self).spec_runs().push(case as int)
            },
    {
        if self.compile_failed || self.case == self.total {
            self.phase = Phase::Finished;
            Action::Done
        } else {
            self.case = self.case + 1;
            self.phase = Phase::Running;
            proof { self.runs@ = self.runs@.push(self.case as int); }
            assert(self.runs@ =~= case_numbers(self.case as int));
            assert(self.reports@ =~= case_numbers(self.case - 1));
            Action::Run { case: self.case }
        }
    }
}

/// Once judging is over, the reported case numbers are exactly `[0]` after a
/// failed compile, with no case run; otherwise every case was run and reported,
/// in ascending order `1..=total`, whatever the verdicts of the cases were.
pub proof fn lemma_finished_reports_every_case(j: &Judge)
    requires
        j.wf(),
        j.spec_phase() == Phase::Finished,
    ensures
        j.spec_compile_failed() ==> j.spec_reports() == seq![0int] && j.spec_runs().len() == 0,
        !j.spec_compile_failed() ==> j.spec_reports() == case_numbers(j.spec_total())
            && j.spec_runs() == case_numbers(j.spec_total()),
{
}

/// In every state, the reported case numbers are `1, 2, ...` in order with no
/// gap, each one a case that was run, or the single `0` of a failed compile.
pub proof fn lemma_reports_follow_runs(j: &Judge)
    requires
        j.wf(),
    ensures
        j.spec_compile_failed() ==> j.spec_runs().len() == 0 && j.spec_reports().len() <= 1
            && (forall|k: int| 0 <= k < j.spec_reports().len() ==> j.spec_reports()[k] == 0),
        !j.spec_compile_failed() ==> j.spec_reports().len() <= j.spec_runs().len() && (forall|
            k: int,
        | 0 <= k < j.spec_reports().len() ==> j.spec_reports()[k] == k + 1 && j.spec_runs()[k]
            == k + 1),
{
}

} // verus!
