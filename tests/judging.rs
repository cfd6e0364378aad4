use judger::compare::{
    compare_lines, compare_texts, find_mismatch, CompareResult, Finding, TrailingLines,
};
use judger::lines::split_lines;
use judger::execution::{
    classify, watch, ExecutionOutcome, KillReason, Limits, RunReport, Termination, WatchAction,
};
use judger::judge::{Action, Judge, Phase};
use judger::text::{char_vec, int_text, nat_text};
use judger::toolchain::{
    case_output_path, compile_command, registry, CompileFailure, CompiledArtifact, ScratchPaths,
};
use judger::verdict::{JudgeCase, JudgeResult};

fn lines(items: &[&str]) -> Vec<String> {
    items.iter().map(|s| s.to_string()).collect()
}

fn mismatch_text(r: CompareResult) -> String {
    match r {
        CompareResult::Match => panic!("expected a mismatch"),
        CompareResult::Mismatch(m) => m,
    }
}

fn artifact() -> CompiledArtifact {
    CompiledArtifact { path: "./judge-s.bin".to_string(), language: "c++".to_string() }
}

fn limits() -> Limits {
    Limits { time_ms: 1000, memory_kb: 1000 }
}

fn report(termination: Termination, elapsed_ms: u64, peak_memory_kb: u64, killed: KillReason) -> RunReport {
    RunReport { termination, elapsed_ms, peak_memory_kb, killed }
}

#[test]
fn test_result() {
    let result = JudgeResult {
        id: "123".to_string(),
        result: JudgeCase::Accepted,
        case: 1,
        time: 100,
        memory: 100,
    };
    assert_eq!(result.result.wire(), "Accepted");
    assert_eq!(
        result.to_json(),
        "{\"id\":\"123\",\"case\":1,\"result\":\"Accepted\",\"time\":100,\"memory\":100}"
    );
}

#[test]
fn test_post() {
    let data = format!(
        "{{\
            \"id\":\"{}\",\
            \"case\":{},\
            \"result\":\"{}\",\
            \"time\":{},\
            \"memory\":{}\
        }}",
        "123".to_string(),
        1,
        "Accepted".to_string(),
        100,
        100
    );
    let result = JudgeResult {
        id: "123".to_string(),
        case: 1,
        result: JudgeCase::Accepted,
        time: 100,
        memory: 100,
    };
    assert_eq!(result.to_json(), data);
}

#[test]
fn test_compile() {
    let paths = ScratchPaths::for_submission("test");
    let result = compile_command("c++", "main.cpp", &paths.artifact);
    println!("{:?}", result);
    assert!(result.is_ok());
    let command = result.unwrap();
    assert_eq!(command.program, "g++");
    assert_eq!(
        command.args,
        vec!["main.cpp", "-std=c++14", "-O2", "-Wall", "-lm", "-DONLINE_JUDGE", "-o", "./judge-test.bin"]
    );
}

#[test]
fn test_judge_one_case() {
    let outcome = classify(report(Termination::Exited(0), 12, 300, KillReason::NotKilled), limits());
    println!("{:?}", outcome);
    assert!(matches!(
        outcome,
        ExecutionOutcome::Completed { elapsed_ms: 12, peak_memory_kb: 300 }
    ));
}

#[test]
fn test_compare_file() {
    let produced = lines(&["1 2 3", "hello"]);
    let expected = lines(&["1 2 3", "hello"]);
    let result = compare_lines(&expected, &produced, TrailingLines::Reject);
    println!("{:?}", result);
    assert!(matches!(result, CompareResult::Match));
}

#[test]
fn compare_equal_single_line_matches() {
    let r = compare_lines(&lines(&["5"]), &lines(&["5"]), TrailingLines::Reject);
    assert!(matches!(r, CompareResult::Match));
}

#[test]
fn compare_reports_first_differing_character() {
    // The length check comes first: "six" overruns the one-character line "5".
    let r = compare_lines(&lines(&["5"]), &lines(&["six"]), TrailingLines::Reject);
    assert_eq!(mismatch_text(r), "output too long on line 1");
    let r = compare_lines(&lines(&["5"]), &lines(&["s"]), TrailingLines::Reject);
    assert_eq!(mismatch_text(r), "line 1 column 1: read s, expected 5");
    let r = compare_lines(&lines(&["seven"]), &lines(&["six"]), TrailingLines::Reject);
    assert_eq!(mismatch_text(r), "line 1 column 2: read i, expected e");
}

#[test]
fn compare_reports_overlong_line() {
    let r = compare_lines(&lines(&["ab"]), &lines(&["abc"]), TrailingLines::Reject);
    assert_eq!(mismatch_text(r), "output too long on line 1");
}

#[test]
fn compare_reports_column_and_line() {
    let r = compare_lines(&lines(&["x", "hello"]), &lines(&["x", "help"]), TrailingLines::Reject);
    assert_eq!(mismatch_text(r), "line 2 column 4: read p, expected l");
    let f = find_mismatch(&lines(&["x", "hello"]), &lines(&["x", "help"]), TrailingLines::Ignore);
    assert_eq!(f, Some(Finding::Differ { line: 2, column: 4, read: 'p', expected: 'l' }));
}

#[test]
fn compare_shorter_prefix_line_matches() {
    let r = compare_lines(&lines(&["abc"]), &lines(&["ab"]), TrailingLines::Reject);
    assert!(matches!(r, CompareResult::Match));
}

#[test]
fn compare_trailing_lines_by_policy() {
    let expected = lines(&["1"]);
    let produced = lines(&["1", "2"]);
    assert!(matches!(
        compare_lines(&expected, &produced, TrailingLines::Ignore),
        CompareResult::Match
    ));
    let r = compare_lines(&expected, &produced, TrailingLines::Reject);
    assert_eq!(mismatch_text(r), "output too long: unexpected line 2");
    let r = compare_lines(&produced, &expected, TrailingLines::Reject);
    assert_eq!(mismatch_text(r), "output too short: missing line 2");
}

#[test]
fn compare_empty_outputs_match() {
    let r = compare_lines(&Vec::new(), &Vec::new(), TrailingLines::Reject);
    assert!(matches!(r, CompareResult::Match));
}

#[test]
fn compare_is_repeatable() {
    let expected = lines(&["5", "abc"]);
    let produced = lines(&["5", "abd"]);
    let a = mismatch_text(compare_lines(&expected, &produced, TrailingLines::Reject));
    let b = mismatch_text(compare_lines(&expected, &produced, TrailingLines::Reject));
    assert_eq!(a, b);
    assert_eq!(a, "line 2 column 3: read d, expected c");
}

#[test]
fn compare_non_ascii_characters() {
    let r = compare_lines(&lines(&["héllo"]), &lines(&["hallo"]), TrailingLines::Reject);
    assert_eq!(mismatch_text(r), "line 1 column 2: read a, expected é");
}

#[test]
fn unsupported_language_is_refused() {
    let r = compile_command("java", "Main.java", "./judge-x.bin");
    assert!(matches!(r, Err(CompileFailure::UnsupportedLanguage)));
    let r = compile_command("", "main.c", "./judge-x.bin");
    assert!(matches!(r, Err(CompileFailure::UnsupportedLanguage)));
}

#[test]
fn c_toolchain_flags() {
    let command = compile_command("c", "main.c", "./judge-7.bin").unwrap();
    assert_eq!(command.program, "gcc");
    assert_eq!(
        command.args,
        vec!["main.c", "-std=c11", "-O2", "-Wall", "-lm", "-DONLINE_JUDGE", "-o", "./judge-7.bin"]
    );
    assert_eq!(registry().len(), 2);
}

#[test]
fn scratch_paths_are_namespaced() {
    let paths = ScratchPaths::for_submission("42");
    assert_eq!(paths.artifact, "./judge-42.bin");
    assert_eq!(paths.diagnostics, "./judge-42.compile.txt");
    assert_eq!(case_output_path("42", 3), "./judge-42.case3.out");
    assert_ne!(case_output_path("42", 1), case_output_path("42", 2));
}

#[test]
fn watchdog_decisions() {
    assert_eq!(watch(999, 1000, limits()), WatchAction::Wait);
    assert_eq!(watch(1000, 10, limits()), WatchAction::KillForTime);
    assert_eq!(watch(10, 1001, limits()), WatchAction::KillForMemory);
    assert_eq!(watch(5000, 5000, limits()), WatchAction::KillForTime);
}

#[test]
fn endless_loop_is_time_limit_exceeded() {
    let outcome = classify(report(Termination::Signaled(9), 1003, 200, KillReason::Time), limits());
    assert!(matches!(outcome, ExecutionOutcome::TimeLimitExceeded { elapsed_ms: 1003, .. }));
}

#[test]
fn huge_allocation_is_memory_limit_exceeded() {
    let by_watchdog = classify(report(Termination::Signaled(9), 40, 5000, KillReason::Memory), limits());
    assert!(matches!(by_watchdog, ExecutionOutcome::MemoryLimitExceeded { .. }));
    let by_system = classify(report(Termination::Signaled(9), 40, 1000, KillReason::NotKilled), limits());
    assert!(matches!(by_system, ExecutionOutcome::MemoryLimitExceeded { .. }));
}

#[test]
fn crashes_are_runtime_errors() {
    match classify(report(Termination::Signaled(11), 5, 100, KillReason::NotKilled), limits()) {
        ExecutionOutcome::RuntimeError { diagnostic, .. } => assert_eq!(diagnostic, "killed by signal 11"),
        other => panic!("unexpected {:?}", other),
    }
    match classify(report(Termination::Exited(-3), 5, 100, KillReason::NotKilled), limits()) {
        ExecutionOutcome::RuntimeError { diagnostic, .. } => assert_eq!(diagnostic, "exit code -3"),
        other => panic!("unexpected {:?}", other),
    }
}

fn expect_report(a: Action) -> JudgeResult {
    match a {
        Action::Report(r) => r,
        other => panic!("expected a report, got {:?}", other),
    }
}

#[test]
fn crash_in_middle_case_still_runs_the_rest() {
    let mut judge = Judge::new("s1".to_string(), 3);
    assert!(matches!(judge.start(), Action::Compile));
    let mut reported = Vec::new();
    let mut action = judge.compiled(Ok(artifact()));
    loop {
        action = match action {
            Action::Run { case } => {
                let outcome = if case == 2 {
                    classify(report(Termination::Signaled(11), 3, 10, KillReason::NotKilled), limits())
                } else {
                    classify(report(Termination::Exited(0), 3, 10, KillReason::NotKilled), limits())
                };
                judge.executed(outcome)
            }
            Action::Compare { .. } => judge.compared(CompareResult::Match),
            Action::Report(r) => {
                reported.push((r.case, r.result.wire()));
                judge.reported()
            }
            Action::Done => break,
            Action::Compile => panic!("compile asked twice"),
        };
    }
    assert_eq!(
        reported,
        vec![
            (1, "Accepted".to_string()),
            (2, "RuntimeError: killed by signal 11".to_string()),
            (3, "Accepted".to_string()),
        ]
    );
    assert_eq!(judge.phase(), Phase::Finished);
}

#[test]
fn compile_failure_reports_case_zero_only() {
    let mut judge = Judge::new("s2".to_string(), 2);
    let r = expect_report(judge.compiled(Err(CompileFailure::Diagnostics("main.cpp:1: error".to_string()))));
    assert_eq!(r.case, 0);
    assert_eq!(r.time, 0);
    assert_eq!(r.memory, 0);
    assert_eq!(r.id, "s2");
    assert_eq!(r.result.wire(), "CompileError: main.cpp:1: error");
    assert!(matches!(judge.reported(), Action::Done));
    assert_eq!(judge.phase(), Phase::Finished);
}

#[test]
fn wrong_answer_carries_diagnostic_and_usage() {
    let mut judge = Judge::new("s3".to_string(), 1);
    assert!(matches!(judge.compiled(Ok(artifact())), Action::Run { case: 1 }));
    let outcome = classify(report(Termination::Exited(0), 77, 512, KillReason::NotKilled), limits());
    assert!(matches!(judge.executed(outcome), Action::Compare { case: 1 }));
    let cmp = compare_lines(&lines(&["5"]), &lines(&["s"]), TrailingLines::Reject);
    let r = expect_report(judge.compared(cmp));
    assert_eq!(r.case, 1);
    assert_eq!(r.time, 77);
    assert_eq!(r.memory, 512);
    assert_eq!(r.result.wire(), "WrongAnswer: line 1 column 1: read s, expected 5");
    assert!(matches!(judge.reported(), Action::Done));
}

#[test]
fn limit_verdicts_and_capped_usage() {
    let mut judge = Judge::new("s4".to_string(), 2);
    judge.compiled(Ok(artifact()));
    let tle = classify(report(Termination::Signaled(9), 5_000_000_000, 1, KillReason::Time), limits());
    let r = expect_report(judge.executed(tle));
    assert_eq!(r.result.wire(), "TimeLimitExceeded");
    assert_eq!(r.time, i32::MAX);
    assert!(matches!(judge.reported(), Action::Run { case: 2 }));
    let mle = classify(report(Termination::Signaled(9), 1, 9999, KillReason::Memory), limits());
    let r = expect_report(judge.executed(mle));
    assert_eq!(r.case, 2);
    assert_eq!(r.result.wire(), "MemoryLimitExceeded");
    assert!(matches!(judge.reported(), Action::Done));
}

#[test]
fn no_cases_ends_after_compile() {
    let mut judge = Judge::new("s5".to_string(), 0);
    assert!(matches!(judge.compiled(Ok(artifact())), Action::Done));
}

#[test]
fn json_escapes_strings() {
    let result = JudgeResult {
        id: "a\"b".to_string(),
        case: -1,
        result: JudgeCase::WrongAnswer("x\ny".to_string()),
        time: 0,
        memory: 7,
    };
    assert_eq!(
        result.to_json(),
        "{\"id\":\"a\\\"b\",\"case\":-1,\"result\":\"WrongAnswer: x\\ny\",\"time\":0,\"memory\":7}"
    );
}

#[test]
fn wire_forms_of_verdicts() {
    assert_eq!(JudgeCase::RuntimeError("e".to_string()).wire(), "RuntimeError: e");
    assert_eq!(JudgeCase::TimeLimitExceeded.wire(), "TimeLimitExceeded");
    assert_eq!(JudgeCase::MemoryLimitExceeded.wire(), "MemoryLimitExceeded");
    assert_eq!(JudgeCase::CompileError("c".to_string()).wire(), "CompileError: c");
}

#[test]
fn decimal_rendering() {
    assert_eq!(nat_text(0), "0");
    assert_eq!(nat_text(1234567890), "1234567890");
    assert_eq!(int_text(-123), "-123");
    assert_eq!(int_text(i64::MIN), "-9223372036854775808");
    assert_eq!(char_vec("aé"), vec!['a', 'é']);
}

#[test]
fn unsupported_language_reports_compile_error() {
    let mut judge = Judge::new("s6".to_string(), 1);
    let r = expect_report(judge.compiled(Err(CompileFailure::UnsupportedLanguage)));
    assert_eq!(r.case, 0);
    assert_eq!(r.result.wire(), "CompileError: language not supported");
    assert!(matches!(judge.reported(), Action::Done));
}

#[test]
fn unreadable_output_is_runtime_error() {
    let mut judge = Judge::new("s7".to_string(), 1);
    judge.compiled(Ok(artifact()));
    let outcome = classify(report(Termination::Exited(0), 1, 1, KillReason::NotKilled), limits());
    judge.executed(outcome);
    let r = expect_report(judge.compare_failed("file format error".to_string()));
    assert_eq!(r.case, 1);
    assert_eq!(r.result.wire(), "RuntimeError: file format error");
}

#[test]
fn split_lines_like_buffered_reading() {
    assert_eq!(split_lines(""), Vec::<String>::new());
    assert_eq!(split_lines("5\n"), vec!["5"]);
    assert_eq!(split_lines("a\r\nb"), vec!["a", "b"]);
    assert_eq!(split_lines("a\n\nb\n"), vec!["a", "", "b"]);
    assert_eq!(split_lines("\n"), vec![""]);
    assert_eq!(split_lines("x\r"), vec!["x"]);
}

#[test]
fn compare_whole_texts() {
    assert!(matches!(compare_texts("5\n", "5\n", TrailingLines::Reject), CompareResult::Match));
    assert!(matches!(compare_texts("5\r\n", "5", TrailingLines::Reject), CompareResult::Match));
    assert_eq!(
        mismatch_text(compare_texts("ab\n", "abc\n", TrailingLines::Reject)),
        "output too long on line 1"
    );
    assert_eq!(
        mismatch_text(compare_texts("5\n", "s\n", TrailingLines::Reject)),
        "line 1 column 1: read s, expected 5"
    );
    assert_eq!(
        mismatch_text(compare_texts("1\n2\n", "1\n", TrailingLines::Reject)),
        "output too short: missing line 2"
    );
}
