//! Verdicts, per-case results and their encoding for the reporting endpoint.
use crate::text::{decimal_text, int_text};
use vstd::prelude::*;

verus! {

/// The outcome classification for a single test case, or for a failed compile.
#[derive(Debug)]
pub enum JudgeCase {
    Accepted,
    WrongAnswer(String),
    RuntimeError(String),
    TimeLimitExceeded,
    MemoryLimitExceeded,
    CompileError(String),
}

/// One verdict with its case number and measured usage. Case 0 stands for a
/// failed compile; cases are otherwise numbered from 1.
#[derive(Debug)]
pub struct JudgeResult {
    pub id: String,
    pub case: i32,
    pub result: JudgeCase,
    pub time: i32,
    pub memory: i32,
}

/// A verdict as a model.
pub enum VerdictModel {
    Accepted,
    WrongAnswer(Seq<char>),
    RuntimeError(Seq<char>),
    TimeLimitExceeded,
    MemoryLimitExceeded,
    CompileError(Seq<char>),
}

impl JudgeCase {
    pub open spec fn model(&self) -> VerdictModel {
        match self {
            JudgeCase::Accepted => VerdictModel::Accepted,
            JudgeCase::WrongAnswer(m) => VerdictModel::WrongAnswer(m@),
            JudgeCase::RuntimeError(m) => VerdictModel::RuntimeError(m@),
            JudgeCase::TimeLimitExceeded => VerdictModel::TimeLimitExceeded,
            JudgeCase::MemoryLimitExceeded => VerdictModel::MemoryLimitExceeded,
            JudgeCase::CompileError(m) => VerdictModel::CompileError(m@),
        }
    }
}

/// The string form of a verdict that the reporting endpoint consumes.
pub open spec fn wire_text(v: JudgeCase) -> Seq<char> {
    match v {
        JudgeCase::Accepted => "Accepted"@,
        JudgeCase::WrongAnswer(m) => "WrongAnswer: "@ + m@,
        JudgeCase::RuntimeError(m) => "RuntimeError: "@ + m@,
        JudgeCase::TimeLimitExceeded => "TimeLimitExceeded"@,
        JudgeCase::MemoryLimitExceeded => "MemoryLimitExceeded"@,
        JudgeCase::CompileError(m) => "CompileError: "@ + m@,
    }
}

/// What serde_json writes for a string value: the text quoted and escaped.
pub uninterp spec fn json_string_of(s: Seq<char>) -> Seq<char>;

/// The JSON object sent for one result, fields in the order
/// `id`, `case`, `result`, `time`, `memory`.
pub open spec fn json_text(r: JudgeResult) -> Seq<char> {
    "{\"id\":"@ + json_string_of(r.id@) + ",\"case\":"@ + decimal_text(r.case as int)
        + ",\"result\":"@ + json_string_of(wire_text(r.result)) + ",\"time\":"@
        + decimal_text(r.time as int) + ",\"memory\":"@ + decimal_text(r.memory as int) + "}"@
}

/// Relies on `serde_json::to_string` on a `str`: the quoted, escaped JSON string.
/// Serializing a `str` into the in-memory buffer it writes to cannot fail.
#[verifier::external_body]
fn json_string(s: &str) -> (r: String)
    ensures
        r@ == json_string_of(s@),
{
    serde_json::to_string(s).unwrap_or_default()
}

impl JudgeCase {
    /// Renders the verdict in the string form the reporting endpoint consumes.
    pub fn wire(&self) -> (r: String)
        ensures
            r@ == wire_text(*self),
    {
        match self {
            JudgeCase::Accepted => String::from_str("Accepted"),
            JudgeCase::WrongAnswer(m) => String::from_str("WrongAnswer: ").concat(m.as_str()),
            JudgeCase::RuntimeError(m) => String::from_str("RuntimeError: ").concat(m.as_str()),
            JudgeCase::TimeLimitExceeded => String::from_str("TimeLimitExceeded"),
            JudgeCase::MemoryLimitExceeded => String::from_str("MemoryLimitExceeded"),
            JudgeCase::CompileError(m) => String::from_str("CompileError: ").concat(m.as_str()),
        }
    }
}

impl JudgeResult {
    /// Encodes this result as the JSON object the reporting endpoint consumes.
    pub fn to_json(&self) -> (r: String)
        ensures
            r@ == json_text(*self),
    {
        let mut s = String::from_str("{\"id\":");
        let id = json_string(self.id.as_str());
        s.append(id.as_str());
        s.append(",\"case\":");
        let c = int_text(self.case as i64);
        s.append(c.as_str());
        s.append(",\"result\":");
        let w = self.result.wire();
        let v = json_string(w.as_str());
        s.append(v.as_str());
        s.append(",\"time\":");
        let t = int_text(self.time as i64);
        s.append(t.as_str());
        s.append(",\"memory\":");
        let m = int_text(self.memory as i64);
        s.append(m.as_str());
        s.append("}");
        assert(s@ =~= json_text(*self));
        s
    }
}

} // verus!
