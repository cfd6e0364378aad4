//! Exact, line-oriented output comparison with precise diagnostics.
use crate::lines::{lines_of, split_lines};
use crate::text::{char_text, char_vec, decimal_text, nat_text};
use vstd::prelude::*;

verus! {

/// What to do when one side still has lines after the other is exhausted.
#[derive(Clone, Copy, Debug, PartialEq, Eq, Structural)]
pub enum TrailingLines {
    /// Leftover lines on either side are not examined.
    Ignore,
    /// Leftover lines on either side are a mismatch.
    Reject,
}

/// The first difference found between produced and expected output.
/// Line and column numbers are 1-based.
#[derive(Clone, Copy, Debug, PartialEq, Eq, Structural)]
pub enum Finding {
    /// The produced line is longer than the expected one.
    TooLong { line: usize },
    /// The characters at `column` differ.
    Differ { line: usize, column: usize, read: char, expected: char },
    /// The produced output has a line that the expected output lacks.
    ExtraLine { line: usize },
    /// The expected output has a line that the produced output lacks.
    MissingLine { line: usize },
}

/// Outcome of a comparison.
#[derive(Debug)]
pub enum CompareResult {
    Match,
    Mismatch(String),
}

/// The first 0-based index at or after `j` where `p` and `e` differ, looking at
/// the positions of `p` only.
pub open spec fn first_diff(e: Seq<char>, p: Seq<char>, j: int) -> Option<int>
    decreases p.len() - j,
{
    if j < 0 || j >= p.len() {
        None
    } else if e[j] != p[j] {
        Some(j)
    } else {
        first_diff(e, p, j + 1)
    }
}

/// The finding for one pair of lines, `i` being the 0-based line index.
pub open spec fn line_finding(e: Seq<char>, p: Seq<char>, i: int) -> Option<Finding> {
    if e.len() < p.len() {
        Some(Finding::TooLong { line: (i + 1) as usize })
    } else {
        match first_diff(e, p, 0) {
            Some(j) => Some(
                Finding::Differ {
                    line: (i + 1) as usize,
                    column: (j + 1) as usize,
                    read: p[j],
                    expected: e[j],
                },
            ),
            None => None,
        }
    }
}

/// The finding once the shorter side is exhausted.
pub open spec fn trailing_finding(
    expected: Seq<Seq<char>>,
    produced: Seq<Seq<char>>,
    policy: TrailingLines,
) -> Option<Finding> {
    if policy == TrailingLines::Ignore {
        None
    } else if produced.len() > expected.len() {
        Some(Finding::ExtraLine { line: (expected.len() + 1) as usize })
    } else if expected.len() > produced.len() {
        Some(Finding::MissingLine { line: (produced.len() + 1) as usize })
    } else {
        None
    }
}

/// The first finding among the line pairs from index `i` on.
pub open spec fn scan_from(
    expected: Seq<Seq<char>>,
    produced: Seq<Seq<char>>,
    policy: TrailingLines,
    i: int,
) -> Option<Finding>
    decreases expected.len() - i,
{
    if i < 0 || i >= expected.len() || i >= produced.len() {
        trailing_finding(expected, produced, policy)
    } else {
        match line_finding(expected[i], produced[i], i) {
            Some(f) => Some(f),
            None => scan_from(expected, produced, policy, i + 1),
        }
    }
}

/// The first difference between two outputs given as lines.
pub open spec fn first_finding(
    expected: Seq<Seq<char>>,
    produced: Seq<Seq<char>>,
    policy: TrailingLines,
) -> Option<Finding> {
    scan_from(expected, produced, policy, 0)
}

/// The diagnostic text of a finding.
pub open spec fn finding_text(f: Finding) -> Seq<char> {
    match f {
        Finding::TooLong { line } => "output too long on line "@ + decimal_text(line as int),
        Finding::Differ { line, column, read, expected } => "line "@ + decimal_text(line as int)
            + " column "@ + decimal_text(column as int) + ": read "@ + seq![read]
            + ", expected "@ + seq![expected],
        Finding::ExtraLine { line } => "output too long: unexpected line "@ + decimal_text(
            line as int,
        ),
        Finding::MissingLine { line } => "output too short: missing line "@ + decimal_text(
            line as int,
        ),
    }
}

/// The comparison outcome, as a model: `None` for a match, else the diagnostic.
pub open spec fn comparison(
    expected: Seq<Seq<char>>,
    produced: Seq<Seq<char>>,
    policy: TrailingLines,
) -> Option<Seq<char>> {
    match first_finding(expected, produced, policy) {
        None => None,
        Some(f) => Some(finding_text(f)),
    }
}

impl CompareResult {
    /// The model of a result: `None` for a match, else the diagnostic.
    pub open spec fn model(&self) -> Option<Seq<char>> {
        match self {
            CompareResult::Match => None,
            CompareResult::Mismatch(m) => Some(m@),
        }
    }
}

/// The finding for one pair of lines.
pub fn check_line(expected: &str, produced: &str, i: usize) -> (r: Option<Finding>)
    requires
        i < usize::MAX,
    ensures
        r == line_finding(expected@, produced@, i as int),
{
    let e = char_vec(expected);
    let p = char_vec(produced);
    if e.len() < p.len() {
        return Some(Finding::TooLong { line: i + 1 });
    }
    let mut j: usize = 0;
    while j < p.len()
        invariant
            p@ == produced@,
            e@ == expected@,
            i < usize::MAX,
            p.len() <= e.len(),
            j <= p.len(),
            first_diff(e@, p@, 0) == first_diff(e@, p@, j as int),
        decreases p.len() - j,
    {
        if e[j] != p[j] {
            return Some(Finding::Differ { line: i + 1, column: j + 1, read: p[j], expected: e[j] });
        }
        j = j + 1;
    }
    None
}

/// The first difference between expected and produced output, given as lines.
pub fn find_mismatch(expected: &Vec<String>, produced: &Vec<String>, policy: TrailingLines) -> (r:
    Option<Finding>)
    ensures
        r == first_finding(expected.deep_view(), produced.deep_view(), policy),
{
    let ghost ev = expected.deep_view();
    let ghost pv = produced.deep_view();
    let mut i: usize = 0;
    while i < expected.len() && i < produced.len()
        invariant
            ev == expected.deep_view(),
            pv == produced.deep_view(),
            i <= expected.len(),
            i <= produced.len(),
            first_finding(ev, pv, policy) == scan_from(ev, pv, policy, i as int),
        decreases expected.len() - i,
    {
        let f = check_line(expected[i].as_str(), produced[i].as_str(), i);
        assert(ev[i as int] == expected[i as int]@);
        assert(pv[i as int] == produced[i as int]@);
        if f.is_some() {
            return f;
        }
        i = i + 1;
    }
    match policy {
        TrailingLines::Ignore => None,
        TrailingLines::Reject => {
            if produced.len() > expected.len() {
                Some(Finding::ExtraLine { line: expected.len() + 1 })
            } else if expected.len() > produced.len() {
                Some(Finding::MissingLine { line: produced.len() + 1 })
            } else {
                None
            }
        },
    }
}

fn append_number(s: &mut String, n: usize)
    ensures
        final(s)@ == old(s)@ + decimal_text(n as int),
{
    let t = nat_text(n as u64);
    s.append(t.as_str());
}

impl Finding {
    /// The diagnostic text of this finding.
    pub fn message(&self) -> (r: String)
        ensures
            r@ == finding_text(*self),
    {
        let mut s = String::new();
        match *self {
            Finding::TooLong { line } => {
                s.append("output too long on line ");
                append_number(&mut s, line);
            },
            Finding::Differ { line, column, read, expected } => {
                s.append("line ");
                append_number(&mut s, line);
                s.append(" column ");
                append_number(&mut s, column);
                s.append(": read ");
                let rt = char_text(read);
                s.append(rt.as_str());
                s.append(", expected ");
                let et = char_text(expected);
                s.append(et.as_str());
            },
            Finding::ExtraLine { line } => {
                s.append("output too long: unexpected line ");
                append_number(&mut s, line);
            },
            Finding::MissingLine { line } => {
                s.append("output too short: missing line ");
                append_number(&mut s, line);
            },
        }
        assert(s@ =~= finding_text(*self));
        s
    }
}

/// Compares produced output against expected output, both given as lines.
/// The comparison is exact and case-sensitive; `policy` decides whether
/// leftover lines on either side are a mismatch.
pub fn compare_lines(expected: &Vec<String>, produced: &Vec<String>, policy: TrailingLines) -> (r:
    CompareResult)
    ensures
        r.model() == comparison(expected.deep_view(), produced.deep_view(), policy),
{
    match find_mismatch(expected, produced, policy) {
        None => CompareResult::Match,
        Some(f) => CompareResult::Mismatch(f.message()),
    }
}

/// Compares produced output against expected output, both given as whole texts
/// that are split into lines first.
pub fn compare_texts(expected: &str, produced: &str, policy: TrailingLines) -> (r: CompareResult)
    ensures
        r.model() == comparison(lines_of(expected@), lines_of(produced@), policy),
{
    let e = split_lines(expected);
    let p = split_lines(produced);
    compare_lines(&e, &p, policy)
}

/// The comparison is a function of the two contents and the policy alone: two
/// runs on equal contents give the same outcome.
pub proof fn lemma_comparison_repeatable(
    expected: Seq<Seq<char>>,
    produced: Seq<Seq<char>>,
    policy: TrailingLines,
    first: CompareResult,
    second: CompareResult,
)
    requires
        first.model() == comparison(expected, produced, policy),
        second.model() == comparison(expected, produced, policy),
    ensures
        first.model() == second.model(),
{
}

} // verus!
