use vstd::prelude::*;
use vstd::string::*;
use crate::assertion::{AssertionResult, AssertionState, passed, result_text};
use crate::text::{decimal, push_decimal};

verus! {

/// What one executed test case produced: its name, where it was written, and
/// its assertion results in order.
pub struct CaseRun {
    pub name: String,
    pub file: String,
    pub line: u32,
    pub results: Vec<AssertionResult>,
}

/// The counters of one full run.
#[derive(PartialEq, Eq, Structural, Clone, Copy, Debug)]
pub struct OverAllResults {
    pub test_cases: usize,
    pub assertions: usize,
    pub failed_assertions: usize,
    pub failed: usize,
}

/// The number of failed results.
pub open spec fn failed_in(rs: Seq<AssertionResult>) -> nat
    decreases rs.len(),
{
    if rs.len() == 0 {
        0
    } else {
        failed_in(rs.drop_last()) + if passed(rs.last()) {
            0nat
        } else {
            1nat
        }
    }
}

/// The number of assertion results over all runs.
pub open spec fn total_assertions(runs: Seq<CaseRun>) -> nat
    decreases runs.len(),
{
    if runs.len() == 0 {
        0
    } else {
        total_assertions(runs.drop_last()) + runs.last().results@.len()
    }
}

/// The number of failed assertion results over all runs.
pub open spec fn total_failed(runs: Seq<CaseRun>) -> nat
    decreases runs.len(),
{
    if runs.len() == 0 {
        0
    } else {
        total_failed(runs.drop_last()) + failed_in(runs.last().results@)
    }
}

/// The number of runs with at least one failed result.
pub open spec fn failed_cases(runs: Seq<CaseRun>) -> nat
    decreases runs.len(),
{
    if runs.len() == 0 {
        0
    } else {
        failed_cases(runs.drop_last()) + if failed_in(runs.last().results@) > 0 {
            1nat
        } else {
            0nat
        }
    }
}

/// The counters of a collection of runs.
pub open spec fn overall_of(runs: Seq<CaseRun>) -> OverAllResults {
    OverAllResults {
        test_cases: runs.len() as usize,
        assertions: total_assertions(runs) as usize,
        failed_assertions: total_failed(runs) as usize,
        failed: failed_cases(runs) as usize,
    }
}

proof fn failed_in_bounded(rs: Seq<AssertionResult>)
    ensures
        failed_in(rs) <= rs.len(),
    decreases rs.len(),
{
    if rs.len() > 0 {
        failed_in_bounded(rs.drop_last());
    }
}

proof fn totals_bounded(runs: Seq<CaseRun>)
    ensures
        total_failed(runs) <= total_assertions(runs),
        failed_cases(runs) <= runs.len(),
    decreases runs.len(),
{
    if runs.len() > 0 {
        totals_bounded(runs.drop_last());
        failed_in_bounded(runs.last().results@);
    }
}

proof fn total_assertions_of_prefix(runs: Seq<CaseRun>, i: int)
    requires
        0 <= i <= runs.len(),
    ensures
        total_assertions(runs.take(i)) <= total_assertions(runs),
    decreases runs.len(),
{
    if i < runs.len() {
        assert(runs.drop_last().take(i) =~= runs.take(i));
        total_assertions_of_prefix(runs.drop_last(), i);
    } else {
        assert(runs.take(i) =~= runs);
    }
}

/// Counts the failed results.
fn count_failed(results: &Vec<AssertionResult>) -> (n: usize)
    ensures
        n == failed_in(results@),
{
    let mut n: usize = 0;
    let mut i: usize = 0;
    while i < results.len()
        invariant
            i <= results.len(),
            n == failed_in(results@.take(i as int)),
            n <= i,
        decreases results.len() - i,
    {
        assert(results@.take(i as int + 1).drop_last() =~= results@.take(i as int));
        if results[i].state == AssertionState::Failed {
            n = n + 1;
        }
        i = i + 1;
    }
    assert(results@.take(i as int) =~= results@);
    n
}

/// Tallies the counters of a run: the number of cases, of assertion results,
/// of failed results, and of cases with a failed result. `None` only when the
/// number of assertion results does not fit in `usize`.
pub fn tally(runs: &Vec<CaseRun>) -> (r: Option<OverAllResults>)
    ensures
        r is Some <==> total_assertions(runs@) <= usize::MAX,
        r is Some ==> r == Some(overall_of(runs@)),
        r is Some ==> {
            &&& r->0.test_cases == runs@.len()
            &&& r->0.assertions == total_assertions(runs@)
            &&& r->0.failed_assertions == total_failed(runs@)
            &&& r->0.failed == failed_cases(runs@)
        },
{
    let mut assertions: usize = 0;
    let mut failed_assertions: usize = 0;
    let mut failed: usize = 0;
    let mut i: usize = 0;
    while i < runs.len()
        invariant
            i <= runs.len(),
            assertions == total_assertions(runs@.take(i as int)),
            failed_assertions == total_failed(runs@.take(i as int)),
            failed == failed_cases(runs@.take(i as int)),
            failed_assertions <= assertions,
            failed <= i,
        decreases runs.len() - i,
    {
        let ghost next = runs@.take(i as int + 1);
        assert(next.drop_last() =~= runs@.take(i as int));
        let len = runs[i].results.len();
        if assertions > usize::MAX - len {
            proof {
                total_assertions_of_prefix(runs@, i as int + 1);
            }
            return None;
        }
        let n = count_failed(&runs[i].results);
        proof {
            failed_in_bounded(runs@[i as int].results@);
        }
        assertions = assertions + len;
        failed_assertions = failed_assertions + n;
        if n > 0 {
            failed = failed + 1;
        }
        i = i + 1;
    }
    assert(runs@.take(i as int) =~= runs@);
    Some(OverAllResults { test_cases: runs.len(), assertions, failed_assertions, failed })
}

/// The summary line: none run, all passed, or how many failed.
pub open spec fn summary_text(o: OverAllResults) -> Seq<char> {
    if o.test_cases == 0 {
        "No tests were run."@
    } else if o.failed == 0 {
        "All tests passed ("@ + decimal(o.assertions as nat) + " assertions in "@ + decimal(
            o.test_cases as nat,
        ) + " test cases)."@
    } else {
        decimal(o.failed as nat) + " tests failed out of "@ + decimal(o.test_cases as nat)
            + " test cases ("@ + decimal(o.failed_assertions as nat) + " failed in "@ + decimal(
            o.assertions as nat,
        ) + " assertions)."@
    }
}

impl OverAllResults {
    /// Renders the summary line of these counters.
    pub fn render(&self) -> (r: String)
        ensures
            r@ == summary_text(*self),
    {
        if self.test_cases == 0 {
            String::from_str("No tests were run.")
        } else if self.failed == 0 {
            let mut s = String::from_str("All tests passed (");
            push_decimal(&mut s, self.assertions);
            s.append(" assertions in ");
            push_decimal(&mut s, self.test_cases);
            s.append(" test cases).");
            s
        } else {
            let mut s = String::new();
            push_decimal(&mut s, self.failed);
            s.append(" tests failed out of ");
            push_decimal(&mut s, self.test_cases);
            s.append(" test cases (");
            push_decimal(&mut s, self.failed_assertions);
            s.append(" failed in ");
            push_decimal(&mut s, self.assertions);
            s.append(" assertions).");
            assert(s@ =~= summary_text(*self));
            s
        }
    }

    /// The exit status of the process after a run: 0 when no case failed,
    /// else 1.
    pub fn exit_status(&self) -> (r: i32)
        ensures
            r == (if self.failed == 0 {
                0i32
            } else {
                1i32
            }),
    {
        if self.failed == 0 {
            0
        } else {
            1
        }
    }
}

/// The header of a case in a report: its name and location between rules.
pub open spec fn header_text(name: Seq<char>, file: Seq<char>, line: u32) -> Seq<char> {
    "\n-------------------------------------------------------------------------------\n"@ + name
        + "\n-------------------------------------------------------------------------------\n"@
        + file + ":"@ + decimal(line as nat)
        + "\n..............................................................................."@
}

/// Renders the header of a case.
pub fn render_header(name: &str, file: &str, line: u32) -> (r: String)
    ensures
        r@ == header_text(name@, file@, line),
{
    let mut s = String::from_str(
        "\n-------------------------------------------------------------------------------\n",
    );
    s.append(name);
    s.append("\n-------------------------------------------------------------------------------\n");
    s.append(file);
    s.append(":");
    push_decimal(&mut s, line as usize);
    s.append("\n...............................................................................");
    s
}

/// The lines that show the failed results, in order, each block followed by
/// a line break; passed results are not shown.
pub open spec fn failure_lines(rs: Seq<AssertionResult>) -> Seq<char>
    decreases rs.len(),
{
    if rs.len() == 0 {
        Seq::empty()
    } else {
        failure_lines(rs.drop_last()) + if passed(rs.last()) {
            Seq::<char>::empty()
        } else {
            result_text(rs.last()) + "\n"@
        }
    }
}

/// The part of a report for one run: nothing when all its results passed,
/// else its header and its failed results.
pub open spec fn case_section(run: CaseRun) -> Seq<char> {
    if failed_in(run.results@) > 0 {
        header_text(run.name@, run.file@, run.line) + "\n"@ + failure_lines(run.results@)
    } else {
        Seq::empty()
    }
}

/// The sections of all runs, in order.
pub open spec fn sections(runs: Seq<CaseRun>) -> Seq<char>
    decreases runs.len(),
{
    if runs.len() == 0 {
        Seq::empty()
    } else {
        sections(runs.drop_last()) + case_section(runs.last())
    }
}

/// The whole report: the sections of the failed cases, a rule, and the
/// summary line.
pub open spec fn report_text(runs: Seq<CaseRun>, o: OverAllResults) -> Seq<char> {
    sections(runs)
        + "===============================================================================\n"@
        + summary_text(o) + "\n"@
}

fn push_failures(s: &mut String, results: &Vec<AssertionResult>)
    ensures
        final(s)@ == old(s)@ + failure_lines(results@),
{
    let mut i: usize = 0;
    while i < results.len()
        invariant
            i <= results.len(),
            s@ == old(s)@ + failure_lines(results@.take(i as int)),
        decreases results.len() - i,
    {
        assert(results@.take(i as int + 1).drop_last() =~= results@.take(i as int));
        if results[i].state == AssertionState::Failed {
            let block = results[i].render();
            s.append(block.as_str());
            s.append("\n");
        }
        assert(s@ =~= old(s)@ + failure_lines(results@.take(i as int + 1)));
        i = i + 1;
    }
    assert(results@.take(i as int) =~= results@);
}

/// Renders the report of a run: a section for each case with a failed result
/// (its header, then each failed result), a rule, and the summary line of `o`.
pub fn render_report(runs: &Vec<CaseRun>, o: &OverAllResults) -> (r: String)
    ensures
        r@ == report_text(runs@, *o),
{
    let mut s = String::new();
    let mut i: usize = 0;
    while i < runs.len()
        invariant
            i <= runs.len(),
            s@ == sections(runs@.take(i as int)),
        decreases runs.len() - i,
    {
        assert(runs@.take(i as int + 1).drop_last() =~= runs@.take(i as int));
        let run = &runs[i];
        let n = count_failed(&run.results);
        if n > 0 {
            let header = render_header(run.name.as_str(), run.file.as_str(), run.line);
            s.append(header.as_str());
            s.append("\n");
            push_failures(&mut s, &run.results);
        }
        assert(s@ =~= sections(runs@.take(i as int + 1)));
        i = i + 1;
    }
    assert(runs@.take(i as int) =~= runs@);
    s.append("===============================================================================\n");
    let summary = o.render();
    s.append(summary.as_str());
    s.append("\n");
    assert(s@ =~= report_text(runs@, *o));
    s
}

/// The counters of a run and its rendered report.
pub struct Report {
    pub overall: OverAllResults,
    pub text: String,
}

/// Aggregates the runs of the cases: their counters and the report text.
/// `None` only when the number of assertion results does not fit in `usize`.
pub fn aggregate(runs: &Vec<CaseRun>) -> (r: Option<Report>)
    ensures
        r is Some <==> total_assertions(runs@) <= usize::MAX,
        r is Some ==> r->0.overall == overall_of(runs@),
        r is Some ==> r->0.text@ == report_text(runs@, overall_of(runs@)),
{
    match tally(runs) {
        Some(overall) => {
            let text = render_report(runs, &overall);
            Some(Report { overall, text })
        },
        None => None,
    }
}

/// What the report shows of an assertion result.
pub open spec fn result_view(r: AssertionResult) -> (
    AssertionState,
    Seq<char>,
    u32,
    Seq<char>,
    Seq<char>,
) {
    (r.state, r.file@, r.line, r.message@, r.assertion_text@)
}

/// What the aggregation reads of a run.
pub open spec fn run_view(r: CaseRun) -> (
    Seq<char>,
    Seq<char>,
    u32,
    Seq<(AssertionState, Seq<char>, u32, Seq<char>, Seq<char>)>,
) {
    (r.name@, r.file@, r.line, r.results@.map_values(|x: AssertionResult| result_view(x)))
}

proof fn results_alike(x: Seq<AssertionResult>, y: Seq<AssertionResult>)
    requires
        x.map_values(|r: AssertionResult| result_view(r)) == y.map_values(
            |r: AssertionResult| result_view(r),
        ),
    ensures
        x.len() == y.len(),
        failed_in(x) == failed_in(y),
        failure_lines(x) == failure_lines(y),
    decreases x.len(),
{
    assert(x.len() == x.map_values(|r: AssertionResult| result_view(r)).len());
    if x.len() > 0 {
        let last = x.len() - 1;
        assert(x.drop_last().map_values(|r: AssertionResult| result_view(r)) =~= y.drop_last().map_values(
            |r: AssertionResult| result_view(r),
        )) by {
            assert forall|k: int| 0 <= k < x.len() - 1 implies result_view(x[k]) == result_view(y[k]) by {
                assert(x.map_values(|r: AssertionResult| result_view(r))[k] == result_view(x[k]));
                assert(y.map_values(|r: AssertionResult| result_view(r))[k] == result_view(y[k]));
            }
        }
        assert(x.map_values(|r: AssertionResult| result_view(r))[last] == result_view(x[last]));
        assert(y.map_values(|r: AssertionResult| result_view(r))[last] == result_view(y[last]));
        results_alike(x.drop_last(), y.drop_last());
    }
}

proof fn runs_alike(a: Seq<CaseRun>, b: Seq<CaseRun>)
    requires
        a.map_values(|r: CaseRun| run_view(r)) == b.map_values(|r: CaseRun| run_view(r)),
    ensures
        a.len() == b.len(),
        total_assertions(a) == total_assertions(b),
        total_failed(a) == total_failed(b),
        failed_cases(a) == failed_cases(b),
        sections(a) == sections(b),
    decreases a.len(),
{
    assert(a.len() == a.map_values(|r: CaseRun| run_view(r)).len());
    assert(b.len() == b.map_values(|r: CaseRun| run_view(r)).len());
    if a.len() > 0 {
        let last = a.len() - 1;
        assert(a.drop_last().map_values(|r: CaseRun| run_view(r)) =~= b.drop_last().map_values(
            |r: CaseRun| run_view(r),
        )) by {
            assert forall|k: int| 0 <= k < a.len() - 1 implies run_view(a[k]) == run_view(b[k]) by {
                assert(a.map_values(|r: CaseRun| run_view(r))[k] == run_view(a[k]));
                assert(b.map_values(|r: CaseRun| run_view(r))[k] == run_view(b[k]));
            }
        }
        assert(a.map_values(|r: CaseRun| run_view(r))[last] == run_view(a[last]));
        assert(b.map_values(|r: CaseRun| run_view(r))[last] == run_view(b[last]));
        runs_alike(a.drop_last(), b.drop_last());
        results_alike(a[last].results@, b[last].results@);
    }
}

/// Aggregation reads nothing but the collection of runs: two collections
/// whose runs show the same names, locations and results give the same
/// counters and the same report text, so aggregating the same runs again
/// gives identical output.
pub proof fn aggregation_is_deterministic(a: Seq<CaseRun>, b: Seq<CaseRun>)
    requires
        a.map_values(|r: CaseRun| run_view(r)) == b.map_values(|r: CaseRun| run_view(r)),
    ensures
        overall_of(a) == overall_of(b),
        report_text(a, overall_of(a)) == report_text(b, overall_of(b)),
{
    runs_alike(a, b);
}

} // verus!
