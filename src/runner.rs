use vstd::prelude::*;
use vstd::string::*;
use crate::assertion::AssertionResult;
use crate::report::{
    CaseRun, Report, aggregate, header_text, overall_of, render_header, report_text,
    total_assertions,
};

verus! {

/// A named, located test case whose body yields its assertion results.
pub struct TestCase<F> {
    pub name: String,
    pub file: String,
    pub line: u32,
    pub test_case_fn: F,
}

impl<F> TestCase<F> {
    /// Renders the header that introduces this case in a report.
    pub fn render(&self) -> (r: String)
        ensures
            r@ == header_text(self.name@, self.file@, self.line),
    {
        render_header(self.name.as_str(), self.file.as_str(), self.line)
    }
}

/// Runs one case: calls its body once and keeps what it returned, with the
/// case's name and location.
pub fn run_case<F: Fn() -> Vec<AssertionResult>>(case: &TestCase<F>) -> (r: CaseRun)
    requires
        case.test_case_fn.requires(()),
    ensures
        r.name@ == case.name@,
        r.file@ == case.file@,
        r.line == case.line,
        case.test_case_fn.ensures((), r.results),
{
    let results = (case.test_case_fn)();
    CaseRun { name: case.name.clone(), file: case.file.clone(), line: case.line, results }
}

/// Runs the cases in order, each body exactly once.
pub fn run_cases<F: Fn() -> Vec<AssertionResult>>(cases: &Vec<TestCase<F>>) -> (r: Vec<CaseRun>)
    requires
        forall|i: int| 0 <= i < cases.len() ==> (#[trigger] cases[i]).test_case_fn.requires(()),
    ensures
        r.len() == cases.len(),
        forall|i: int|
            0 <= i < cases.len() ==> {
                &&& (#[trigger] r[i]).name@ == cases[i].name@
                &&& r[i].file@ == cases[i].file@
                &&& r[i].line == cases[i].line
                &&& cases[i].test_case_fn.ensures((), r[i].results)
            },
{
    let mut runs: Vec<CaseRun> = Vec::new();
    let mut i: usize = 0;
    while i < cases.len()
        invariant
            i <= cases.len(),
            runs.len() == i,
            forall|j: int| 0 <= j < cases.len() ==> (#[trigger] cases[j]).test_case_fn.requires(()),
            forall|j: int|
                0 <= j < i ==> {
                    &&& (#[trigger] runs[j]).name@ == cases[j].name@
                    &&& runs[j].file@ == cases[j].file@
                    &&& runs[j].line == cases[j].line
                    &&& cases[j].test_case_fn.ensures((), runs[j].results)
                },
        decreases cases.len() - i,
    {
        let run = run_case(&cases[i]);
        runs.push(run);
        i = i + 1;
    }
    runs
}

/// The test cases of a suite, in the order they were added.
pub struct TestRegistry<F> {
    cases: Vec<TestCase<F>>,
}

/// What one run of a suite produced: each case's results, in order of
/// registration, and their aggregate (`None` only when the number of
/// assertion results does not fit in `usize`).
pub struct RunOutcome {
    pub runs: Vec<CaseRun>,
    pub report: Option<Report>,
}

impl<F: Fn() -> Vec<AssertionResult>> TestRegistry<F> {
    /// The registered cases, in order.
    pub closed spec fn cases(&self) -> Seq<TestCase<F>> {
        self.cases@
    }

    /// An empty registry.
    pub fn new() -> (r: Self)
        ensures
            r.cases() == Seq::<TestCase<F>>::empty(),
    {
        TestRegistry { cases: Vec::new() }
    }

    /// The number of registered cases.
    pub fn len(&self) -> (r: usize)
        ensures
            r == self.cases().len(),
    {
        self.cases.len()
    }

    /// Registers a case after those already there.
    pub fn add_case(&mut self, name: &str, file: &str, line: u32, body: F)
        ensures
            final(self).cases().len() == old(self).cases().len() + 1,
            final(self).cases().drop_last() == old(self).cases(),
            final(self).cases().last().name@ == name@,
            final(self).cases().last().file@ == file@,
            final(self).cases().last().line == line,
            final(self).cases().last().test_case_fn == body,
    {
        let case = TestCase {
            name: String::from_str(name),
            file: String::from_str(file),
            line,
            test_case_fn: body,
        };
        self.cases.push(case);
        assert(self.cases@.drop_last() =~= old(self).cases@);
    }

    /// Runs every case once, in order of registration, and aggregates the
    /// results into counters and a report.
    pub fn run(&self) -> (r: RunOutcome)
        requires
            forall|i: int|
                0 <= i < self.cases().len() ==> (#[trigger] self.cases()[i]).test_case_fn.requires(()),
        ensures
            r.runs.len() == self.cases().len(),
            forall|i: int|
                0 <= i < self.cases().len() ==> {
                    &&& (#[trigger] r.runs[i]).name@ == self.cases()[i].name@
                    &&& r.runs[i].file@ == self.cases()[i].file@
                    &&& r.runs[i].line == self.cases()[i].line
                    &&& self.cases()[i].test_case_fn.ensures((), r.runs[i].results)
                },
            r.report is Some <==> total_assertions(r.runs@) <= usize::MAX,
            r.report is Some ==> r.report->0.overall == overall_of(r.runs@),
            r.report is Some ==> r.report->0.text@ == report_text(
                r.runs@,
                overall_of(r.runs@),
            ),
    {
        assert forall|i: int| 0 <= i < self.cases.len() implies (
        #[trigger] self.cases@[i]).test_case_fn.requires(()) by {
            assert(self.cases()[i] == self.cases@[i]);
        }
        let runs = run_cases(&self.cases);
        let report = aggregate(&runs);
        RunOutcome { runs, report }
    }
}

} // verus!
