use tas::{
    aggregate, equal_to, render_report, tally, AssertionResult, AssertionState, CaseRecorder,
    CaseRun, Matcher, OverAllResults, TestCase, TestRegistry,
};

use AssertionState::{Failed, Passed};

type Body = fn() -> Vec<AssertionResult>;

fn single_true_requirement() -> Vec<AssertionResult> {
    let mut rec = CaseRecorder::new();
    rec.require(true, "true", "suite.rs", 3);
    rec.finish()
}

fn five_is_six() -> Vec<AssertionResult> {
    let mut rec = CaseRecorder::new();
    let m = equal_to(6);
    rec.require_that(m.matches(&5), &m.describe(), "5", "equal_to(6)", "suite.rs", 8);
    rec.finish()
}

fn mixed_checks() -> Vec<AssertionResult> {
    let mut rec = CaseRecorder::new();
    rec.check(true, "true", "suite.rs", 11);
    rec.check(false, "false", "suite.rs", 12);
    rec.check(true, "true", "suite.rs", 13);
    rec.finish()
}

fn result(state: AssertionState) -> AssertionResult {
    AssertionResult {
        state,
        file: String::from("f.rs"),
        line: 1,
        message: String::from("m"),
        assertion_text: String::from("t"),
    }
}

fn case_run(name: &str, states: &[AssertionState]) -> CaseRun {
    CaseRun {
        name: String::from(name),
        file: String::from("f.rs"),
        line: 5,
        results: states.iter().map(|s| result(*s)).collect(),
    }
}

#[test]
fn no_cases_report_nothing_run() {
    let registry: TestRegistry<Body> = TestRegistry::new();
    let outcome = registry.run();
    let report = outcome.report.unwrap();
    assert_eq!(report.overall.test_cases, 0);
    assert_eq!(report.overall.render(), "No tests were run.");
    assert_eq!(report.overall.exit_status(), 0);
    assert!(report.text.ends_with("No tests were run.\n"));
}

#[test]
fn one_passing_requirement() {
    let mut registry: TestRegistry<Body> = TestRegistry::new();
    registry.add_case("passes", "suite.rs", 2, single_true_requirement);
    let outcome = registry.run();
    let report = outcome.report.unwrap();
    assert_eq!(report.overall.assertions, 1);
    assert_eq!(report.overall.failed_assertions, 0);
    assert_eq!(report.overall.failed, 0);
    assert_eq!(report.overall.exit_status(), 0);
    assert_eq!(report.overall.render(), "All tests passed (1 assertions in 1 test cases).");
    assert_eq!(
        report.text,
        "===============================================================================\n\
         All tests passed (1 assertions in 1 test cases).\n"
    );
}

#[test]
fn one_failing_matcher_requirement() {
    let mut registry: TestRegistry<Body> = TestRegistry::new();
    registry.add_case("five is six", "suite.rs", 7, five_is_six);
    let outcome = registry.run();
    let report = outcome.report.unwrap();
    assert_eq!(report.overall.assertions, 1);
    assert_eq!(report.overall.failed_assertions, 1);
    assert_eq!(report.overall.failed, 1);
    assert_eq!(report.overall.exit_status(), 1);
    assert!(report.text.contains("Expected `6` but was 5"));
    assert!(report.text.contains("\nfive is six\n"));
    assert!(report.text.ends_with("1 tests failed out of 1 test cases (1 failed in 1 assertions).\n"));
}

#[test]
fn accumulating_case_counted_once() {
    let mut registry: TestRegistry<Body> = TestRegistry::new();
    registry.add_case("mixed", "suite.rs", 10, mixed_checks);
    let outcome = registry.run();
    assert_eq!(outcome.runs.len(), 1);
    assert_eq!(outcome.runs[0].results.len(), 3);
    let report = outcome.report.unwrap();
    assert_eq!(report.overall.assertions, 3);
    assert_eq!(report.overall.failed_assertions, 1);
    assert_eq!(report.overall.failed, 1);
    assert_eq!(report.text.matches("FAILED:").count(), 1);
    assert_eq!(report.text.matches("PASSED:").count(), 0);
}

#[test]
fn cases_run_in_registration_order() {
    let mut registry: TestRegistry<Body> = TestRegistry::new();
    registry.add_case("first", "suite.rs", 1, mixed_checks);
    registry.add_case("second", "suite.rs", 2, single_true_requirement);
    registry.add_case("third", "suite.rs", 3, five_is_six);
    assert_eq!(registry.len(), 3);
    let outcome = registry.run();
    let names: Vec<&str> = outcome.runs.iter().map(|r| r.name.as_str()).collect();
    assert_eq!(names, vec!["first", "second", "third"]);
    let report = outcome.report.unwrap();
    assert_eq!(report.overall.render(), "2 tests failed out of 3 test cases (2 failed in 5 assertions).");
    let first = report.text.find("\nfirst\n").unwrap();
    let third = report.text.find("\nthird\n").unwrap();
    assert!(first < third);
    assert!(!report.text.contains("\nsecond\n"));
}

#[test]
fn tally_sums_over_cases() {
    let runs = vec![
        case_run("a", &[Passed, Failed, Failed]),
        case_run("b", &[Passed, Passed]),
        case_run("c", &[]),
        case_run("d", &[Failed]),
    ];
    let o = tally(&runs).unwrap();
    assert_eq!(
        o,
        OverAllResults { test_cases: 4, assertions: 6, failed_assertions: 3, failed: 2 }
    );
}

#[test]
fn aggregating_twice_is_identical() {
    let runs = vec![case_run("a", &[Passed, Failed]), case_run("b", &[Passed])];
    let first = aggregate(&runs).unwrap();
    let second = aggregate(&runs).unwrap();
    assert_eq!(first.overall, second.overall);
    assert_eq!(first.text, second.text);
}

#[test]
fn same_counters_render_same_summary() {
    let a = OverAllResults { test_cases: 12, assertions: 340, failed_assertions: 7, failed: 3 };
    let b = OverAllResults { test_cases: 12, assertions: 340, failed_assertions: 7, failed: 3 };
    assert_eq!(a.render(), b.render());
    assert_eq!(a.render(), "3 tests failed out of 12 test cases (7 failed in 340 assertions).");
}

#[test]
fn summary_renders_large_counts() {
    let o = OverAllResults { test_cases: 1000000007, assertions: 4294967295, failed_assertions: 0, failed: 0 };
    assert_eq!(o.render(), "All tests passed (4294967295 assertions in 1000000007 test cases).");
}

#[test]
fn report_shows_failed_case_block() {
    let runs = vec![case_run("broken", &[Passed, Failed])];
    let o = tally(&runs).unwrap();
    let text = render_report(&runs, &o);
    let rule = "-------------------------------------------------------------------------------";
    let dots = "...............................................................................";
    let expected = format!(
        "\n{rule}\nbroken\n{rule}\nf.rs:5\n{dots}\n\nf.rs:1\nFAILED:\n    t\nwith\n    m\n\n\
         ===============================================================================\n\
         1 tests failed out of 1 test cases (1 failed in 2 assertions).\n"
    );
    assert_eq!(text, expected);
}

#[test]
fn test_case_renders_header() {
    let case: TestCase<Body> = TestCase {
        name: String::from("A new stack is empty"),
        file: String::from("stack.rs"),
        line: 60,
        test_case_fn: single_true_requirement,
    };
    let rule = "-------------------------------------------------------------------------------";
    let dots = "...............................................................................";
    assert_eq!(case.render(), format!("\n{rule}\nA new stack is empty\n{rule}\nstack.rs:60\n{dots}"));
}

#[test]
fn exit_status_follows_failed_cases() {
    let ok = OverAllResults { test_cases: 2, assertions: 2, failed_assertions: 0, failed: 0 };
    let bad = OverAllResults { test_cases: 2, assertions: 2, failed_assertions: 2, failed: 1 };
    assert_eq!(ok.exit_status(), 0);
    assert_eq!(bad.exit_status(), 1);
}
