//! A small unit-testing harness: matchers, assertion recording with fail-fast
//! and accumulating assertions, execution of registered cases, and the
//! aggregation of their results into counters and a report.

pub mod assertion;
pub mod matcher;
pub mod report;
pub mod runner;
pub mod text;

pub use assertion::{AssertionResult, AssertionState, CaseRecorder};
pub use matcher::{EqualTo, MatchResult, Matcher, equal_to, success};
pub use report::{CaseRun, OverAllResults, Report, aggregate, render_report, tally};
pub use runner::{RunOutcome, TestCase, TestRegistry, run_case, run_cases};
