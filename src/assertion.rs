use vstd::prelude::*;
use vstd::string::*;
use crate::text::{decimal, push_decimal};

verus! {

/// The verdict of one assertion.
#[derive(PartialEq, Eq, Structural, Clone, Copy, Debug)]
pub enum AssertionState {
    Passed,
    Failed,
}

/// One evaluated assertion: its verdict, where it was written, an explanation,
/// and the text of the assertion call.
#[derive(Debug)]
pub struct AssertionResult {
    pub state: AssertionState,
    pub file: String,
    pub line: u32,
    pub message: String,
    pub assertion_text: String,
}

pub open spec fn state_label(state: AssertionState) -> Seq<char> {
    match state {
        AssertionState::Failed => "FAILED:"@,
        AssertionState::Passed => "PASSED:"@,
    }
}

/// The block that shows one assertion in a report.
pub open spec fn result_text(r: AssertionResult) -> Seq<char> {
    "\n"@ + r.file@ + ":"@ + decimal(r.line as nat) + "\n"@ + state_label(r.state) + "\n    "@
        + r.assertion_text@ + "\nwith\n    "@ + r.message@ + "\n"@
}

impl AssertionResult {
    /// Renders the assertion as a block of text: location, verdict, the
    /// assertion call and its message.
    pub fn render(&self) -> (r: String)
        ensures
            r@ == result_text(*self),
    {
        let mut s = String::from_str("\n");
        s.append(self.file.as_str());
        s.append(":");
        push_decimal(&mut s, self.line as usize);
        s.append("\n");
        match self.state {
            AssertionState::Failed => s.append("FAILED:"),
            AssertionState::Passed => s.append("PASSED:"),
        }
        s.append("\n    ");
        s.append(self.assertion_text.as_str());
        s.append("\nwith\n    ");
        s.append(self.message.as_str());
        s.append("\n");
        s
    }
}

/// `true` for a passed assertion.
pub open spec fn passed(r: AssertionResult) -> bool {
    r.state == AssertionState::Passed
}

/// The verdicts of a sequence of assertion results, `true` for each pass.
pub open spec fn verdicts(rs: Seq<AssertionResult>) -> Seq<bool> {
    rs.map_values(|r: AssertionResult| passed(r))
}

/// One assertion call of a case body: whether it held, and whether it was
/// fail-fast (`true`) or accumulating (`false`).
pub type Call = (bool, bool);

/// What a case body records for a sequence of assertion calls: the verdicts
/// recorded, and whether a fail-fast assertion has failed, after which nothing
/// more is recorded.
pub open spec fn replay(calls: Seq<Call>) -> (Seq<bool>, bool)
    decreases calls.len(),
{
    if calls.len() == 0 {
        (Seq::empty(), false)
    } else {
        let prev = replay(calls.drop_last());
        let (held, fail_fast) = calls.last();
        if prev.1 {
            prev
        } else {
            (prev.0.push(held), fail_fast && !held)
        }
    }
}

/// Once a fail-fast assertion fails, no later assertion of the same body is
/// recorded: when every call is fail-fast and call `i` is the first that
/// fails, exactly the calls up to and including `i` are recorded.
pub proof fn fail_fast_stops_at_first_failure(calls: Seq<Call>, i: int)
    requires
        forall|j: int| 0 <= j < calls.len() ==> (#[trigger] calls[j]).1,
        0 <= i < calls.len(),
        !calls[i].0,
        forall|j: int| 0 <= j < i ==> (#[trigger] calls[j]).0,
    ensures
        replay(calls).0.len() == i + 1,
        replay(calls).0 == calls.take(i + 1).map_values(|c: Call| c.0),
        replay(calls).1,
    decreases calls.len(),
{
    if calls.len() == i + 1 {
        all_held_records_all(calls.drop_last());
        assert(calls.drop_last() =~= calls.take(i));
        assert(replay(calls).0 =~= calls.take(i + 1).map_values(|c: Call| c.0));
    } else {
        let prefix = calls.drop_last();
        assert forall|j: int| 0 <= j < prefix.len() implies (#[trigger] prefix[j]).1 by {
            assert(prefix[j] == calls[j]);
        }
        assert forall|j: int| 0 <= j < i implies (#[trigger] prefix[j]).0 by {
            assert(prefix[j] == calls[j]);
        }
        fail_fast_stops_at_first_failure(prefix, i);
        assert(prefix.take(i + 1) =~= calls.take(i + 1));
    }
}

/// While every call holds, each one is recorded and nothing halts.
proof fn all_held_records_all(calls: Seq<Call>)
    requires
        forall|j: int| 0 <= j < calls.len() ==> (#[trigger] calls[j]).0,
    ensures
        replay(calls).0 == calls.map_values(|c: Call| c.0),
        !replay(calls).1,
    decreases calls.len(),
{
    if calls.len() > 0 {
        let prefix = calls.drop_last();
        assert forall|j: int| 0 <= j < prefix.len() implies (#[trigger] prefix[j]).0 by {
            assert(prefix[j] == calls[j]);
        }
        all_held_records_all(prefix);
        assert(replay(calls).0 =~= calls.map_values(|c: Call| c.0));
    }
}

/// Accumulating assertions are all recorded, whatever their verdicts: the
/// record has one verdict per call, in order.
pub proof fn accumulating_records_every_call(calls: Seq<Call>)
    requires
        forall|j: int| 0 <= j < calls.len() ==> !(#[trigger] calls[j]).1,
    ensures
        replay(calls).0 == calls.map_values(|c: Call| c.0),
        replay(calls).0.len() == calls.len(),
        !replay(calls).1,
    decreases calls.len(),
{
    if calls.len() > 0 {
        let prefix = calls.drop_last();
        assert forall|j: int| 0 <= j < prefix.len() implies !(#[trigger] prefix[j]).1 by {
            assert(prefix[j] == calls[j]);
        }
        accumulating_records_every_call(prefix);
        assert(replay(calls).0 =~= calls.map_values(|c: Call| c.0));
    }
}

/// The message of a boolean assertion: "`<expression>` is `<value>`".
pub open spec fn condition_message(expression: Seq<char>, value: bool) -> Seq<char> {
    "`"@ + expression + "` is `"@ + (if value { "true"@ } else { "false"@ }) + "`"@
}

/// The text of an assertion call with one argument: "<name>!(<argument>)".
pub open spec fn call_text(name: Seq<char>, argument: Seq<char>) -> Seq<char> {
    name + "!("@ + argument + ")"@
}

/// The text of an assertion call with an actual value and a matcher:
/// "<name>!(<actual>, <matcher>)".
pub open spec fn call_text2(name: Seq<char>, actual: Seq<char>, matcher: Seq<char>) -> Seq<char> {
    name + "!("@ + actual + ", "@ + matcher + ")"@
}

/// The message of a matcher assertion: "condition was satisfied" on a match,
/// else "Expected `<description>` but <mismatch>".
pub open spec fn match_message(description: Seq<char>, verdict: Result<(), String>) -> Seq<char> {
    match verdict {
        Ok(_) => "condition was satisfied"@,
        Err(mismatch) => "Expected `"@ + description + "` but "@ + mismatch@,
    }
}

fn condition_text(expression: &str, value: bool) -> (r: String)
    ensures
        r@ == condition_message(expression@, value),
{
    let mut s = String::from_str("`");
    s.append(expression);
    s.append("` is `");
    if value {
        s.append("true");
    } else {
        s.append("false");
    }
    s.append("`");
    s
}

fn call_string(name: &str, argument: &str) -> (r: String)
    ensures
        r@ == call_text(name@, argument@),
{
    let mut s = String::from_str(name);
    s.append("!(");
    s.append(argument);
    s.append(")");
    s
}

fn call_string2(name: &str, actual: &str, matcher: &str) -> (r: String)
    ensures
        r@ == call_text2(name@, actual@, matcher@),
{
    let mut s = String::from_str(name);
    s.append("!(");
    s.append(actual);
    s.append(", ");
    s.append(matcher);
    s.append(")");
    s
}

fn match_text(description: &str, verdict: Result<(), String>) -> (r: String)
    ensures
        r@ == match_message(description@, verdict),
{
    match verdict {
        Ok(_) => String::from_str("condition was satisfied"),
        Err(mismatch) => {
            let mut s = String::from_str("Expected `");
            s.append(description);
            s.append("` but ");
            s.append(mismatch.as_str());
            s
        },
    }
}

/// The assertion results of one case body, as it runs.
pub struct CaseRecorder {
    results: Vec<AssertionResult>,
    halted: bool,
    calls: Ghost<Seq<Call>>,
}

impl CaseRecorder {
    /// The results recorded so far, in order.
    pub closed spec fn recorded(&self) -> Seq<AssertionResult> {
        self.results@
    }

    /// Whether a fail-fast assertion has failed.
    pub closed spec fn halted(&self) -> bool {
        self.halted
    }

    /// Every assertion call made so far, recorded or not.
    pub closed spec fn calls(&self) -> Seq<Call> {
        self.calls@
    }

    /// The record is what `replay` gives for the calls made.
    pub open spec fn wf(&self) -> bool {
        &&& verdicts(self.recorded()) == replay(self.calls()).0
        &&& self.halted() == replay(self.calls()).1
    }

    /// `self` is `before` after one assertion call: the call is counted, and,
    /// unless `before` had halted, a result with these fields is appended.
    pub open spec fn appended(
        self,
        before: Self,
        held: bool,
        fail_fast: bool,
        file: Seq<char>,
        line: u32,
        message: Seq<char>,
        text: Seq<char>,
    ) -> bool {
        &&& self.wf()
        &&& self.calls() == before.calls().push((held, fail_fast))
        &&& before.halted() ==> self.recorded() == before.recorded() && self.halted()
        &&& !before.halted() ==> {
            &&& self.recorded().len() == before.recorded().len() + 1
            &&& self.recorded().drop_last() == before.recorded()
            &&& self.recorded().last().state == (if held {
                AssertionState::Passed
            } else {
                AssertionState::Failed
            })
            &&& self.recorded().last().file@ == file
            &&& self.recorded().last().line == line
            &&& self.recorded().last().message@ == message
            &&& self.recorded().last().assertion_text@ == text
            &&& self.halted() == (fail_fast && !held)
        }
    }

    /// A recorder for a body that has made no assertion yet.
    pub fn new() -> (r: Self)
        ensures
            r.wf(),
            r.calls() == Seq::<Call>::empty(),
            r.recorded() == Seq::<AssertionResult>::empty(),
            !r.halted(),
    {
        let r = CaseRecorder { results: Vec::new(), halted: false, calls: Ghost(Seq::empty()) };
        assert(verdicts(r.recorded()) =~= replay(r.calls()).0);
        r
    }

    /// Whether a fail-fast assertion has failed; a body stops there.
    pub fn is_halted(&self) -> (r: bool)
        ensures
            r == self.halted(),
    {
        self.halted
    }

    /// Records one assertion with the given verdict. A failing fail-fast
    /// assertion halts the recorder; once halted, nothing more is recorded.
    /// Returns whether the body may go on.
    pub fn record(
        &mut self,
        held: bool,
        fail_fast: bool,
        file: &str,
        line: u32,
        message: String,
        assertion_text: String,
    ) -> (go_on: bool)
        requires
            old(self).wf(),
        ensures
            final(self).appended(*old(self), held, fail_fast, file@, line, message@, assertion_text@),
            go_on == !final(self).halted(),
    {
        proof {
            self.calls@ = self.calls@.push((held, fail_fast));
        }
        if !self.halted {
            let state = if held {
                AssertionState::Passed
            } else {
                AssertionState::Failed
            };
            let ghost before = self.results@;
            self.results.push(
                AssertionResult {
                    state,
                    file: String::from_str(file),
                    line,
                    message,
                    assertion_text,
                },
            );
            self.halted = fail_fast && !held;
            assert(self.calls@.drop_last() =~= old(self).calls@);
            assert(verdicts(self.results@) =~= verdicts(before).push(held));
            assert(self.results@.drop_last() =~= before);
        } else {
            assert(self.calls@.drop_last() =~= old(self).calls@);
        }
        !self.halted
    }

    /// Records a fail-fast boolean assertion on `expression`, whose value was
    /// `condition`. Returns whether the body may go on.
    pub fn require(&mut self, condition: bool, expression: &str, file: &str, line: u32) -> (go_on: bool)
        requires
            old(self).wf(),
        ensures
            final(self).appended(
                *old(self),
                condition,
                true,
                file@,
                line,
                condition_message(expression@, condition),
                call_text("require"@, expression@),
            ),
            go_on == !final(self).halted(),
    {
        let message = condition_text(expression, condition);
        let text = call_string("require", expression);
        self.record(condition, true, file, line, message, text)
    }

    /// Records an accumulating boolean assertion on `expression`, whose value
    /// was `condition`. The body goes on whatever the verdict.
    pub fn check(&mut self, condition: bool, expression: &str, file: &str, line: u32)
        requires
            old(self).wf(),
        ensures
            final(self).appended(
                *old(self),
                condition,
                false,
                file@,
                line,
                condition_message(expression@, condition),
                call_text("check"@, expression@),
            ),
    {
        let message = condition_text(expression, condition);
        let text = call_string("check", expression);
        self.record(condition, false, file, line, message, text);
    }

    /// Records a fail-fast matcher assertion: `verdict` is what the matcher
    /// described by `description` said of the actual value. Returns whether the
    /// body may go on.
    pub fn require_that(
        &mut self,
        verdict: Result<(), String>,
        description: &str,
        actual_expression: &str,
        matcher_expression: &str,
        file: &str,
        line: u32,
    ) -> (go_on: bool)
        requires
            old(self).wf(),
        ensures
            final(self).appended(
                *old(self),
                verdict is Ok,
                true,
                file@,
                line,
                match_message(description@, verdict),
                call_text2("require_that"@, actual_expression@, matcher_expression@),
            ),
            go_on == !final(self).halted(),
    {
        let held = verdict.is_ok();
        let message = match_text(description, verdict);
        let text = call_string2("require_that", actual_expression, matcher_expression);
        self.record(held, true, file, line, message, text)
    }

    /// Records an accumulating matcher assertion: `verdict` is what the
    /// matcher described by `description` said of the actual value.
    pub fn check_that(
        &mut self,
        verdict: Result<(), String>,
        description: &str,
        actual_expression: &str,
        matcher_expression: &str,
        file: &str,
        line: u32,
    )
        requires
            old(self).wf(),
        ensures
            final(self).appended(
                *old(self),
                verdict is Ok,
                false,
                file@,
                line,
                match_message(description@, verdict),
                call_text2("check_that"@, actual_expression@, matcher_expression@),
            ),
    {
        let held = verdict.is_ok();
        let message = match_text(description, verdict);
        let text = call_string2("check_that", actual_expression, matcher_expression);
        self.record(held, false, file, line, message, text);
    }

    /// The results recorded, in order.
    pub fn finish(self) -> (r: Vec<AssertionResult>)
        ensures
            r@ == self.recorded(),
    {
        self.results
    }
}

} // verus!
