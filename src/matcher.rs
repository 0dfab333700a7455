use vstd::prelude::*;
use vstd::string::*;
use vstd::std_specs::cmp::PartialEqSpec;

verus! {

/// `Ok(())` when the actual value satisfies a matcher, else a description of
/// the mismatch.
pub type MatchResult = Result<(), String>;

/// A condition on an actual value, which can also describe itself.
pub trait Matcher<T> {
    /// Checks `actual` against the condition.
    fn matches(&self, actual: &T) -> MatchResult;

    /// A human-readable description of the condition.
    fn describe(&self) -> String;
}

/// The result of a successful match.
pub fn success() -> (r: MatchResult)
    ensures
        r is Ok,
{
    Ok(())
}

/// Relies on the `Debug` formatting of std (`format!("{:?}", ..)`) to render a value.
#[verifier::external_body]
fn debug_text<T: core::fmt::Debug>(value: &T) -> String {
    format!("{:?}", value)
}

/// Matches values equal to `expected`, by the type's own equality.
pub struct EqualTo<T> {
    pub expected: T,
}

/// `text` starts with "was ".
pub open spec fn is_was_message(text: Seq<char>) -> bool {
    &&& text.len() >= 4
    &&& text.subrange(0, 4) == "was "@
}

impl<T: PartialEq + core::fmt::Debug> Matcher<T> for EqualTo<T> {
    /// `Ok(())` exactly when `expected == actual`; otherwise the message
    /// "was " followed by the debug rendering of `actual`.
    fn matches(&self, actual: &T) -> (r: MatchResult)
        ensures
            T::obeys_eq_spec() ==> (r is Ok <==> self.expected.eq_spec(actual)),
            r is Err ==> is_was_message(r->Err_0@),
    {
        if self.expected.eq(actual) {
            success()
        } else {
            let shown = debug_text(actual);
            let mut message = String::from_str("was ");
            message.append(shown.as_str());
            proof {
                reveal_strlit("was ");
                assert(message@.subrange(0, 4) =~= "was "@);
            }
            Err(message)
        }
    }

    /// The debug rendering of the expected value.
    fn describe(&self) -> String {
        debug_text(&self.expected)
    }
}

/// A matcher for values equal to `expected`.
pub fn equal_to<T: PartialEq + core::fmt::Debug>(expected: T) -> (r: EqualTo<T>)
    ensures
        r.expected == expected,
{
    EqualTo { expected }
}

} // verus!
