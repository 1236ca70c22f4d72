use vstd::prelude::*;

verus! {

/// The final outcome of one test invocation: either every phase succeeded,
/// or exactly one phase's error is chosen for reporting, tagged with the
/// phase that produced it.
#[derive(Debug, PartialEq, Eq)]
pub enum Verdict<E> {
    /// `before`, the test body and `after` all succeeded.
    Pass,
    /// `before` failed; neither the test body nor `after` ran.
    FailBefore(E),
    /// The test body failed. `after` still ran, but its outcome is
    /// discarded: the body's error takes precedence.
    FailTest(E),
    /// The test body succeeded and `after` failed.
    FailAfter(E),
}

/// The verdict of an invocation whose `before` succeeded, given what the
/// test body and `after` returned. A test-body failure takes precedence
/// and hides an `after` failure; an `after` failure surfaces only when the
/// body passed.
pub open spec fn completed_verdict<E>(test_result: Result<(), E>, after_result: Result<(), E>) -> Verdict<E> {
    match test_result {
        Result::Err(e) => Verdict::FailTest(e),
        Result::Ok(_) => match after_result {
            Result::Err(e) => Verdict::FailAfter(e),
            Result::Ok(_) => Verdict::Pass,
        },
    }
}

/// The verdict of a whole invocation: a `before` failure is terminal and
/// decides the verdict alone; otherwise the two remaining phase results
/// decide it as in `completed_verdict`.
pub open spec fn invocation_verdict<S, E>(
    before_result: Result<S, E>,
    test_result: Result<(), E>,
    after_result: Result<(), E>,
) -> Verdict<E> {
    match before_result {
        Result::Err(e) => Verdict::FailBefore(e),
        Result::Ok(_) => completed_verdict(test_result, after_result),
    }
}

/// Reduce the results of the test body and of `after` (both of which have
/// run by this point) to the invocation's verdict.
pub fn resolve_completed<E>(test_result: Result<(), E>, after_result: Result<(), E>) -> (v: Verdict<
    E,
>)
    ensures
        v == completed_verdict(test_result, after_result),
{
    match test_result {
        Err(error) => Verdict::FailTest(error),
        Ok(()) => match after_result {
            Err(error) => Verdict::FailAfter(error),
            Ok(()) => Verdict::Pass,
        },
    }
}

impl<E> Verdict<E> {
    /// Whether the invocation succeeded.
    pub fn is_pass(&self) -> (r: bool)
        ensures
            r == (*self is Pass),
    {
        match self {
            Verdict::Pass => true,
            _ => false,
        }
    }

    /// The error chosen for reporting, if the invocation failed.
    pub fn into_error(self) -> (r: Option<E>)
        ensures
            match self {
                Verdict::Pass => r is None,
                Verdict::FailBefore(e) => r == Option::Some(e),
                Verdict::FailTest(e) => r == Option::Some(e),
                Verdict::FailAfter(e) => r == Option::Some(e),
            },
    {
        match self {
            Verdict::Pass => None,
            Verdict::FailBefore(error) => Some(error),
            Verdict::FailTest(error) => Some(error),
            Verdict::FailAfter(error) => Some(error),
        }
    }
}

} // verus!
