use crate::verdict::completed_verdict;
use crate::verdict::invocation_verdict;
use crate::verdict::resolve_completed;
use crate::verdict::Verdict;
use vstd::pervasive::unreached;
use vstd::prelude::*;

verus! {

/// What the driver of a [`RunnerState`] must do next: run the named phase
/// and feed its result back through [`RunnerState::step`], or, once the
/// machine is terminal, report the verdict.
#[derive(Clone, Copy, Debug, PartialEq, Eq)]
pub enum Action {
    /// Run `before` and feed back an [`Event::BeforeFinished`].
    RunBefore,
    /// Run the test body and feed back an [`Event::TestFinished`].
    RunTest,
    /// Run `after` and feed back an [`Event::AfterFinished`].
    RunAfter,
    /// The invocation is over: take the verdict with
    /// [`RunnerState::into_verdict`] and report it.
    Report,
}

/// The completion of one phase, fed to [`RunnerState::step`]. The value a
/// successful `before` produced travels outside the machine (in the shared
/// state handle), so its event carries only success or failure.
#[derive(Debug, PartialEq, Eq)]
pub enum Event<E> {
    /// `before` returned: `Ok(())` if it produced a state, or its error.
    BeforeFinished(Result<(), E>),
    /// The test body returned.
    TestFinished(Result<(), E>),
    /// `after` returned.
    AfterFinished(Result<(), E>),
}

/// The runner's phase-sequencing state machine. One invocation walks
/// `Start → Ready → TestDone → Done`, except that a `before` failure goes
/// from `Start` straight to `Done`: nothing else runs. Each state accepts
/// exactly one kind of event — the completion of the phase it is waiting
/// on — so a driver cannot run the phases out of order, run one twice, or
/// run anything after a terminal verdict.
#[derive(Debug, PartialEq, Eq)]
pub enum RunnerState<E> {
    /// Nothing has run yet; waiting on `before`.
    Start,
    /// `before` succeeded; waiting on the test body.
    Ready,
    /// The test body returned this result; waiting on `after`.
    TestDone(Result<(), E>),
    /// The invocation is over with this verdict; no event is accepted.
    Done(Verdict<E>),
}

/// Which event a state accepts: the completion of the one phase it is
/// waiting on. A terminal state accepts none.
pub open spec fn accepts<E>(state: RunnerState<E>, event: Event<E>) -> bool {
    match (state, event) {
        (RunnerState::Start, Event::BeforeFinished(_)) => true,
        (RunnerState::Ready, Event::TestFinished(_)) => true,
        (RunnerState::TestDone(_), Event::AfterFinished(_)) => true,
        _ => false,
    }
}

/// The transition function. A `before` failure is terminal; a `before`
/// success readies the test body; the body's result is held until `after`
/// returns; the two are then reduced by `completed_verdict`, which is
/// where a body failure masks an `after` failure.
pub open spec fn spec_step<E>(state: RunnerState<E>, event: Event<E>) -> RunnerState<E>
    recommends
        accepts(state, event),
{
    match (state, event) {
        (RunnerState::Start, Event::BeforeFinished(r)) => match r {
            Result::Ok(_) => RunnerState::Ready,
            Result::Err(e) => RunnerState::Done(Verdict::FailBefore(e)),
        },
        (RunnerState::Ready, Event::TestFinished(t)) => RunnerState::TestDone(t),
        (RunnerState::TestDone(t), Event::AfterFinished(a)) => RunnerState::Done(
            completed_verdict(t, a),
        ),
        (s, _) => s,
    }
}

/// The action a driver must take in each state.
pub open spec fn next_phase<E>(state: RunnerState<E>) -> Action {
    match state {
        RunnerState::Start => Action::RunBefore,
        RunnerState::Ready => Action::RunTest,
        RunnerState::TestDone(_) => Action::RunAfter,
        RunnerState::Done(_) => Action::Report,
    }
}

impl<E> RunnerState<E> {
    /// A fresh invocation: nothing has run yet.
    pub fn new() -> (s: Self)
        ensures
            s == RunnerState::<E>::Start,
    {
        RunnerState::Start
    }

    /// What the driver must do next.
    pub fn next_action(&self) -> (a: Action)
        ensures
            a == next_phase(*self),
    {
        match self {
            RunnerState::Start => Action::RunBefore,
            RunnerState::Ready => Action::RunTest,
            RunnerState::TestDone(_) => Action::RunAfter,
            RunnerState::Done(_) => Action::Report,
        }
    }

    /// Advance the machine by one phase completion.
    pub fn step(self, event: Event<E>) -> (next: Self)
        requires
            accepts(self, event),
        ensures
            next == spec_step(self, event),
    {
        match (self, event) {
            (RunnerState::Start, Event::BeforeFinished(r)) => match r {
                Ok(()) => RunnerState::Ready,
                Err(error) => RunnerState::Done(Verdict::FailBefore(error)),
            },
            (RunnerState::Ready, Event::TestFinished(test_result)) => RunnerState::TestDone(
                test_result,
            ),
            (RunnerState::TestDone(test_result), Event::AfterFinished(after_result)) => {
                RunnerState::Done(resolve_completed(test_result, after_result))
            },
            _ => unreached(),
        }
    }

    /// Whether the invocation is over.
    pub fn is_done(&self) -> (r: bool)
        ensures
            r == (*self is Done),
    {
        match self {
            RunnerState::Done(_) => true,
            _ => false,
        }
    }

    /// The verdict of a finished invocation.
    pub fn into_verdict(self) -> (v: Verdict<E>)
        requires
            self is Done,
        ensures
            self == RunnerState::Done(v),
    {
        match self {
            RunnerState::Done(verdict) => verdict,
            _ => unreached(),
        }
    }
}

/// Law: a `before` failure short-circuits the invocation. The machine goes
/// straight to the terminal verdict carrying the `before` error; from
/// there no event is accepted and the only action left is to report, so
/// neither the test body nor `after` is ever requested.
pub proof fn before_failure_short_circuits<E>(e: E, later: Event<E>)
    ensures
        spec_step(RunnerState::Start, Event::BeforeFinished(Result::Err(e)))
            == RunnerState::Done(Verdict::FailBefore(e)),
        !accepts(RunnerState::Done(Verdict::FailBefore(e)), later),
        next_phase(RunnerState::Done(Verdict::FailBefore(e))) == Action::Report,
{
}

/// Law: when `before`, the test body and `after` all succeed, the
/// invocation passes.
pub proof fn all_phases_ok_passes<E>()
    ensures
        spec_step(
            spec_step(
                spec_step(
                    RunnerState::<E>::Start,
                    Event::BeforeFinished(Result::<(), E>::Ok(())),
                ),
                Event::TestFinished(Result::<(), E>::Ok(())),
            ),
            Event::AfterFinished(Result::<(), E>::Ok(())),
        ) == RunnerState::<E>::Done(Verdict::Pass),
{
}

/// Law: a failing test body does not skip teardown. From the state that
/// records the failed body, the machine's next request is still to run
/// `after`.
pub proof fn after_still_requested_on_test_failure<E>(e: E)
    ensures
        spec_step(RunnerState::Ready, Event::TestFinished(Result::<(), E>::Err(e)))
            == RunnerState::TestDone(Result::<(), E>::Err(e)),
        next_phase(RunnerState::TestDone(Result::<(), E>::Err(e))) == Action::RunAfter,
{
}

/// Law: when the test body failed, the verdict carries the body's error
/// whatever `after` returned — an `after` failure occurring alongside a
/// body failure is masked.
pub proof fn test_failure_masks_after_outcome<E>(e: E, after_result: Result<(), E>)
    ensures
        spec_step(
            RunnerState::TestDone(Result::<(), E>::Err(e)),
            Event::AfterFinished(after_result),
        ) == RunnerState::Done(Verdict::FailTest(e)),
{
}

/// Law: when the test body passed but `after` failed, the `after` error
/// surfaces as the verdict.
pub proof fn after_failure_surfaces_when_test_passes<E>(e: E)
    ensures
        spec_step(
            RunnerState::TestDone(Result::<(), E>::Ok(())),
            Event::AfterFinished(Result::<(), E>::Err(e)),
        ) == RunnerState::Done(Verdict::FailAfter(e)),
{
}

/// Law: driving the machine through a whole invocation agrees with the
/// three-result verdict function — the machine adds sequencing, never a
/// different verdict.
pub proof fn machine_agrees_with_verdict<S, E>(
    before_result: Result<S, E>,
    test_result: Result<(), E>,
    after_result: Result<(), E>,
)
    ensures
        before_result matches Result::Err(e) ==> spec_step(
            RunnerState::Start,
            Event::BeforeFinished(Result::<(), E>::Err(e)),
        ) == RunnerState::Done(invocation_verdict(before_result, test_result, after_result)),
        before_result is Ok ==> spec_step(
            spec_step(
                spec_step(
                    RunnerState::<E>::Start,
                    Event::BeforeFinished(Result::<(), E>::Ok(())),
                ),
                Event::TestFinished(test_result),
            ),
            Event::AfterFinished(after_result),
        ) == RunnerState::Done(invocation_verdict(before_result, test_result, after_result)),
{
}

} // verus!
