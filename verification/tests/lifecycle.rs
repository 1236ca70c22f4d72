use spekt::Test;
use spekt::Verdict;
use std::sync::Arc;
use std::sync::Mutex;

/// State with a counter the test body bumps and `after` checks.
struct CounterTest {
    counter: Mutex<u64>,
}

impl Test for CounterTest {
    type Error = String;

    fn before() -> Result<Self, String> {
        Ok(CounterTest { counter: Mutex::new(0) })
    }

    fn after(&self) -> Result<(), String> {
        let value = *self.counter.lock().unwrap();
        if value == 1 {
            Ok(())
        } else {
            Err("counter mismatch".to_string())
        }
    }
}

#[test]
fn counter_set_by_body_is_seen_by_after() {
    let v = CounterTest::test(|state| {
        *state.counter.lock().unwrap() = 1;
        Ok(())
    });
    assert!(v.is_pass());
    assert_eq!(v, Verdict::Pass);
}

#[test]
fn counter_left_unset_fails_teardown() {
    let v = CounterTest::test(|_state| Ok(()));
    assert_eq!(v, Verdict::FailAfter("counter mismatch".to_string()));
}

/// State whose set-up always fails.
struct RefusedConnection;

impl Test for RefusedConnection {
    type Error = String;

    fn before() -> Result<Self, String> {
        Err("connection refused".to_string())
    }

    fn after(&self) -> Result<(), String> {
        Err("after ran without a state".to_string())
    }
}

#[test]
fn before_failure_reports_its_error_and_runs_nothing_else() {
    let body_runs = Arc::new(Mutex::new(0u64));
    let body_runs_seen = body_runs.clone();
    let v = RefusedConnection::test(move |_state| {
        *body_runs_seen.lock().unwrap() += 1;
        Ok(())
    });
    assert_eq!(v, Verdict::FailBefore("connection refused".to_string()));
    assert_eq!(v.into_error(), Some("connection refused".to_string()));
    assert_eq!(*body_runs.lock().unwrap(), 0);
}

/// State that records whether `after` ran, readable through any handle.
struct TeardownMarker {
    after_ran: Mutex<bool>,
}

impl Test for TeardownMarker {
    type Error = String;

    fn before() -> Result<Self, String> {
        Ok(TeardownMarker { after_ran: Mutex::new(false) })
    }

    fn after(&self) -> Result<(), String> {
        *self.after_ran.lock().unwrap() = true;
        Ok(())
    }
}

#[test]
fn after_runs_even_when_body_fails() {
    let stash: Arc<Mutex<Option<Arc<TeardownMarker>>>> = Arc::new(Mutex::new(None));
    let stash_for_body = stash.clone();
    let v = TeardownMarker::test(move |state| {
        *stash_for_body.lock().unwrap() = Some(state);
        Err("body failed".to_string())
    });
    assert_eq!(v, Verdict::FailTest("body failed".to_string()));
    let kept = stash.lock().unwrap().take().expect("the body kept its handle");
    assert!(*kept.after_ran.lock().unwrap());
}

/// State whose teardown always fails.
struct FailingTeardown;

impl Test for FailingTeardown {
    type Error = String;

    fn before() -> Result<Self, String> {
        Ok(FailingTeardown)
    }

    fn after(&self) -> Result<(), String> {
        Err("teardown failed".to_string())
    }
}

#[test]
fn body_failure_masks_teardown_failure() {
    let v = FailingTeardown::test(|_state| Err("body failed".to_string()));
    assert_eq!(v, Verdict::FailTest("body failed".to_string()));
    assert_eq!(v.into_error(), Some("body failed".to_string()));
}

#[test]
fn teardown_failure_surfaces_when_body_passes() {
    let v = FailingTeardown::test(|_state| Ok(()));
    assert_eq!(v, Verdict::FailAfter("teardown failed".to_string()));
}

/// State that never overrides `after`: the default teardown is a no-op
/// success.
struct BareState {
    value: u64,
}

impl Test for BareState {
    type Error = String;

    fn before() -> Result<Self, String> {
        Ok(BareState { value: 42 })
    }
}

#[test]
fn default_after_passes_a_passing_body() {
    let v = BareState::test(|state| {
        if state.value == 42 {
            Ok(())
        } else {
            Err("wrong value".to_string())
        }
    });
    assert_eq!(v, Verdict::Pass);
}

#[test]
fn default_after_keeps_body_error() {
    let v = BareState::test(|_state| Err("body failed".to_string()));
    assert_eq!(v, Verdict::FailTest("body failed".to_string()));
}

#[test]
fn body_and_after_share_one_state() {
    let stash: Arc<Mutex<Option<Arc<CounterTest>>>> = Arc::new(Mutex::new(None));
    let stash_for_body = stash.clone();
    let v = CounterTest::test(move |state| {
        *state.counter.lock().unwrap() = 1;
        *stash_for_body.lock().unwrap() = Some(state);
        Ok(())
    });
    assert_eq!(v, Verdict::Pass);
    let kept = stash.lock().unwrap().take().expect("the body kept its handle");
    assert_eq!(*kept.counter.lock().unwrap(), 1);
}
