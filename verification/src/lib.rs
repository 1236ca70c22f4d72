//! A `Result`-based trait for managing the lifecycle of stateful tests.
//!
//! A test of a stateful resource has three phases: `before` builds the
//! state the test needs, the test body makes its assertions against that
//! state, and `after` tears the state down. Each phase reports success or
//! failure through a `Result` value instead of panicking. The runner
//! weighs the outcome of every phase as follows:
//!
//! * a `before` failure is terminal — neither the test body nor `after`
//!   runs, and the `before` error is reported;
//! * `after` runs whenever `before` succeeded, even when the test body
//!   failed, so teardown is not skipped on a failing test;
//! * a test-body failure takes precedence over an `after` failure — when
//!   both fail, only the body's error is reported.
//!
//! The state produced by `before` is handed to the test body and to
//! `after` through a shared, reference-counted handle, so both phases
//! observe the same state value without copying it.
//!
//! [`Test`] is the trait a test author implements (`before`, and
//! optionally `after`); its provided [`Test::test`] method is the runner.
//! [`RunnerState`](machine::RunnerState) is the runner's phase-sequencing
//! state machine, kept as a type of its own so that a driver which must
//! interleave the phases with other work (an asynchronous executor, say)
//! can perform each phase itself and feed the outcome back, while the
//! sequencing and the verdict stay those proved here.

pub mod machine;
pub mod verdict;

pub use machine::Action;
pub use machine::Event;
pub use machine::RunnerState;
pub use test::Test;
pub use verdict::Verdict;
