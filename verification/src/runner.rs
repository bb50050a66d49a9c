//! The in-process runner: a count-bounded loop that drives a user predicate
//! over a cyclic pool and searches for small failing inputs.
//!
//! Each predicate invocation ends in one of four ways and the pool is
//! steered accordingly: a pass closes the test case; a skip reuses the same
//! pool position; a failure shrinks the virtual length from the saved
//! offset, and once shrinking is exhausted the start offset is shifted; an
//! insufficient-bytes report shifts as well. When every start offset has
//! been searched, the buffer is redrawn from the pool's generator. The loop
//! is bounded by an iteration count: every predicate invocation counts, as
//! do the ones a shrink or a skip repeats.

use vstd::prelude::*;

use crate::arbitrary::Unstructured;
use crate::client::TestResult;
use crate::cyclic_buffer::{BufferOpError, ByteBuffer};

verus! {

/// The runner's counters: one per outcome, and the number of predicate
/// invocations they account for.
pub struct RunCounters {
    pub passed: u64,
    pub skipped: u64,
    pub failed: u64,
    pub insufficient: u64,
    pub invocations: u64,
}

/// Every predicate invocation has been counted under exactly one outcome.
pub open spec fn conserved(c: RunCounters) -> bool {
    c.passed + c.skipped + c.failed + c.insufficient == c.invocations
}

/// Law: counter conservation. In a run without insufficient-bytes reports,
/// the passed, skipped and failed counters alone add up to the number of
/// predicate invocations.
pub proof fn lemma_counter_conservation(c: RunCounters)
    requires
        conserved(c),
    ensures
        c.insufficient == 0 ==> c.passed + c.skipped + c.failed == c.invocations,
{
}

impl RunCounters {
    /// All counters at zero; zero invocations are conserved.
    pub fn new() -> (r: RunCounters)
        ensures
            r.passed == 0,
            r.skipped == 0,
            r.failed == 0,
            r.insufficient == 0,
            r.invocations == 0,
            conserved(r),
    {
        RunCounters { passed: 0, skipped: 0, failed: 0, insufficient: 0, invocations: 0 }
    }
}

/// What the runner does after one predicate invocation.
#[derive(Debug, Clone, Copy, PartialEq, Eq, Structural)]
pub enum StepVerdict {
    /// The test case is finished; the next one starts where the pool stands.
    Done,
    /// The predicate is invoked again against the adjusted pool.
    Retry,
    /// The test case is finished and every start offset has been searched:
    /// the buffer must be redrawn before the next case.
    DoneRealloc,
}

/// A user-written test predicate, invoked repeatedly by the runner.
///
/// `may_return` is the set of outcomes the predicate admits of itself; a
/// verified implementation proves that `check` never leaves it, and the
/// runner's counters then respect it: a predicate that admits no failure
/// yields a run with a zero failed counter.
pub trait Predicate {
    /// The outcomes this predicate can report; by default, any at all. An
    /// implementation narrows it to what its `check` proves.
    open spec fn may_return(&self, r: Result<TestResult, BufferOpError>) -> bool {
        true
    }

    /// Run one test case against the pool.
    fn check(&self, pool: &mut ByteBuffer) -> (r: Result<TestResult, BufferOpError>)
        requires
            old(pool).wf(),
        ensures
            final(pool).wf(),
            self.may_return(r),
        ;
}

/// Account one predicate outcome and steer the pool: this is the runner's
/// whole search policy. `saved` is the pool offset at which the current test
/// case started; a failure shrinks back from it.
pub fn handle_outcome(
    pool: &mut ByteBuffer,
    c: &mut RunCounters,
    saved: usize,
    outcome: Result<TestResult, BufferOpError>,
) -> (v: StepVerdict)
    requires
        old(pool).wf(),
        conserved(*old(c)),
        old(c).invocations < u64::MAX,
    ensures
        final(pool).wf(),
        conserved(*final(c)),
        final(c).invocations == old(c).invocations + 1,
        final(c).passed == old(c).passed + (if outcome == Result::<
            TestResult,
            BufferOpError,
        >::Ok(TestResult::Passed) {
            1int
        } else {
            0int
        }),
        final(c).skipped == old(c).skipped + (if outcome == Result::<
            TestResult,
            BufferOpError,
        >::Ok(TestResult::Skipped) {
            1int
        } else {
            0int
        }),
        final(c).failed == old(c).failed + (if outcome == Result::<
            TestResult,
            BufferOpError,
        >::Ok(TestResult::Failed) {
            1int
        } else {
            0int
        }),
        final(c).insufficient == old(c).insufficient + (if outcome is Err {
            1int
        } else {
            0int
        }),
        outcome == Result::<TestResult, BufferOpError>::Ok(TestResult::Passed) ==> v
            == StepVerdict::Done && *final(pool) == *old(pool),
        outcome == Result::<TestResult, BufferOpError>::Ok(TestResult::Skipped) ==> v
            == StepVerdict::Retry && *final(pool) == *old(pool),
        outcome == Result::<TestResult, BufferOpError>::Ok(TestResult::Failed) && old(
            pool,
        ).vlen() >= 2 ==> v == StepVerdict::Retry && final(pool).vlen() == old(pool).vlen() / 2
            && final(pool).pos() == saved as int % final(pool).vlen(),
        (outcome == Result::<TestResult, BufferOpError>::Ok(TestResult::Failed) && old(
            pool,
        ).vlen() < 2) || (outcome is Err) ==> {
            &&& final(pool).vlen() == old(pool).bytes().len() as int / 2
            &&& ((old(pool).shift() + 1) % old(pool).bytes().len() as int == 0 ==> v
                == StepVerdict::DoneRealloc && final(pool).shift() == old(pool).shift()
                && final(pool).pos() == old(pool).shift() % final(pool).vlen())
            &&& ((old(pool).shift() + 1) % old(pool).bytes().len() as int != 0 ==> v
                == StepVerdict::Retry
                && final(pool).shift() == (old(pool).shift() + 1) % old(pool).bytes().len() as int
                && final(pool).pos() == final(pool).shift() % final(pool).vlen())
        },
        final(pool).bytes() == old(pool).bytes(),
        final(pool).limit() == old(pool).limit(),
{
    let v = match outcome {
        Ok(TestResult::Passed) => {
            c.passed = c.passed + 1;
            StepVerdict::Done
        },
        Ok(TestResult::Skipped) => {
            c.skipped = c.skipped + 1;
            StepVerdict::Retry
        },
        Ok(TestResult::Failed) => {
            c.failed = c.failed + 1;
            let new_v = pool.shrink_from(saved);
            if new_v == 0 {
                pool.soft_reset();
                match pool.shift_right(1) {
                    Err(_) => StepVerdict::DoneRealloc,
                    Ok(()) => StepVerdict::Retry,
                }
            } else {
                StepVerdict::Retry
            }
        },
        Err(_) => {
            c.insufficient = c.insufficient + 1;
            pool.soft_reset();
            match pool.shift_right(1) {
                Err(_) => StepVerdict::DoneRealloc,
                Ok(()) => StepVerdict::Retry,
            }
        },
    };
    c.invocations = c.invocations + 1;
    v
}

/// Drive `predicate` over the pool for exactly `max_iterations` predicate
/// invocations, steering the pool with `handle_outcome` after each one. The
/// returned counters are conserved -- every invocation stands under exactly
/// one of them -- and an outcome the predicate does not admit is never
/// counted: its counter comes back zero.
pub fn run<P: Predicate>(pool: &mut ByteBuffer, predicate: &P, max_iterations: u64) -> (c:
    RunCounters)
    requires
        old(pool).wf(),
    ensures
        final(pool).wf(),
        conserved(c),
        c.invocations == max_iterations,
        (forall|r: Result<TestResult, BufferOpError>| #[trigger] predicate.may_return(r) ==> r
            != Result::<TestResult, BufferOpError>::Ok(TestResult::Passed)) ==> c.passed == 0,
        (forall|r: Result<TestResult, BufferOpError>| #[trigger] predicate.may_return(r) ==> r
            != Result::<TestResult, BufferOpError>::Ok(TestResult::Skipped)) ==> c.skipped == 0,
        (forall|r: Result<TestResult, BufferOpError>| #[trigger] predicate.may_return(r) ==> r
            != Result::<TestResult, BufferOpError>::Ok(TestResult::Failed)) ==> c.failed == 0,
        (forall|r: Result<TestResult, BufferOpError>| #[trigger] predicate.may_return(r) ==> !(r
            is Err)) ==> c.insufficient == 0,
{
    let mut c = RunCounters::new();
    let mut realloc = false;
    let mut saved = pool.offset();
    while c.invocations < max_iterations
        invariant
            pool.wf(),
            conserved(c),
            c.invocations <= max_iterations,
            (forall|r: Result<TestResult, BufferOpError>| #[trigger] predicate.may_return(r)
                ==> r != Result::<TestResult, BufferOpError>::Ok(TestResult::Passed)) ==> c.passed
                == 0,
            (forall|r: Result<TestResult, BufferOpError>| #[trigger] predicate.may_return(r)
                ==> r != Result::<TestResult, BufferOpError>::Ok(TestResult::Skipped))
                ==> c.skipped == 0,
            (forall|r: Result<TestResult, BufferOpError>| #[trigger] predicate.may_return(r)
                ==> r != Result::<TestResult, BufferOpError>::Ok(TestResult::Failed)) ==> c.failed
                == 0,
            (forall|r: Result<TestResult, BufferOpError>| #[trigger] predicate.may_return(r)
                ==> !(r is Err)) ==> c.insufficient == 0,
        decreases max_iterations - c.invocations,
    {
        if realloc {
            pool.hard_reset();
            realloc = false;
            saved = pool.offset();
        }
        let outcome = predicate.check(pool);
        match handle_outcome(pool, &mut c, saved, outcome) {
            StepVerdict::Done => {
                saved = pool.offset();
            },
            StepVerdict::Retry => {},
            StepVerdict::DoneRealloc => {
                realloc = true;
            },
        }
    }
    c
}

} // verus!
