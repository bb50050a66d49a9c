use rqc::arbitrary::{arb_u64, arb_u8, Unstructured};
use rqc::client::TestResult;
use rqc::cyclic_buffer::{BufferOpError, ByteBuffer};
use rqc::finite_buffer::FiniteByteBuffer;
use rqc::runner::{handle_outcome, run, Predicate, RunCounters, StepVerdict};

/// Draws two bytes and checks that multiplication agrees with repeated
/// addition; this can never fail.
struct MulIsAdd;

impl Predicate for MulIsAdd {
    fn check(&self, pool: &mut ByteBuffer) -> Result<TestResult, BufferOpError> {
        let lhs = arb_u8(pool)?;
        let rhs = arb_u8(pool)?;
        let mul = lhs.wrapping_mul(rhs);
        let mut add_mul: u8 = 0;
        for _ in 0..rhs {
            add_mul = add_mul.wrapping_add(lhs);
        }
        if add_mul != mul {
            return Ok(TestResult::Failed);
        }
        Ok(TestResult::Passed)
    }
}

/// Copies sixteen bytes into a finite pool and then asks it for eight words
/// and one more byte; the finite pool always runs out.
struct AsksTooMuch;

impl Predicate for AsksTooMuch {
    fn check(&self, pool: &mut ByteBuffer) -> Result<TestResult, BufferOpError> {
        let mut blob = vec![0; 16];
        pool.fill(&mut blob);
        let mut finite = FiniteByteBuffer::new(blob);
        for _ in 0..8u8 {
            if arb_u64(&mut finite).is_err() {
                return Err(BufferOpError::InsufficientBytes);
            }
        }
        if arb_u8(&mut finite).is_err() {
            return Err(BufferOpError::InsufficientBytes);
        }
        Ok(TestResult::Passed)
    }
}

/// Skips inputs whose first byte is odd and passes the rest; a skip leaves
/// the pool where the draw left it, so the next invocation sees the next
/// byte.
struct SkipsOdd;

impl Predicate for SkipsOdd {
    fn check(&self, pool: &mut ByteBuffer) -> Result<TestResult, BufferOpError> {
        let b = arb_u8(pool)?;
        if b % 2 == 1 {
            Ok(TestResult::Skipped)
        } else {
            Ok(TestResult::Passed)
        }
    }
}

/// Fails on every input: the runner shrinks, shifts, and redraws forever.
struct AlwaysFails;

impl Predicate for AlwaysFails {
    fn check(&self, _pool: &mut ByteBuffer) -> Result<TestResult, BufferOpError> {
        Ok(TestResult::Failed)
    }
}

#[test]
fn mul_is_add_never_fails() {
    let mut pool = ByteBuffer::new(64, 7).unwrap();
    let c = run(&mut pool, &MulIsAdd, 500);
    assert_eq!(c.invocations, 500);
    assert_eq!(c.failed, 0);
    assert_eq!(c.skipped, 0);
    assert_eq!(c.insufficient, 0);
    assert_eq!(c.passed, 500);
}

#[test]
fn insufficient_bytes_recovery() {
    // A sixteen-byte pool cannot satisfy the predicate; the runner shifts
    // through every start and redraws, never getting stuck.
    let mut pool = ByteBuffer::new(16, 3).unwrap();
    let c = run(&mut pool, &AsksTooMuch, 100);
    assert_eq!(c.invocations, 100);
    assert_eq!(c.insufficient, 100);
    assert_eq!(c.passed + c.skipped + c.failed, 0);
}

#[test]
fn failing_run_is_conserved() {
    let mut pool = ByteBuffer::new(8, 11).unwrap();
    let c = run(&mut pool, &AlwaysFails, 250);
    assert_eq!(c.invocations, 250);
    assert_eq!(c.failed, 250);
    assert_eq!(c.passed + c.skipped + c.insufficient, 0);
}

#[test]
fn counters_account_every_invocation() {
    let mut pool = ByteBuffer::from_bytes(vec![1, 2, 3, 4]).unwrap();
    let mut c = RunCounters::new();
    let v = handle_outcome(&mut pool, &mut c, 0, Ok(TestResult::Passed));
    assert_eq!(v, StepVerdict::Done);
    let v = handle_outcome(&mut pool, &mut c, 0, Ok(TestResult::Skipped));
    assert_eq!(v, StepVerdict::Retry);
    let v = handle_outcome(&mut pool, &mut c, 0, Err(BufferOpError::InsufficientBytes));
    assert_eq!(v, StepVerdict::Retry);
    assert_eq!(c.passed, 1);
    assert_eq!(c.skipped, 1);
    assert_eq!(c.insufficient, 1);
    assert_eq!(c.failed, 0);
    assert_eq!(c.invocations, 3);
    assert_eq!(c.passed + c.skipped + c.failed + c.insufficient, c.invocations);
}

#[test]
fn failure_shrinks_then_shifts_then_reallocs() {
    let mut pool = ByteBuffer::from_bytes(vec![1, 2, 3, 4]).unwrap();
    let mut c = RunCounters::new();
    // Failures first shrink the window (4 -> 2 -> 1); each time shrinking
    // is exhausted the start is shifted and the half-size window restored.
    // The shift offset walks 1, 2, 3; with it at 3, every start has been
    // searched, and that failure asks for a redraw: the ninth in all.
    for _ in 0..8u8 {
        assert_eq!(
            handle_outcome(&mut pool, &mut c, 0, Ok(TestResult::Failed)),
            StepVerdict::Retry
        );
    }
    assert_eq!(
        handle_outcome(&mut pool, &mut c, 0, Ok(TestResult::Failed)),
        StepVerdict::DoneRealloc
    );
    assert_eq!(c.failed, 9);
    assert_eq!(c.invocations, 9);
}

#[test]
fn skip_reuses_the_pool_position() {
    let mut pool = ByteBuffer::from_bytes(vec![1, 2, 3, 4]).unwrap();
    let c = run(&mut pool, &SkipsOdd, 4);
    assert_eq!(c.invocations, 4);
    assert_eq!(c.skipped, 2);
    assert_eq!(c.passed, 2);
    assert_eq!(c.failed + c.insufficient, 0);
    // The four draws walked the pool once around.
    assert_eq!(pool.offset(), 0);
}
