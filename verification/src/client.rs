//! The target-side (client) runtime: configuration for the in-target pool
//! and the mapping from a predicate's outcome to the status word it reports.
//!
//! The client's loop itself waits on the shared region and runs the user
//! predicate; the waiting and the region mapping live with the caller, while
//! the verdict encoding and the pool construction are verified here.

use vstd::prelude::*;

use crate::comm::TestStatus;
use crate::finite_buffer::BufferOpError;

verus! {

/// The size, in bytes, of the region the client expects at minimum.
pub const TOTAL_BYTES: usize = 32768;

/// What a predicate reports of one drawn input.
#[derive(Debug, Clone, Copy, PartialEq, Eq, Structural)]
pub enum TestResult {
    Passed,
    Skipped,
    Failed,
}

/// The status word a client reports for a predicate's outcome: verdicts map
/// to themselves and a pool underflow maps to `InsufficientBytes`.
pub fn status_of_outcome(outcome: &Result<TestResult, BufferOpError>) -> (s: TestStatus)
    ensures
        outcome == &Result::<TestResult, BufferOpError>::Ok(TestResult::Passed) ==> s
            == TestStatus::Passed,
        outcome == &Result::<TestResult, BufferOpError>::Ok(TestResult::Skipped) ==> s
            == TestStatus::Skipped,
        outcome == &Result::<TestResult, BufferOpError>::Ok(TestResult::Failed) ==> s
            == TestStatus::Failed,
        (outcome is Err) ==> s == TestStatus::InsufficientBytes,
{
    match outcome {
        Ok(TestResult::Passed) => TestStatus::Passed,
        Ok(TestResult::Skipped) => TestStatus::Skipped,
        Ok(TestResult::Failed) => TestStatus::Failed,
        Err(BufferOpError::InsufficientBytes) => TestStatus::InsufficientBytes,
    }
}

/// Builder for the client runtime.
#[derive(Default)]
pub struct RqcBuild {
    byte_pool_capacity: Option<u32>,
}

/// The client runtime's configuration.
pub struct Rqc {
    byte_pool_capacity: usize,
}

impl RqcBuild {
    /// A builder with every knob at its default.
    pub fn new() -> (r: RqcBuild)
        ensures
            r.capacity_spec() is None,
    {
        RqcBuild { byte_pool_capacity: None }
    }

    /// The configured pool capacity, if one was set.
    pub closed spec fn capacity_spec(&self) -> Option<u32> {
        self.byte_pool_capacity
    }

    /// Set the capacity of the local byte pool the client reads blobs into.
    pub fn byte_pool_capacity(self, byte_pool_capacity: u32) -> (r: RqcBuild)
        ensures
            r.capacity_spec() == Some(byte_pool_capacity),
    {
        RqcBuild { byte_pool_capacity: Some(byte_pool_capacity) }
    }

    /// Finish the builder; an unset capacity defaults to 1 MiB.
    pub fn build(self) -> (r: Rqc)
        ensures
            r.capacity_spec() == match self.capacity_spec() {
                Some(c) => c as int,
                None => 1048576int,
            },
    {
        Rqc {
            byte_pool_capacity: match self.byte_pool_capacity {
                Some(c) => c as usize,
                None => 1048576,
            },
        }
    }
}

impl Rqc {
    /// The capacity of the local byte pool.
    pub closed spec fn capacity_spec(&self) -> int {
        self.byte_pool_capacity as int
    }

    /// The capacity of the local byte pool.
    pub fn byte_pool_capacity(&self) -> (c: usize)
        ensures
            c == self.capacity_spec(),
    {
        self.byte_pool_capacity
    }
}

} // verus!
