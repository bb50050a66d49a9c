//! A property-based fuzz-testing harness: structured values are drawn from a
//! pool of unstructured bytes, a runner drives a user predicate over the pool
//! and searches for small failing inputs, and a supervisor exchanges byte
//! blobs and verdicts with an out-of-process test target over a shared region.

pub mod arbitrary;
pub mod backoff;
pub mod client;
pub mod comm;
pub mod cyclic_buffer;
pub mod finite_buffer;
pub mod runner;
pub mod supervisor;
