//! The finite byte pool: a bounded buffer read front to back, which fails
//! with [`BufferOpError::InsufficientBytes`] once a read would run past the
//! end, leaving the pool untouched.

use vstd::prelude::*;

use crate::arbitrary::{le_u64, Unstructured};
use vstd::pervasive::VecAdditionalExecFns;

verus! {

/// Errors of the finite pool.
#[derive(Debug, Clone, Copy, PartialEq, Eq, Structural)]
pub enum BufferOpError {
    /// A read asked for more bytes than remain in the pool.
    InsufficientBytes,
}

/// A bounded source of unstructured bytes, consumed front to back.
pub struct FiniteByteBuffer {
    buffer: Vec<u8>,
    offset: usize,
    container_size_limit: usize,
}

impl FiniteByteBuffer {
    /// The bytes the pool was created over.
    pub closed spec fn bytes(&self) -> Seq<u8> {
        self.buffer@
    }

    /// How many bytes have been consumed.
    pub closed spec fn pos(&self) -> int {
        self.offset as int
    }

    /// The exclusive ceiling on container sizes.
    pub closed spec fn limit(&self) -> int {
        self.container_size_limit as int
    }

    /// Create a pool over `buffer` with the default container-size ceiling
    /// of 256.
    pub fn new(buffer: Vec<u8>) -> (r: FiniteByteBuffer)
        ensures
            r.wf(),
            r.bytes() == buffer@,
            r.pos() == 0,
            r.limit() == 256,
    {
        FiniteByteBuffer { offset: 0, buffer, container_size_limit: 256 }
    }

    /// Replace the container-size ceiling.
    pub fn container_size_limit(self, csl: usize) -> (r: FiniteByteBuffer)
        requires
            self.wf(),
            csl >= 1,
        ensures
            r.wf(),
            r.bytes() == self.bytes(),
            r.pos() == self.pos(),
            r.limit() == csl,
    {
        FiniteByteBuffer { container_size_limit: csl, ..self }
    }
}

impl Unstructured for FiniteByteBuffer {
    type Error = BufferOpError;

    /// The read cursor is inside the buffer and the ceiling is positive.
    open spec fn wf(&self) -> bool {
        0 <= self.pos() <= self.bytes().len() && self.limit() >= 1
    }

    /// The remaining bytes, then zeros past the end; reads never see the
    /// zeros because they fail instead.
    open spec fn stream(&self, i: int) -> u8 {
        if 0 <= i && self.pos() + i < self.bytes().len() {
            self.bytes()[self.pos() + i]
        } else {
            0
        }
    }

    /// A read succeeds exactly when it fits in what remains.
    open spec fn can_fill(&self, n: nat) -> bool {
        self.pos() + n <= self.bytes().len()
    }

    open spec fn container_limit(&self) -> int {
        self.limit()
    }

    /// A container size costs one machine word of the stream.
    open spec fn container_size_cost(&self) -> nat {
        8
    }

    /// The next machine word of the stream, reduced by the ceiling.
    open spec fn container_size_spec(&self) -> int {
        ((le_u64(
            self.stream(0),
            self.stream(1),
            self.stream(2),
            self.stream(3),
            self.stream(4),
            self.stream(5),
            self.stream(6),
            self.stream(7),
        ) as u64) as usize) as int % self.limit()
    }

    fn fill_buffer(&mut self, buffer: &mut Vec<u8>) -> (r: Result<(), BufferOpError>) {
        self.fill(buffer)
    }

    fn container_size(&mut self) -> (r: Result<usize, BufferOpError>) {
        match self.take_word() {
            Ok(v) => Ok(v % self.container_size_limit),
            Err(e) => Err(e),
        }
    }
}

impl FiniteByteBuffer {
    /// Copy the next `dst.len()` remaining bytes into `dst` and advance the
    /// cursor past them. The read succeeds exactly when it fits into what
    /// remains; a read past the end fails with `InsufficientBytes` and
    /// touches neither the pool nor `dst`.
    pub fn fill(&mut self, dst: &mut Vec<u8>) -> (r: Result<(), BufferOpError>)
        requires
            old(self).wf(),
        ensures
            final(self).wf(),
            final(dst)@.len() == old(dst)@.len(),
            (r is Ok) <==> old(self).pos() + old(dst)@.len() <= old(self).bytes().len(),
            (r is Ok) ==> {
                &&& (forall|i: int|
                    0 <= i < old(dst)@.len() ==> final(dst)@[i] == old(self).bytes()[old(
                        self,
                    ).pos() + i])
                &&& final(self).pos() == old(self).pos() + old(dst)@.len()
                &&& final(self).bytes() == old(self).bytes()
                &&& final(self).limit() == old(self).limit()
            },
            (r is Err) ==> r == Result::<(), BufferOpError>::Err(BufferOpError::InsufficientBytes)
                && *final(self) == *old(self) && final(dst)@ == old(dst)@,
    {
        let n = dst.len();
        if n <= self.buffer.len() - self.offset {
            let mut k: usize = 0;
            while k < n
                invariant
                    n == dst@.len(),
                    k <= n,
                    self == old(self),
                    self.offset + n <= self.buffer@.len(),
                    self.buffer@.len() <= usize::MAX,
                    forall|i: int| 0 <= i < k ==> dst@[i] == old(self).bytes()[old(self).pos() + i],
                decreases n - k,
            {
                dst.set(k, self.buffer[self.offset + k]);
                k += 1;
            }
            self.offset = self.offset + n;
            Ok(())
        } else {
            Err(BufferOpError::InsufficientBytes)
        }
    }

    /// Consume the next eight bytes as one little-endian machine word.
    fn take_word(&mut self) -> (r: Result<usize, BufferOpError>)
        requires
            old(self).wf(),
        ensures
            final(self).wf(),
            (r is Ok) <==> old(self).pos() + 8 <= old(self).bytes().len(),
            (r is Ok) ==> final(self).pos() == old(self).pos() + 8,
            (r is Ok) ==> r->Ok_0 == (le_u64(
                old(self).bytes()[old(self).pos() + 0],
                old(self).bytes()[old(self).pos() + 1],
                old(self).bytes()[old(self).pos() + 2],
                old(self).bytes()[old(self).pos() + 3],
                old(self).bytes()[old(self).pos() + 4],
                old(self).bytes()[old(self).pos() + 5],
                old(self).bytes()[old(self).pos() + 6],
                old(self).bytes()[old(self).pos() + 7],
            ) as u64) as usize,
            final(self).bytes() == old(self).bytes(),
            final(self).limit() == old(self).limit(),
            (r is Err) ==> *final(self) == *old(self),
    {
        if self.buffer.len() - self.offset >= 8 {
            let o = self.offset;
            let v: u64 = (self.buffer[o] as u64) + 0x100 * (self.buffer[o + 1] as u64) + 0x1_0000
                * (self.buffer[o + 2] as u64) + 0x100_0000 * (self.buffer[o + 3] as u64)
                + 0x1_0000_0000 * (self.buffer[o + 4] as u64) + 0x100_0000_0000 * (self.buffer[o
                + 5] as u64) + 0x1_0000_0000_0000 * (self.buffer[o + 6] as u64)
                + 0x100_0000_0000_0000 * (self.buffer[o + 7] as u64);
            self.offset = o + 8;
            Ok(#[verifier::truncate] (v as usize))
        } else {
            Err(BufferOpError::InsufficientBytes)
        }
    }
}


/// The sum of a sequence of request lengths.
pub open spec fn sum_of(reqs: Seq<int>) -> int
    decreases reqs.len(),
{
    if reqs.len() == 0 {
        0
    } else {
        reqs[0] + sum_of(reqs.drop_first())
    }
}

proof fn lemma_sum_nonneg(reqs: Seq<int>)
    requires
        forall|i: int| 0 <= i < reqs.len() ==> reqs[i] >= 0,
    ensures
        sum_of(reqs) >= 0,
    decreases reqs.len(),
{
    if reqs.len() > 0 {
        lemma_sum_nonneg(reqs.drop_first());
    }
}

/// Whether a finite pool of `len` bytes with its cursor at `pos` serves a
/// whole sequence of reads of the given lengths: each read must fit into
/// what remains, and on success the cursor advances by the read's length,
/// exactly as `fill` behaves.
pub open spec fn fills_ok(len: int, pos: int, reqs: Seq<int>) -> bool
    decreases reqs.len(),
{
    reqs.len() == 0 || (pos + reqs[0] <= len && fills_ok(len, pos + reqs[0], reqs.drop_first()))
}

/// Law: finite-pool exhaustion. For a pool of `len` bytes and any sequence
/// of reads, the whole sequence succeeds exactly when the requested byte
/// counts sum to no more than what the pool holds past the cursor; the
/// first read that would push the running total past the end is the one
/// that fails.
pub proof fn lemma_finite_pool_exhaustion(len: int, pos: int, reqs: Seq<int>)
    requires
        0 <= pos <= len,
        forall|i: int| 0 <= i < reqs.len() ==> reqs[i] >= 0,
    ensures
        fills_ok(len, pos, reqs) <==> pos + sum_of(reqs) <= len,
    decreases reqs.len(),
{
    if reqs.len() > 0 {
        let rest = reqs.drop_first();
        assert(forall|i: int| 0 <= i < rest.len() ==> rest[i] >= 0);
        lemma_sum_nonneg(rest);
        if pos + reqs[0] <= len {
            lemma_finite_pool_exhaustion(len, pos + reqs[0], rest);
        }
    }
}

} // verus!
