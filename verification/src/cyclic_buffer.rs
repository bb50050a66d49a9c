//! The cyclic byte pool: a fixed heap buffer that is re-read endlessly to
//! simulate an infinite stream of not-very-random data.
//!
//! Reads walk the window `[offset .. virtual_len]` and wrap across
//! `[0 .. offset]`, so byte `i` of the stream is
//! `buffer[(offset + i) % virtual_len]`. The runner's search strategy is
//! built from three moves: `shrink_from` halves the virtual length to look
//! for a smaller failing input, `shift_right` advances the logical start of
//! the stream, and the resets restore or redraw the buffer once a search
//! direction is exhausted.

use vstd::prelude::*;

use crate::arbitrary::{le_u64, Unstructured};
use rand::rngs::SmallRng;
use vstd::arithmetic::div_mod::{lemma_add_mod_noop_right, lemma_mod_self_0, lemma_small_mod};
use vstd::pervasive::VecAdditionalExecFns;

verus! {

/// Relies on rand's `SmallRng` type: the pool carries the generator as an
/// opaque value and only ever touches it through the wrappers below.
#[verifier::external_type_specification]
#[verifier::external_body]
pub struct ExSmallRng(SmallRng);

/// Relies on rand's `SmallRng::seed_from_u64` to build a generator from a
/// word-sized seed. Nothing is assumed of the generator.
#[verifier::external_body]
fn rng_from_seed(seed: u64) -> SmallRng {
    <SmallRng as rand::SeedableRng>::seed_from_u64(seed)
}

/// Relies on rand's `Rng::random` to draw one byte. Nothing is assumed of
/// the value drawn.
#[verifier::external_body]
fn rng_next_byte(rng: &mut SmallRng) -> u8 {
    rand::Rng::random::<u8>(rng)
}

/// Errors of cyclic-pool construction.
#[derive(Debug, Clone, Copy, PartialEq, Eq, Structural)]
pub enum BufferInitError {
    /// The requested pool is empty.
    EmptyInput,
    /// The requested pool is too small to search in.
    BufferTooSmall,
}

/// Errors of cyclic-pool operations.
#[derive(Debug, Clone, Copy, PartialEq, Eq, Structural)]
pub enum BufferOpError {
    /// A read asked for more bytes than the pool could serve.
    InsufficientBytes,
    /// The requested shift would wrap around to an already-searched start
    /// position, duplicating tests.
    ShiftWrapAround,
}

/// A source of unstructured data which returns the same data over and over
/// again, re-read through a shrinking virtual window and a movable start
/// offset.
pub struct ByteBuffer {
    buffer: Vec<u8>,
    rng: SmallRng,
    offset: usize,
    shift_offset: usize,
    virtual_len: usize,
    container_size_limit: usize,
}

impl ByteBuffer {
    /// The bytes currently in the pool.
    pub closed spec fn bytes(&self) -> Seq<u8> {
        self.buffer@
    }

    /// The read cursor, always inside the virtual window.
    pub closed spec fn pos(&self) -> int {
        self.offset as int
    }

    /// The shift offset: where `soft_reset` repositions the cursor.
    pub closed spec fn shift(&self) -> int {
        self.shift_offset as int
    }

    /// The virtual length: the logical size of the pool.
    pub closed spec fn vlen(&self) -> int {
        self.virtual_len as int
    }

    /// The exclusive ceiling on container sizes.
    pub closed spec fn limit(&self) -> int {
        self.container_size_limit as int
    }

    /// Create a pool of `capacity` bytes drawn from a generator seeded with
    /// `seed`. The pool starts at full virtual length with both offsets at
    /// zero and a container-size ceiling of 256.
    pub fn new(capacity: usize, seed: u64) -> (r: Result<ByteBuffer, BufferInitError>)
        ensures
            (r is Ok) <==> capacity > 2,
            capacity == 0 ==> r == Result::<ByteBuffer, BufferInitError>::Err(
                BufferInitError::EmptyInput,
            ),
            (1 <= capacity <= 2) ==> r == Result::<ByteBuffer, BufferInitError>::Err(
                BufferInitError::BufferTooSmall,
            ),
            (r is Ok) ==> {
                &&& r->Ok_0.wf()
                &&& r->Ok_0.bytes().len() == capacity
                &&& r->Ok_0.vlen() == capacity
                &&& r->Ok_0.pos() == 0
                &&& r->Ok_0.shift() == 0
                &&& r->Ok_0.limit() == 256
            },
    {
        if capacity == 0 {
            return Err(BufferInitError::EmptyInput);
        }
        if capacity <= 2 {
            return Err(BufferInitError::BufferTooSmall);
        }
        let mut rng = rng_from_seed(seed);
        let mut buffer: Vec<u8> = Vec::new();
        let mut k: usize = 0;
        while k < capacity
            invariant
                buffer@.len() == k,
                k <= capacity,
            decreases capacity - k,
        {
            let b = rng_next_byte(&mut rng);
            buffer.push(b);
            k += 1;
        }
        Ok(
            ByteBuffer {
                virtual_len: capacity,
                shift_offset: 0,
                offset: 0,
                buffer,
                rng,
                container_size_limit: 256,
            },
        )
    }

    /// Create a pool over the given bytes, for reproducible runs; the
    /// generator used by `hard_reset` is seeded with zero.
    pub fn from_bytes(bytes: Vec<u8>) -> (r: Result<ByteBuffer, BufferInitError>)
        ensures
            (r is Ok) <==> bytes@.len() > 2,
            bytes@.len() == 0 ==> r == Result::<ByteBuffer, BufferInitError>::Err(
                BufferInitError::EmptyInput,
            ),
            (1 <= bytes@.len() <= 2) ==> r == Result::<ByteBuffer, BufferInitError>::Err(
                BufferInitError::BufferTooSmall,
            ),
            (r is Ok) ==> {
                &&& r->Ok_0.wf()
                &&& r->Ok_0.bytes() == bytes@
                &&& r->Ok_0.vlen() == bytes@.len()
                &&& r->Ok_0.pos() == 0
                &&& r->Ok_0.shift() == 0
                &&& r->Ok_0.limit() == 256
            },
    {
        if bytes.len() == 0 {
            return Err(BufferInitError::EmptyInput);
        }
        if bytes.len() <= 2 {
            return Err(BufferInitError::BufferTooSmall);
        }
        let virtual_len = bytes.len();
        Ok(
            ByteBuffer {
                virtual_len,
                shift_offset: 0,
                offset: 0,
                buffer: bytes,
                rng: rng_from_seed(0),
                container_size_limit: 256,
            },
        )
    }

    /// Replace the container-size ceiling.
    pub fn container_size_limit(self, csl: usize) -> (r: ByteBuffer)
        requires
            self.wf(),
            csl >= 1,
        ensures
            r.wf(),
            r.bytes() == self.bytes(),
            r.pos() == self.pos(),
            r.shift() == self.shift(),
            r.vlen() == self.vlen(),
            r.limit() == csl,
    {
        ByteBuffer { container_size_limit: csl, ..self }
    }

    /// The current read cursor.
    pub fn offset(&self) -> (o: usize)
        ensures
            o == self.pos(),
    {
        self.offset
    }

    /// Advance the logical start of the stream by `k` positions and move the
    /// read cursor there. Fails with `ShiftWrapAround`, touching nothing,
    /// when the new start would wrap around to the first position again:
    /// every start has then been searched.
    pub fn shift_right(&mut self, k: usize) -> (r: Result<(), BufferOpError>)
        requires
            old(self).wf(),
        ensures
            final(self).wf(),
            (r is Err) <==> (old(self).shift() + k) % old(self).bytes().len() as int == 0,
            (r is Err) ==> r == Result::<(), BufferOpError>::Err(BufferOpError::ShiftWrapAround)
                && *final(self) == *old(self),
            (r is Ok) ==> {
                &&& final(self).shift() == (old(self).shift() + k) % old(self).bytes().len() as int
                &&& final(self).pos() == final(self).shift() % old(self).vlen()
                &&& final(self).bytes() == old(self).bytes()
                &&& final(self).vlen() == old(self).vlen()
                &&& final(self).limit() == old(self).limit()
            },
    {
        let len = self.buffer.len();
        let sum: u128 = self.shift_offset as u128 + k as u128;
        let ns: usize = (sum % (len as u128)) as usize;
        if ns == 0 {
            Err(BufferOpError::ShiftWrapAround)
        } else {
            self.shift_offset = ns;
            self.offset = ns % self.virtual_len;
            Ok(())
        }
    }

    /// Reposition the read cursor at the shift offset, reduced into the
    /// window, and halve the virtual length.
    pub fn soft_reset(&mut self)
        requires
            old(self).wf(),
        ensures
            final(self).wf(),
            final(self).vlen() == old(self).bytes().len() as int / 2,
            final(self).pos() == old(self).shift() % final(self).vlen(),
            final(self).shift() == old(self).shift(),
            final(self).bytes() == old(self).bytes(),
            final(self).limit() == old(self).limit(),
    {
        self.virtual_len = self.buffer.len() / 2;
        self.offset = self.shift_offset % self.virtual_len;
    }

    /// Soft-reset and redraw the whole buffer from the pool's generator.
    pub fn hard_reset(&mut self)
        requires
            old(self).wf(),
        ensures
            final(self).wf(),
            final(self).bytes().len() == old(self).bytes().len(),
            final(self).vlen() == old(self).bytes().len() as int / 2,
            final(self).pos() == old(self).shift() % final(self).vlen(),
            final(self).shift() == old(self).shift(),
            final(self).limit() == old(self).limit(),
    {
        self.soft_reset();
        let n = self.buffer.len();
        let mut k: usize = 0;
        while k < n
            invariant
                k <= n,
                self.buffer@.len() == n,
                self.offset == old(self).shift() % (old(self).bytes().len() as int / 2),
                self.shift_offset == old(self).shift_offset,
                self.virtual_len == old(self).bytes().len() as int / 2,
                self.container_size_limit == old(self).container_size_limit,
                self.wf(),
            decreases n - k,
        {
            let b = rng_next_byte(&mut self.rng);
            self.buffer.set(k, b);
            k += 1;
        }
    }

    /// Set the read cursor back to a saved offset, reduced into the window,
    /// and halve the virtual length. Returns the halved length; zero means
    /// shrinking is exhausted. The stored window never drops below one byte,
    /// so later reads stay defined.
    pub fn shrink_from(&mut self, offset: usize) -> (r: usize)
        requires
            old(self).wf(),
        ensures
            final(self).wf(),
            r == old(self).vlen() / 2,
            final(self).vlen() == if old(self).vlen() / 2 == 0 {
                1int
            } else {
                old(self).vlen() / 2
            },
            final(self).pos() == offset as int % final(self).vlen(),
            final(self).shift() == old(self).shift(),
            final(self).bytes() == old(self).bytes(),
            final(self).limit() == old(self).limit(),
    {
        let half = self.virtual_len / 2;
        self.virtual_len = if half == 0 {
            1
        } else {
            half
        };
        self.offset = offset % self.virtual_len;
        half
    }

    /// Copy the next `dst.len()` stream bytes into `dst`, wrapping through
    /// the virtual window, and advance the cursor past them: a cyclic fill
    /// never fails, and the cursor lands on `(offset + dst.len()) %
    /// virtual_len`.
    pub fn fill(&mut self, dst: &mut Vec<u8>)
        requires
            old(self).wf(),
        ensures
            final(self).wf(),
            final(dst)@.len() == old(dst)@.len(),
            forall|i: int| 0 <= i < old(dst)@.len() ==> final(dst)@[i] == old(self).stream(i),
            final(self).pos() == (old(self).pos() + old(dst)@.len()) % old(self).vlen(),
            final(self).bytes() == old(self).bytes(),
            final(self).shift() == old(self).shift(),
            final(self).vlen() == old(self).vlen(),
            final(self).limit() == old(self).limit(),
    {
        let n = dst.len();
        let v = self.virtual_len;
        let mut cur = self.offset;
        let mut k: usize = 0;
        proof {
            lemma_small_mod(old(self).pos() as nat, old(self).vlen() as nat);
        }
        while k < n
            invariant
                k <= n,
                n == dst@.len(),
                *self == *old(self),
                self.wf(),
                v == self.vlen(),
                cur < v,
                cur as int == (old(self).pos() + k) % old(self).vlen(),
                forall|i: int| 0 <= i < k ==> dst@[i] == old(self).stream(i),
            decreases n - k,
        {
            let b = self.buffer[cur];
            proof {
                assert(b == old(self).stream(k as int));
            }
            dst.set(k, b);
            proof {
                lemma_add_mod_noop_right(
                    cur as int + 1 - 1,
                    1,
                    old(self).vlen(),
                );
                assert((old(self).pos() + k + 1) % old(self).vlen() == (cur as int + 1)
                    % old(self).vlen()) by {
                    lemma_add_mod_noop_right(1, old(self).pos() + k, old(self).vlen());
                    assert(1 + (old(self).pos() + k) % old(self).vlen() == cur as int + 1);
                };
                if cur as int + 1 == old(self).vlen() {
                    lemma_mod_self_0(old(self).vlen());
                } else {
                    lemma_small_mod((cur + 1) as nat, old(self).vlen() as nat);
                }
            }
            cur = if cur + 1 == v {
                0
            } else {
                cur + 1
            };
            k += 1;
        }
        self.offset = cur;
    }
}

impl Unstructured for ByteBuffer {
    type Error = BufferOpError;

    /// The buffer is large enough to search in, the virtual window fits in
    /// it, the cursor is inside the window, the shift offset is inside the
    /// buffer, and the ceiling is positive.
    open spec fn wf(&self) -> bool {
        &&& 3 <= self.bytes().len() <= usize::MAX
        &&& 1 <= self.vlen() <= self.bytes().len()
        &&& 0 <= self.pos() < self.vlen()
        &&& 0 <= self.shift() < self.bytes().len()
        &&& self.limit() >= 1
    }

    /// The stream wraps through the virtual window forever.
    open spec fn stream(&self, i: int) -> u8 {
        self.bytes()[(self.pos() + i) % self.vlen()]
    }

    /// A cyclic pool never runs out of bytes.
    open spec fn can_fill(&self, n: nat) -> bool {
        true
    }

    open spec fn container_limit(&self) -> int {
        self.limit()
    }

    /// A container size costs one machine word of the stream.
    open spec fn container_size_cost(&self) -> nat {
        8
    }

    /// The next machine word of the stream, reduced by the ceiling.
    open spec fn container_size_spec(&self) -> int {
        ((le_u64(
            self.stream(0),
            self.stream(1),
            self.stream(2),
            self.stream(3),
            self.stream(4),
            self.stream(5),
            self.stream(6),
            self.stream(7),
        ) as u64) as usize) as int % self.limit()
    }

    fn fill_buffer(&mut self, buffer: &mut Vec<u8>) -> (r: Result<(), BufferOpError>) {
        self.fill(buffer);
        proof {
            assert forall|i: int| 0 <= i implies #[trigger] final(self).stream(i) == old(
                self,
            ).stream(i + old(buffer)@.len()) by {
                lemma_add_mod_noop_right(
                    i,
                    old(self).pos() + old(buffer)@.len(),
                    old(self).vlen(),
                );
            }
        }
        Ok(())
    }

    fn container_size(&mut self) -> (r: Result<usize, BufferOpError>) {
        let mut word: Vec<u8> = Vec::new();
        let mut k: usize = 0;
        while k < 8
            invariant
                word@.len() == k,
                k <= 8,
                *self == *old(self),
                self.wf(),
            decreases 8 - k,
        {
            word.push(0);
            k += 1;
        }
        self.fill(&mut word);
        let v: u64 = (word[0] as u64) + 0x100 * (word[1] as u64) + 0x1_0000 * (word[2] as u64)
            + 0x100_0000 * (word[3] as u64) + 0x1_0000_0000 * (word[4] as u64) + 0x100_0000_0000
            * (word[5] as u64) + 0x1_0000_0000_0000 * (word[6] as u64) + 0x100_0000_0000_0000 * (
        word[7] as u64);
        let w = #[verifier::truncate] (v as usize);
        proof {
            assert forall|i: int| 0 <= i implies #[trigger] final(self).stream(i) == old(
                self,
            ).stream(i + 8) by {
                lemma_add_mod_noop_right(i, old(self).pos() + 8, old(self).vlen());
            }
        }
        Ok(w % self.container_size_limit)
    }
}


/// Law: shift exhaustion. On a pool of `len` bytes, unit shifts from a
/// fresh pool (shift offset zero) succeed one after another, moving the
/// shift offset to 1, 2, ...; the shift taken with the offset standing at
/// `len - 1` -- call number `len - 1`, counting the first shift as call
/// zero -- is the first to report `ShiftWrapAround`. Read together with
/// `shift_right`, whose error condition is `(shift + k) % len == 0`: from
/// offset `j < len - 1` a unit shift succeeds and lands on `j + 1`, and
/// from offset `len - 1` it fails.
pub proof fn lemma_shift_exhaustion(len: int, j: int)
    requires
        3 <= len,
        0 <= j < len,
    ensures
        j < len - 1 ==> (j + 1) % len == j + 1 && (j + 1) % len != 0,
        j == len - 1 ==> (j + 1) % len == 0,
{
    if j < len - 1 {
        lemma_small_mod((j + 1) as nat, len as nat);
    } else {
        lemma_mod_self_0(len);
    }
}

} // verus!
