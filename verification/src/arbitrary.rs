//! The generator contract: turning a pool of unstructured bytes into typed
//! values.
//!
//! A byte pool implements [`Unstructured`]; a generated type implements
//! [`Arbitrary`]. The pool is modelled by a stream of bytes together with a
//! predicate saying which read lengths succeed, so that every primitive
//! generator can state exactly which bytes it consumed and what value it
//! decoded from them. The value-level contracts live on the free draw
//! functions (`arb_u8`, `arb_u16`, ...); the trait implementations forward to
//! them.

use vstd::prelude::*;

verus! {

/// A source of unstructured bytes from which `Arbitrary` values are drawn.
///
/// The model of a pool is the stream of bytes that future reads will return
/// (`stream`), the set of read lengths that succeed (`can_fill`), and the
/// ceiling and value of the next container-size draw.
pub trait Unstructured: Sized {
    /// The error a pool reports when it cannot serve a read.
    type Error;

    /// Validity of the pool's internal state; constructors establish it and
    /// every operation preserves it.
    spec fn wf(&self) -> bool;

    /// Byte `i` of the stream that future reads will return.
    spec fn stream(&self, i: int) -> u8;

    /// Whether a read of `n` bytes will succeed.
    spec fn can_fill(&self, n: nat) -> bool;

    /// The exclusive ceiling on values of `container_size`.
    spec fn container_limit(&self) -> int;

    /// How many stream bytes one `container_size` draw consumes.
    spec fn container_size_cost(&self) -> nat;

    /// The value `container_size` returns when it succeeds.
    spec fn container_size_spec(&self) -> int;

    /// Fill `buffer` with the next `buffer.len()` bytes of the stream, or
    /// fail without touching either the pool or the buffer.
    fn fill_buffer(&mut self, buffer: &mut Vec<u8>) -> (r: Result<(), Self::Error>)
        requires
            old(self).wf(),
        ensures
            final(self).wf(),
            final(buffer)@.len() == old(buffer)@.len(),
            (r is Ok) <==> old(self).can_fill(old(buffer)@.len() as nat),
            (r is Ok) ==> (forall|i: int|
                0 <= i < old(buffer)@.len() ==> final(buffer)@[i] == old(self).stream(i)),
            (r is Ok) ==> (forall|i: int|
                0 <= i ==> #[trigger] final(self).stream(i) == old(self).stream(
                    i + old(buffer)@.len(),
                )),
            (r is Ok) ==> (forall|m: nat|
                #[trigger] final(self).can_fill(m) == old(self).can_fill(
                    (m + old(buffer)@.len()) as nat,
                )),
            final(self).container_limit() == old(self).container_limit(),
            final(self).container_size_cost() == old(self).container_size_cost(),
            (r is Err) ==> *final(self) == *old(self) && final(buffer)@ == old(buffer)@,
        ;

    /// Produce a size for a container, strictly below the configured ceiling,
    /// or fail without touching the pool.
    fn container_size(&mut self) -> (r: Result<usize, Self::Error>)
        requires
            old(self).wf(),
        ensures
            final(self).wf(),
            (r is Ok) <==> old(self).can_fill(old(self).container_size_cost()),
            (r is Ok) ==> 0 <= r->Ok_0 < old(self).container_limit(),
            (r is Ok) ==> r->Ok_0 == old(self).container_size_spec(),
            (r is Ok) ==> (forall|i: int|
                0 <= i ==> #[trigger] final(self).stream(i) == old(self).stream(
                    i + old(self).container_size_cost(),
                )),
            (r is Ok) ==> (forall|m: nat|
                #[trigger] final(self).can_fill(m) == old(self).can_fill(
                    (m + old(self).container_size_cost()) as nat,
                )),
            final(self).container_limit() == old(self).container_limit(),
            final(self).container_size_cost() == old(self).container_size_cost(),
            (r is Err) ==> *final(self) == *old(self),
        ;
}

/// The pool `post` is the pool `pre` after exactly `n` stream bytes were
/// consumed: the stream shifted left by `n`, read lengths shifted by `n`, and
/// the container-size configuration untouched.
pub open spec fn advanced_by<U: Unstructured>(pre: U, post: U, n: nat) -> bool {
    &&& (forall|i: int| 0 <= i ==> #[trigger] post.stream(i) == pre.stream(i + n))
    &&& (forall|m: nat| #[trigger] post.can_fill(m) == pre.can_fill((m + n) as nat))
    &&& post.container_limit() == pre.container_limit()
    &&& post.container_size_cost() == pre.container_size_cost()
}

/// Consumption composes: a pool advanced by `n` bytes and then by `m` more
/// is the original advanced by `n + m`.
pub proof fn lemma_advance_trans<U: Unstructured>(a: U, b: U, c: U, n: nat, m: nat)
    requires
        advanced_by(a, b, n),
        advanced_by(b, c, m),
    ensures
        advanced_by(a, c, (n + m) as nat),
{
    assert forall|i: int| 0 <= i implies #[trigger] c.stream(i) == a.stream(i + (n + m)) by {
        assert(c.stream(i) == b.stream(i + m));
        assert(b.stream(i + m) == a.stream(i + m + n));
    }
    assert forall|k: nat| true implies #[trigger] c.can_fill(k) == a.can_fill(
        (k + (n + m)) as nat,
    ) by {
        assert(c.can_fill(k) == b.can_fill((k + m) as nat));
        assert(b.can_fill((k + m) as nat) == a.can_fill(((k + m) + n) as nat));
    }
}

/// The value of two bytes read little-endian.
pub open spec fn le_u16(b0: u8, b1: u8) -> int {
    b0 + 0x100 * b1
}

/// The value of four bytes read little-endian.
pub open spec fn le_u32(b0: u8, b1: u8, b2: u8, b3: u8) -> int {
    le_u16(b0, b1) + 0x1_0000 * le_u16(b2, b3)
}

/// The value of eight bytes read little-endian.
pub open spec fn le_u64(b0: u8, b1: u8, b2: u8, b3: u8, b4: u8, b5: u8, b6: u8, b7: u8) -> int {
    le_u32(b0, b1, b2, b3) + 0x1_0000_0000 * le_u32(b4, b5, b6, b7)
}

/// A type that can be generated from a pool of unstructured bytes.
pub trait Arbitrary: Sized {
    /// Draw a value of this type from the pool.
    fn arbitrary<U: Unstructured>(u: &mut U) -> (r: Result<Self, U::Error>)
        requires
            old(u).wf(),
        ensures
            final(u).wf(),
        ;
}

/// Draw one byte.
pub fn arb_u8<U: Unstructured>(u: &mut U) -> (r: Result<u8, U::Error>)
    requires
        old(u).wf(),
    ensures
        final(u).wf(),
        (r is Ok) <==> old(u).can_fill(1),
        (r is Ok) ==> r->Ok_0 == old(u).stream(0),
        (r is Ok) ==> advanced_by(*old(u), *final(u), 1),
        (r is Err) ==> *final(u) == *old(u),
{
    let mut x: Vec<u8> = Vec::new();
    x.push(0);
    match u.fill_buffer(&mut x) {
        Ok(()) => Ok(x[0]),
        Err(e) => Err(e),
    }
}

/// Draw two bytes and decode them little-endian.
pub fn arb_u16<U: Unstructured>(u: &mut U) -> (r: Result<u16, U::Error>)
    requires
        old(u).wf(),
    ensures
        final(u).wf(),
        (r is Ok) <==> old(u).can_fill(2),
        (r is Ok) ==> r->Ok_0 == le_u16(old(u).stream(0), old(u).stream(1)),
        (r is Ok) ==> advanced_by(*old(u), *final(u), 2),
        (r is Err) ==> *final(u) == *old(u),
{
    let mut x: Vec<u8> = Vec::new();
    x.push(0);
    x.push(0);
    match u.fill_buffer(&mut x) {
        Ok(()) => Ok((x[0] as u16) + 0x100 * (x[1] as u16)),
        Err(e) => Err(e),
    }
}

/// Draw four bytes and decode them little-endian.
pub fn arb_u32<U: Unstructured>(u: &mut U) -> (r: Result<u32, U::Error>)
    requires
        old(u).wf(),
    ensures
        final(u).wf(),
        (r is Ok) <==> old(u).can_fill(4),
        (r is Ok) ==> r->Ok_0 == le_u32(
            old(u).stream(0),
            old(u).stream(1),
            old(u).stream(2),
            old(u).stream(3),
        ),
        (r is Ok) ==> advanced_by(*old(u), *final(u), 4),
        (r is Err) ==> *final(u) == *old(u),
{
    let mut x: Vec<u8> = Vec::new();
    x.push(0);
    x.push(0);
    x.push(0);
    x.push(0);
    match u.fill_buffer(&mut x) {
        Ok(()) => {
            let v: u32 = (x[0] as u32) + 0x100 * (x[1] as u32) + 0x1_0000 * (x[2] as u32)
                + 0x100_0000 * (x[3] as u32);
            Ok(v)
        },
        Err(e) => Err(e),
    }
}

/// Draw eight bytes and decode them little-endian.
pub fn arb_u64<U: Unstructured>(u: &mut U) -> (r: Result<u64, U::Error>)
    requires
        old(u).wf(),
    ensures
        final(u).wf(),
        (r is Ok) <==> old(u).can_fill(8),
        (r is Ok) ==> r->Ok_0 == le_u64(
            old(u).stream(0),
            old(u).stream(1),
            old(u).stream(2),
            old(u).stream(3),
            old(u).stream(4),
            old(u).stream(5),
            old(u).stream(6),
            old(u).stream(7),
        ),
        (r is Ok) ==> advanced_by(*old(u), *final(u), 8),
        (r is Err) ==> *final(u) == *old(u),
{
    let mut x: Vec<u8> = Vec::new();
    let mut k: usize = 0;
    while k < 8
        invariant
            x@.len() == k,
            k <= 8,
        decreases 8 - k,
    {
        x.push(0);
        k += 1;
    }
    match u.fill_buffer(&mut x) {
        Ok(()) => {
            let v: u64 = (x[0] as u64) + 0x100 * (x[1] as u64) + 0x1_0000 * (x[2] as u64)
                + 0x100_0000 * (x[3] as u64) + 0x1_0000_0000 * (x[4] as u64) + 0x100_0000_0000
                * (x[5] as u64) + 0x1_0000_0000_0000 * (x[6] as u64) + 0x100_0000_0000_0000 * (
            x[7] as u64);
            Ok(v)
        },
        Err(e) => Err(e),
    }
}

/// Draw a machine word: the little-endian value of eight bytes, truncated to
/// the pointer width.
pub fn arb_usize<U: Unstructured>(u: &mut U) -> (r: Result<usize, U::Error>)
    requires
        old(u).wf(),
    ensures
        final(u).wf(),
        (r is Ok) <==> old(u).can_fill(8),
        (r is Ok) ==> r->Ok_0 == (le_u64(
            old(u).stream(0),
            old(u).stream(1),
            old(u).stream(2),
            old(u).stream(3),
            old(u).stream(4),
            old(u).stream(5),
            old(u).stream(6),
            old(u).stream(7),
        ) as u64) as usize,
        (r is Ok) ==> advanced_by(*old(u), *final(u), 8),
        (r is Err) ==> *final(u) == *old(u),
{
    match arb_u64(u) {
        Ok(v) => Ok(#[verifier::truncate] (v as usize)),
        Err(e) => Err(e),
    }
}

/// Draw one byte and take its low bit.
pub fn arb_bool<U: Unstructured>(u: &mut U) -> (r: Result<bool, U::Error>)
    requires
        old(u).wf(),
    ensures
        final(u).wf(),
        (r is Ok) <==> old(u).can_fill(1),
        (r is Ok) ==> r->Ok_0 == (old(u).stream(0) & 1 == 1),
        (r is Ok) ==> advanced_by(*old(u), *final(u), 1),
        (r is Err) ==> *final(u) == *old(u),
{
    match arb_u8(u) {
        Ok(b) => Ok(b & 1 == 1),
        Err(e) => Err(e),
    }
}

/// Whether `v` is a Unicode scalar value, that is, the code of some `char`.
pub open spec fn is_scalar_value(v: int) -> bool {
    0 <= v < 0xD800 || (0xE000 <= v <= 0x10FFFF)
}

/// The scalar value that the downward scan of the `char` generator lands on
/// when it starts from the masked 21-bit value `m`: the largest scalar value
/// that is at most `m`.
pub open spec fn fold_to_scalar(m: int) -> int {
    if m > 0x10FFFF {
        0x10FFFF
    } else if 0xD800 <= m <= 0xDFFF {
        0xD7FF
    } else {
        m
    }
}

/// Relies on `char::from_u32` of std: it returns `Some` exactly when the
/// value is a Unicode scalar value, and then the character has that code.
#[verifier::external_body]
fn char_from_u32(v: u32) -> (r: Option<char>)
    ensures
        (r is Some) <==> is_scalar_value(v as int),
        (r is Some) ==> r->0 as u32 == v,
{
    char::from_u32(v)
}

/// Draw a `char`: four bytes are read, masked to 21 bits, and the value is
/// scanned downward to the nearest Unicode scalar value. The scan cannot
/// reject and redraw: on a cyclic pool a rejection sampler could spin
/// forever, while the downward scan always terminates.
pub fn arb_char<U: Unstructured>(u: &mut U) -> (r: Result<char, U::Error>)
    requires
        old(u).wf(),
    ensures
        final(u).wf(),
        (r is Ok) <==> old(u).can_fill(4),
        (r is Ok) ==> r->Ok_0 as u32 == fold_to_scalar(
            le_u32(old(u).stream(0), old(u).stream(1), old(u).stream(2), old(u).stream(3))
                % 0x20_0000,
        ),
        (r is Ok) ==> advanced_by(*old(u), *final(u), 4),
        (r is Err) ==> *final(u) == *old(u),
{
    let v = match arb_u32(u) {
        Ok(v) => v,
        Err(e) => {
            return Err(e);
        },
    };
    let mut c: u32 = v & 0x001F_FFFF;
    proof {
        assert(v & 0x001F_FFFF == v % 0x20_0000) by (bit_vector);
    }
    let ghost m = c as int;
    loop
        invariant
            u.wf(),
            old(u).can_fill(4),
            advanced_by(*old(u), *u, 4),
            m == le_u32(old(u).stream(0), old(u).stream(1), old(u).stream(2), old(u).stream(3))
                % 0x20_0000,
            c <= m <= 0x1F_FFFF,
            fold_to_scalar(m) == fold_to_scalar(c as int),
        decreases c,
    {
        if c < 0xD800 || (0xE000 <= c && c <= 0x10FFFF) {
            match char_from_u32(c) {
                Some(ch) => {
                    return Ok(ch);
                },
                None => {
                    proof {
                        assert(false);
                    }
                },
            }
        } else {
            c = c - 1;
        }
    }
}

impl Arbitrary for () {
    fn arbitrary<U: Unstructured>(u: &mut U) -> (r: Result<Self, U::Error>)
        ensures
            r is Ok,
            *final(u) == *old(u),
    {
        Ok(())
    }
}

impl Arbitrary for bool {
    fn arbitrary<U: Unstructured>(u: &mut U) -> (r: Result<Self, U::Error>)
        ensures
            (r is Ok) <==> old(u).can_fill(1),
            (r is Ok) ==> r->Ok_0 == (old(u).stream(0) & 1 == 1) && advanced_by(
                *old(u),
                *final(u),
                1,
            ),
            (r is Err) ==> *final(u) == *old(u),
    {
        arb_bool(u)
    }
}

impl Arbitrary for u8 {
    fn arbitrary<U: Unstructured>(u: &mut U) -> (r: Result<Self, U::Error>)
        ensures
            (r is Ok) <==> old(u).can_fill(1),
            (r is Ok) ==> r->Ok_0 == old(u).stream(0) && advanced_by(*old(u), *final(u), 1),
            (r is Err) ==> *final(u) == *old(u),
    {
        arb_u8(u)
    }
}

impl Arbitrary for i8 {
    fn arbitrary<U: Unstructured>(u: &mut U) -> (r: Result<Self, U::Error>)
        ensures
            (r is Ok) <==> old(u).can_fill(1),
            (r is Ok) ==> r->Ok_0 == old(u).stream(0) as i8 && advanced_by(*old(u), *final(u), 1),
            (r is Err) ==> *final(u) == *old(u),
    {
        match arb_u8(u) {
            Ok(v) => Ok(v as i8),
            Err(e) => Err(e),
        }
    }
}

impl Arbitrary for u16 {
    fn arbitrary<U: Unstructured>(u: &mut U) -> (r: Result<Self, U::Error>)
        ensures
            (r is Ok) <==> old(u).can_fill(2),
            (r is Ok) ==> r->Ok_0 == le_u16(old(u).stream(0), old(u).stream(1)) && advanced_by(
                *old(u),
                *final(u),
                2,
            ),
            (r is Err) ==> *final(u) == *old(u),
    {
        arb_u16(u)
    }
}

impl Arbitrary for i16 {
    fn arbitrary<U: Unstructured>(u: &mut U) -> (r: Result<Self, U::Error>)
        ensures
            (r is Ok) <==> old(u).can_fill(2),
            (r is Ok) ==> r->Ok_0 == (le_u16(old(u).stream(0), old(u).stream(1)) as u16) as i16
                && advanced_by(*old(u), *final(u), 2),
            (r is Err) ==> *final(u) == *old(u),
    {
        match arb_u16(u) {
            Ok(v) => Ok(v as i16),
            Err(e) => Err(e),
        }
    }
}

impl Arbitrary for u32 {
    fn arbitrary<U: Unstructured>(u: &mut U) -> (r: Result<Self, U::Error>)
        ensures
            (r is Ok) <==> old(u).can_fill(4),
            (r is Ok) ==> r->Ok_0 == le_u32(
                old(u).stream(0),
                old(u).stream(1),
                old(u).stream(2),
                old(u).stream(3),
            ) && advanced_by(*old(u), *final(u), 4),
            (r is Err) ==> *final(u) == *old(u),
    {
        arb_u32(u)
    }
}

impl Arbitrary for i32 {
    fn arbitrary<U: Unstructured>(u: &mut U) -> (r: Result<Self, U::Error>)
        ensures
            (r is Ok) <==> old(u).can_fill(4),
            (r is Ok) ==> r->Ok_0 == (le_u32(
                old(u).stream(0),
                old(u).stream(1),
                old(u).stream(2),
                old(u).stream(3),
            ) as u32) as i32 && advanced_by(*old(u), *final(u), 4),
            (r is Err) ==> *final(u) == *old(u),
    {
        match arb_u32(u) {
            Ok(v) => Ok(v as i32),
            Err(e) => Err(e),
        }
    }
}

impl Arbitrary for u64 {
    fn arbitrary<U: Unstructured>(u: &mut U) -> (r: Result<Self, U::Error>)
        ensures
            (r is Ok) <==> old(u).can_fill(8),
            (r is Ok) ==> r->Ok_0 == le_u64(
                old(u).stream(0),
                old(u).stream(1),
                old(u).stream(2),
                old(u).stream(3),
                old(u).stream(4),
                old(u).stream(5),
                old(u).stream(6),
                old(u).stream(7),
            ) && advanced_by(*old(u), *final(u), 8),
            (r is Err) ==> *final(u) == *old(u),
    {
        arb_u64(u)
    }
}

impl Arbitrary for i64 {
    fn arbitrary<U: Unstructured>(u: &mut U) -> (r: Result<Self, U::Error>)
        ensures
            (r is Ok) <==> old(u).can_fill(8),
            (r is Ok) ==> r->Ok_0 == (le_u64(
                old(u).stream(0),
                old(u).stream(1),
                old(u).stream(2),
                old(u).stream(3),
                old(u).stream(4),
                old(u).stream(5),
                old(u).stream(6),
                old(u).stream(7),
            ) as u64) as i64 && advanced_by(*old(u), *final(u), 8),
            (r is Err) ==> *final(u) == *old(u),
    {
        match arb_u64(u) {
            Ok(v) => Ok(v as i64),
            Err(e) => Err(e),
        }
    }
}

impl Arbitrary for usize {
    fn arbitrary<U: Unstructured>(u: &mut U) -> (r: Result<Self, U::Error>)
        ensures
            (r is Ok) <==> old(u).can_fill(8),
            (r is Ok) ==> r->Ok_0 == (le_u64(
                old(u).stream(0),
                old(u).stream(1),
                old(u).stream(2),
                old(u).stream(3),
                old(u).stream(4),
                old(u).stream(5),
                old(u).stream(6),
                old(u).stream(7),
            ) as u64) as usize && advanced_by(*old(u), *final(u), 8),
            (r is Err) ==> *final(u) == *old(u),
    {
        arb_usize(u)
    }
}

impl Arbitrary for isize {
    fn arbitrary<U: Unstructured>(u: &mut U) -> (r: Result<Self, U::Error>)
        ensures
            (r is Ok) <==> old(u).can_fill(8),
            (r is Ok) ==> r->Ok_0 == ((le_u64(
                old(u).stream(0),
                old(u).stream(1),
                old(u).stream(2),
                old(u).stream(3),
                old(u).stream(4),
                old(u).stream(5),
                old(u).stream(6),
                old(u).stream(7),
            ) as u64) as usize) as isize && advanced_by(
                *old(u),
                *final(u),
                8,
            ),
            (r is Err) ==> *final(u) == *old(u),
    {
        match arb_usize(u) {
            Ok(v) => Ok(v as isize),
            Err(e) => Err(e),
        }
    }
}

impl Arbitrary for char {
    fn arbitrary<U: Unstructured>(u: &mut U) -> (r: Result<Self, U::Error>)
        ensures
            (r is Ok) <==> old(u).can_fill(4),
            (r is Ok) ==> r->Ok_0 as u32 == fold_to_scalar(
                le_u32(old(u).stream(0), old(u).stream(1), old(u).stream(2), old(u).stream(3))
                    % 0x20_0000,
            ) && advanced_by(*old(u), *final(u), 4),
            (r is Err) ==> *final(u) == *old(u),
    {
        arb_char(u)
    }
}

impl<A: Arbitrary> Arbitrary for Option<A> {
    fn arbitrary<U: Unstructured>(u: &mut U) -> (r: Result<Self, U::Error>)
        ensures
            !old(u).can_fill(1) ==> (r is Err) && *final(u) == *old(u),
            old(u).can_fill(1) && old(u).stream(0) & 1 == 0 ==> (r matches Ok(v) && v is None)
                && advanced_by(*old(u), *final(u), 1),
            old(u).can_fill(1) && old(u).stream(0) & 1 == 1 && (r is Ok) ==> r->Ok_0 is Some,
    {
        Ok(
            if arb_bool(u)? {
                Some(A::arbitrary(u)?)
            } else {
                None
            },
        )
    }
}

impl<A: Arbitrary, B: Arbitrary> Arbitrary for Result<A, B> {
    fn arbitrary<U: Unstructured>(u: &mut U) -> (r: Result<Self, U::Error>)
        ensures
            !old(u).can_fill(1) ==> (r is Err) && *final(u) == *old(u),
            old(u).can_fill(1) && old(u).stream(0) & 1 == 1 && (r is Ok) ==> r->Ok_0 is Ok,
            old(u).can_fill(1) && old(u).stream(0) & 1 == 0 && (r is Ok) ==> r->Ok_0 is Err,
    {
        Ok(
            if arb_bool(u)? {
                Ok(A::arbitrary(u)?)
            } else {
                Err(B::arbitrary(u)?)
            },
        )
    }
}

impl<A: Arbitrary, B: Arbitrary> Arbitrary for (A, B) {
    fn arbitrary<U: Unstructured>(u: &mut U) -> Result<Self, U::Error> {
        let a = A::arbitrary(u)?;
        let b = B::arbitrary(u)?;
        Ok((a, b))
    }
}

impl<A: Arbitrary, B: Arbitrary, C: Arbitrary> Arbitrary for (A, B, C) {
    fn arbitrary<U: Unstructured>(u: &mut U) -> Result<Self, U::Error> {
        let a = A::arbitrary(u)?;
        let b = B::arbitrary(u)?;
        let c = C::arbitrary(u)?;
        Ok((a, b, c))
    }
}

impl<A: Arbitrary> Arbitrary for Box<A> {
    fn arbitrary<U: Unstructured>(u: &mut U) -> Result<Self, U::Error> {
        match A::arbitrary(u) {
            Ok(v) => Ok(Box::new(v)),
            Err(e) => Err(e),
        }
    }
}

impl<A: Arbitrary> Arbitrary for std::rc::Rc<A> {
    fn arbitrary<U: Unstructured>(u: &mut U) -> Result<Self, U::Error> {
        match A::arbitrary(u) {
            Ok(v) => Ok(std::rc::Rc::new(v)),
            Err(e) => Err(e),
        }
    }
}

impl<A: Arbitrary> Arbitrary for std::sync::Arc<A> {
    fn arbitrary<U: Unstructured>(u: &mut U) -> Result<Self, U::Error> {
        match A::arbitrary(u) {
            Ok(v) => Ok(std::sync::Arc::new(v)),
            Err(e) => Err(e),
        }
    }
}

impl<A: Arbitrary> Arbitrary for core::marker::PhantomData<A> {
    fn arbitrary<U: Unstructured>(u: &mut U) -> Result<Self, U::Error> {
        Ok(core::marker::PhantomData)
    }
}

/// Draw a sequence: a container size, then that many elements. A failing
/// size draw fails the whole draw untouched; a zero size succeeds without
/// drawing any element. What each element draw consumes is up to `A`, so
/// success past a positive size cannot be promised here.
pub fn arb_vec<A: Arbitrary, U: Unstructured>(u: &mut U) -> (r: Result<Vec<A>, U::Error>)
    requires
        old(u).wf(),
    ensures
        final(u).wf(),
        (r is Ok) ==> r->Ok_0@.len() == old(u).container_size_spec(),
        !old(u).can_fill(old(u).container_size_cost()) ==> (r is Err) && *final(u) == *old(u),
        old(u).can_fill(old(u).container_size_cost()) && old(u).container_size_spec() == 0 ==> (r
            is Ok) && advanced_by(*old(u), *final(u), old(u).container_size_cost()),
{
    let size = u.container_size()?;
    let mut out: Vec<A> = Vec::new();
    let mut k: usize = 0;
    while k < size
        invariant
            u.wf(),
            old(u).can_fill(old(u).container_size_cost()),
            size == old(u).container_size_spec(),
            size == 0 ==> advanced_by(*old(u), *u, old(u).container_size_cost()),
            k <= size,
            out@.len() == k,
        decreases size - k,
    {
        let item = A::arbitrary(u)?;
        out.push(item);
        k += 1;
    }
    Ok(out)
}

impl<A: Arbitrary> Arbitrary for Vec<A> {
    fn arbitrary<U: Unstructured>(u: &mut U) -> (r: Result<Self, U::Error>)
        ensures
            (r is Ok) ==> r->Ok_0@.len() == old(u).container_size_spec(),
            !old(u).can_fill(old(u).container_size_cost()) ==> (r is Err) && *final(u) == *old(u),
            old(u).can_fill(old(u).container_size_cost()) && old(u).container_size_spec() == 0
                ==> (r is Ok) && advanced_by(*old(u), *final(u), old(u).container_size_cost()),
    {
        arb_vec(u)
    }
}

/// Relies on `String::push` of std: it appends exactly the one character.
#[verifier::external_body]
fn push_char(s: &mut String, c: char)
    ensures
        final(s)@ == old(s)@.push(c),
{
    s.push(c)
}

/// The code of character `k` of a drawn string: four stream bytes starting
/// at `cost + 4k` (after the leading size word), decoded little-endian,
/// masked to 21 bits and folded down to the nearest scalar value.
pub open spec fn string_char_at<U: Unstructured>(u: U, k: int) -> int {
    fold_to_scalar(
        le_u32(
            u.stream(u.container_size_cost() + 4 * k),
            u.stream(u.container_size_cost() + 4 * k + 1),
            u.stream(u.container_size_cost() + 4 * k + 2),
            u.stream(u.container_size_cost() + 4 * k + 3),
        ) % 0x20_0000,
    )
}

/// Draw a string: a container size, then that many characters. The draw
/// succeeds exactly when the size word and each four-byte character read
/// fit in the pool, and then character `k` is pinned to the stream by
/// `string_char_at`.
pub fn arb_string<U: Unstructured>(u: &mut U) -> (r: Result<String, U::Error>)
    requires
        old(u).wf(),
    ensures
        final(u).wf(),
        (r is Ok) <==> (old(u).can_fill(old(u).container_size_cost()) && (forall|k: int|
            0 <= k < old(u).container_size_spec() ==> #[trigger] old(u).can_fill(
                (old(u).container_size_cost() + 4 * k + 4) as nat,
            ))),
        (r is Ok) ==> r->Ok_0@.len() == old(u).container_size_spec(),
        (r is Ok) ==> (forall|k: int|
            0 <= k < old(u).container_size_spec() ==> #[trigger] r->Ok_0@[k] as u32
                == string_char_at(*old(u), k)),
        (r is Ok) ==> advanced_by(
            *old(u),
            *final(u),
            (old(u).container_size_cost() + 4 * old(u).container_size_spec()) as nat,
        ),
        !old(u).can_fill(old(u).container_size_cost()) ==> *final(u) == *old(u),
{
    let ghost cost = old(u).container_size_cost();
    let ghost css = old(u).container_size_spec();
    let size = match u.container_size() {
        Ok(size) => size,
        Err(e) => {
            return Err(e);
        },
    };
    let mut out = String::new();
    let mut k: usize = 0;
    while k < size
        invariant
            u.wf(),
            old(u).wf(),
            cost == old(u).container_size_cost(),
            css == old(u).container_size_spec(),
            old(u).can_fill(cost),
            size == css,
            k <= size,
            out@.len() == k,
            advanced_by(*old(u), *u, (cost + 4 * k) as nat),
            forall|j: int|
                0 <= j < k ==> #[trigger] old(u).can_fill((cost + 4 * j + 4) as nat),
            forall|j: int| 0 <= j < k ==> #[trigger] out@[j] as u32 == string_char_at(*old(u), j),
        decreases size - k,
    {
        let ghost upre = *u;
        let c = match arb_char(u) {
            Ok(c) => c,
            Err(e) => {
                proof {
                    assert(upre.can_fill(4) == old(u).can_fill((4 + (cost + 4 * k)) as nat));
                    assert(!old(u).can_fill((cost + 4 * (k as int) + 4) as nat));
                }
                return Err(e);
            },
        };
        push_char(&mut out, c);
        proof {
            assert(upre.can_fill(4) == old(u).can_fill((4 + (cost + 4 * k)) as nat));
            assert(upre.stream(0) == old(u).stream(0 + (cost + 4 * k)));
            assert(upre.stream(1) == old(u).stream(1 + (cost + 4 * k)));
            assert(upre.stream(2) == old(u).stream(2 + (cost + 4 * k)));
            assert(upre.stream(3) == old(u).stream(3 + (cost + 4 * k)));
            assert(out@[k as int] as u32 == string_char_at(*old(u), k as int));
            lemma_advance_trans(*old(u), upre, *u, (cost + 4 * k) as nat, 4);
        }
        k += 1;
    }
    Ok(out)
}

impl Arbitrary for String {
    fn arbitrary<U: Unstructured>(u: &mut U) -> (r: Result<Self, U::Error>)
        ensures
            (r is Ok) <==> (old(u).can_fill(old(u).container_size_cost()) && (forall|k: int|
                0 <= k < old(u).container_size_spec() ==> #[trigger] old(u).can_fill(
                    (old(u).container_size_cost() + 4 * k + 4) as nat,
                ))),
            (r is Ok) ==> r->Ok_0@.len() == old(u).container_size_spec(),
            (r is Ok) ==> (forall|k: int|
                0 <= k < old(u).container_size_spec() ==> #[trigger] r->Ok_0@[k] as u32
                    == string_char_at(*old(u), k)),
            !old(u).can_fill(old(u).container_size_cost()) ==> *final(u) == *old(u),
    {
        arb_string(u)
    }
}

} // verus!

