//! Little-endian layout of the scalar fields of a record.
//!
//! Every scalar is laid out least significant byte first, signed values in
//! two's complement.

use vstd::prelude::*;

verus! {

/// The unsigned number with the same 8 bits as `x`.
pub open spec fn bits_i8(x: i8) -> int {
    if x < 0 {
        x + 0x100
    } else {
        x as int
    }
}

/// The unsigned number with the same 16 bits as `x`.
pub open spec fn bits_i16(x: i16) -> int {
    if x < 0 {
        x + 0x1_0000
    } else {
        x as int
    }
}

/// The unsigned number with the same 32 bits as `x`.
pub open spec fn bits_i32(x: i32) -> int {
    if x < 0 {
        x + 0x1_0000_0000
    } else {
        x as int
    }
}

/// The unsigned number with the same 64 bits as `x`.
pub open spec fn bits_i64(x: i64) -> int {
    if x < 0 {
        x + 0x1_0000_0000_0000_0000
    } else {
        x as int
    }
}

/// The one byte of `x`.
pub closed spec fn le_u8(x: u8) -> Seq<u8> {
    seq![x]
}

/// The one byte of `x`, in two's complement.
pub closed spec fn le_i8(x: i8) -> Seq<u8> {
    seq![bits_i8(x) as u8]
}

/// The two bytes of `x`, the low one first.
pub closed spec fn le_u16(x: u16) -> Seq<u8> {
    seq![(x % 256) as u8, (x / 256) as u8]
}

/// The two bytes of `x` in two's complement, the low one first.
pub closed spec fn le_i16(x: i16) -> Seq<u8> {
    le_u16(bits_i16(x) as u16)
}

/// The four bytes of `x`, the lowest first.
pub closed spec fn le_u32(x: u32) -> Seq<u8> {
    seq![
        (x % 256) as u8,
        (x / 256 % 256) as u8,
        (x / 256 / 256 % 256) as u8,
        (x / 256 / 256 / 256) as u8,
    ]
}

/// The four bytes of `x` in two's complement, the lowest first.
pub closed spec fn le_i32(x: i32) -> Seq<u8> {
    le_u32(bits_i32(x) as u32)
}

/// The eight bytes of `x`, the lowest first.
pub closed spec fn le_u64(x: u64) -> Seq<u8> {
    le_u32((x % 0x1_0000_0000) as u32) + le_u32((x / 0x1_0000_0000) as u32)
}

/// The eight bytes of `x` in two's complement, the lowest first.
pub closed spec fn le_i64(x: i64) -> Seq<u8> {
    le_u64(bits_i64(x) as u64)
}

/// The layout of a run of 32-bit integers: each in turn.
pub closed spec fn le_i32s(s: Seq<i32>) -> Seq<u8>
    decreases s.len(),
{
    if s.len() == 0 {
        Seq::empty()
    } else {
        le_i32s(s.drop_last()) + le_i32(s.last())
    }
}

/// The number that four bytes spell, the lowest first.
pub closed spec fn u32_of(s: Seq<u8>) -> u32 {
    (s[0] + 256 * (s[1] + 256 * (s[2] + 256 * s[3]))) as u32
}

/// The number that four bytes spell in two's complement, the lowest first.
pub closed spec fn i32_of(s: Seq<u8>) -> i32 {
    if u32_of(s) >= 0x8000_0000 {
        (u32_of(s) - 0x1_0000_0000) as i32
    } else {
        u32_of(s) as i32
    }
}

/// Appends the layout of a number.
pub fn put_u8(out: &mut Vec<u8>, x: u8)
    ensures
        final(out)@ == old(out)@ + le_u8(x),
{
    out.push(x);
    assert(out@ =~= old(out)@ + le_u8(x));
}

pub fn put_i8(out: &mut Vec<u8>, x: i8)
    ensures
        final(out)@ == old(out)@ + le_i8(x),
{
    let w: i16 = x as i16;
    let b: u8 = if w < 0 {
        (w + 0x100) as u8
    } else {
        w as u8
    };
    out.push(b);
    assert(out@ =~= old(out)@ + le_i8(x));
}

pub fn put_u16(out: &mut Vec<u8>, x: u16)
    ensures
        final(out)@ == old(out)@ + le_u16(x),
{
    out.push((x % 256) as u8);
    out.push((x / 256) as u8);
    assert(out@ =~= old(out)@ + le_u16(x));
}

pub fn put_i16(out: &mut Vec<u8>, x: i16)
    ensures
        final(out)@ == old(out)@ + le_i16(x),
{
    let w: i32 = x as i32;
    let u: u16 = if w < 0 {
        (w + 0x1_0000) as u16
    } else {
        w as u16
    };
    put_u16(out, u);
}

pub fn put_u32(out: &mut Vec<u8>, x: u32)
    ensures
        final(out)@ == old(out)@ + le_u32(x),
{
    let q1: u32 = x / 256;
    let q2: u32 = q1 / 256;
    let q3: u32 = q2 / 256;
    out.push((x % 256) as u8);
    out.push((q1 % 256) as u8);
    out.push((q2 % 256) as u8);
    out.push(q3 as u8);
    assert(out@ =~= old(out)@ + le_u32(x));
}

pub fn put_i32(out: &mut Vec<u8>, x: i32)
    ensures
        final(out)@ == old(out)@ + le_i32(x),
{
    let w: i64 = x as i64;
    let u: u32 = if w < 0 {
        (w + 0x1_0000_0000) as u32
    } else {
        w as u32
    };
    put_u32(out, u);
}

pub fn put_u64(out: &mut Vec<u8>, x: u64)
    ensures
        final(out)@ == old(out)@ + le_u64(x),
{
    put_u32(out, (x % 0x1_0000_0000) as u32);
    put_u32(out, (x / 0x1_0000_0000) as u32);
    assert((old(out)@ + le_u32((x % 0x1_0000_0000) as u32)) + le_u32(
        (x / 0x1_0000_0000) as u32,
    ) =~= old(out)@ + le_u64(x));
}

pub fn put_i64(out: &mut Vec<u8>, x: i64)
    ensures
        final(out)@ == old(out)@ + le_i64(x),
{
    let w: i128 = x as i128;
    let u: u64 = if w < 0 {
        (w + 0x1_0000_0000_0000_0000) as u64
    } else {
        w as u64
    };
    put_u64(out, u);
}

pub fn put_bytes(out: &mut Vec<u8>, bytes: &[u8])
    ensures
        final(out)@ == old(out)@ + bytes@,
{
    let mut i: usize = 0;
    while i < bytes.len()
        invariant
            i <= bytes@.len(),
            out@ == old(out)@ + bytes@.subrange(0, i as int),
        decreases bytes@.len() - i,
    {
        out.push(bytes[i]);
        i += 1;
        assert(out@ =~= old(out)@ + bytes@.subrange(0, i as int));
    }
    assert(bytes@.subrange(0, i as int) =~= bytes@);
}

pub fn put_i32s(out: &mut Vec<u8>, values: &[i32])
    ensures
        final(out)@ == old(out)@ + le_i32s(values@),
{
    let mut i: usize = 0;
    assert(out@ =~= old(out)@ + le_i32s(values@.subrange(0, 0)));
    while i < values.len()
        invariant
            i <= values@.len(),
            out@ == old(out)@ + le_i32s(values@.subrange(0, i as int)),
        decreases values@.len() - i,
    {
        let ghost before = out@;
        put_i32(out, values[i]);
        proof {
            let next = values@.subrange(0, i + 1);
            assert(next.drop_last() =~= values@.subrange(0, i as int));
            assert(next.last() == values@[i as int]);
            assert(out@ =~= old(out)@ + le_i32s(next));
        }
        i += 1;
    }
    assert(values@.subrange(0, i as int) =~= values@);
}

/// A cursor over the bytes of one record: what lies between `start` and
/// `pos` has been read.
pub struct Reader<'a> {
    pub bytes: &'a [u8],
    pub start: usize,
    pub pos: usize,
}

impl<'a> Reader<'a> {
    pub open spec fn wf(&self) -> bool {
        self.start <= self.pos <= self.bytes@.len()
    }

    /// The bytes read so far: those from `start` up to `pos`.
    pub closed spec fn taken(&self) -> Seq<u8> {
        self.bytes@.subrange(self.start as int, self.pos as int)
    }

    pub proof fn lemma_taken(&self)
        ensures
            self.taken() == self.bytes@.subrange(self.start as int, self.pos as int),
    {
    }

    /// The bytes not yet read.
    pub open spec fn left(&self) -> int {
        self.bytes@.len() - self.pos
    }

    /// Whether `next` is `self` moved on over the bytes `read`.
    pub open spec fn advanced(&self, next: &Reader<'a>, read: Seq<u8>) -> bool {
        &&& next.wf()
        &&& next.bytes@ == self.bytes@
        &&& next.start == self.start
        &&& next.pos == self.pos + read.len()
        &&& next.taken() == self.taken() + read
    }

    pub fn new(bytes: &'a [u8], at: usize) -> (r: Reader<'a>)
        requires
            at <= bytes@.len(),
        ensures
            r.wf(),
            r.bytes@ == bytes@,
            r.start == at,
            r.pos == at,
            r.taken() == Seq::<u8>::empty(),
    {
        let r = Reader { bytes, start: at, pos: at };
        assert(r.taken() =~= Seq::<u8>::empty());
        r
    }

    pub fn read_u8(&mut self) -> (x: u8)
        requires
            old(self).wf(),
            old(self).left() >= 1,
        ensures
            old(self).advanced(final(self), le_u8(x)),
    {
        let x = self.bytes[self.pos];
        self.pos = self.pos + 1;
        assert(self.taken() =~= old(self).taken() + le_u8(x));
        x
    }

    pub fn read_i8(&mut self) -> (x: i8)
        requires
            old(self).wf(),
            old(self).left() >= 1,
        ensures
            old(self).advanced(final(self), le_i8(x)),
    {
        let b = self.bytes[self.pos];
        let x: i8 = if b >= 0x80 {
            (b as i16 - 0x100) as i8
        } else {
            b as i8
        };
        self.pos = self.pos + 1;
        assert(self.taken() =~= old(self).taken() + le_i8(x));
        x
    }

    pub fn read_u16(&mut self) -> (x: u16)
        requires
            old(self).wf(),
            old(self).left() >= 2,
        ensures
            old(self).advanced(final(self), le_u16(x)),
    {
        let b0 = self.bytes[self.pos];
        let b1 = self.bytes[self.pos + 1];
        let x: u16 = b0 as u16 + b1 as u16 * 256;
        self.pos = self.pos + 2;
        assert(self.taken() =~= old(self).taken() + le_u16(x));
        x
    }

    pub fn read_i16(&mut self) -> (x: i16)
        requires
            old(self).wf(),
            old(self).left() >= 2,
        ensures
            old(self).advanced(final(self), le_i16(x)),
    {
        let u = self.read_u16();
        if u >= 0x8000 {
            (u as i32 - 0x1_0000) as i16
        } else {
            u as i16
        }
    }

    pub fn read_u32(&mut self) -> (x: u32)
        requires
            old(self).wf(),
            old(self).left() >= 4,
        ensures
            old(self).advanced(final(self), le_u32(x)),
    {
        let b0 = self.bytes[self.pos];
        let b1 = self.bytes[self.pos + 1];
        let b2 = self.bytes[self.pos + 2];
        let b3 = self.bytes[self.pos + 3];
        let x: u32 = b0 as u32 + 256 * (b1 as u32 + 256 * (b2 as u32 + 256 * (b3 as u32)));
        self.pos = self.pos + 4;
        proof {
            lemma_u32_digits(b0, b1, b2, b3);
            let read = le_u32(x);
            assert(read.len() == 4);
            assert(read[0] == b0 && read[1] == b1 && read[2] == b2 && read[3] == b3);
            assert(self.taken() =~= old(self).taken() + read);
        }
        x
    }

    pub fn read_i32(&mut self) -> (x: i32)
        requires
            old(self).wf(),
            old(self).left() >= 4,
        ensures
            old(self).advanced(final(self), le_i32(x)),
    {
        let u = self.read_u32();
        if u >= 0x8000_0000 {
            (u as i64 - 0x1_0000_0000) as i32
        } else {
            u as i32
        }
    }

    pub fn read_u64(&mut self) -> (x: u64)
        requires
            old(self).wf(),
            old(self).left() >= 8,
        ensures
            old(self).advanced(final(self), le_u64(x)),
    {
        let lo = self.read_u32();
        let hi = self.read_u32();
        let x: u64 = lo as u64 + hi as u64 * 0x1_0000_0000;
        proof {
            lemma_u64_halves(lo, hi);
            assert(le_u64(x) == le_u32(lo) + le_u32(hi));
            assert((old(self).taken() + le_u32(lo)) + le_u32(hi) =~= old(self).taken() + (le_u32(
                lo,
            ) + le_u32(hi)));
        }
        x
    }

    pub fn read_bytes<const N: usize>(&mut self) -> (a: [u8; N])
        requires
            old(self).wf(),
            old(self).left() >= N,
        ensures
            old(self).advanced(final(self), a@),
    {
        let mut a = [0u8; N];
        let mut i: usize = 0;
        while i < N
            invariant
                i <= N,
                self.wf(),
                self.bytes@ == old(self).bytes@,
                self.start == old(self).start,
                self.pos == old(self).pos + i,
                old(self).pos + N <= self.bytes@.len(),
                forall|k: int| 0 <= k < i ==> a@[k] == self.bytes@[old(self).pos + k],
            decreases N - i,
        {
            a[i] = self.bytes[self.pos];
            self.pos = self.pos + 1;
            i += 1;
        }
        assert(self.taken() =~= old(self).taken() + a@);
        a
    }

    pub fn read_i32s<const N: usize>(&mut self) -> (a: [i32; N])
        requires
            old(self).wf(),
            old(self).left() >= 4 * N,
        ensures
            old(self).advanced(final(self), le_i32s(a@)),
    {
        let mut a = [0i32; N];
        let mut i: usize = 0;
        assert(self.taken() =~= old(self).taken() + le_i32s(a@.subrange(0, 0)));
        while i < N
            invariant
                i <= N,
                self.wf(),
                self.bytes@ == old(self).bytes@,
                self.start == old(self).start,
                self.left() >= 4 * (N - i),
                self.pos == old(self).pos + le_i32s(a@.subrange(0, i as int)).len(),
                self.taken() == old(self).taken() + le_i32s(a@.subrange(0, i as int)),
            decreases N - i,
        {
            let ghost before = a@;
            let x = self.read_i32();
            a[i] = x;
            proof {
                let next = a@.subrange(0, i + 1);
                assert(next.drop_last() =~= before.subrange(0, i as int));
                assert(next.last() == x);
                assert(self.taken() =~= old(self).taken() + le_i32s(next));
            }
            i += 1;
        }
        assert(a@.subrange(0, i as int) =~= a@);
        a
    }
}

/// A number with a layout in bytes.
pub trait _NumToBytes: Copy {
    /// The bytes of the number, the lowest first.
    spec fn le(self) -> Seq<u8>;

    fn to_le_bytes(self) -> (out: Vec<u8>)
        ensures
            out@ == self.le(),
    ;
}

impl _NumToBytes for u8 {
    open spec fn le(self) -> Seq<u8> {
        le_u8(self)
    }

    fn to_le_bytes(self) -> (out: Vec<u8>) {
        let mut out = Vec::new();
        put_u8(&mut out, self);
        assert(out@ =~= le_u8(self));
        out
    }
}

impl _NumToBytes for u16 {
    open spec fn le(self) -> Seq<u8> {
        le_u16(self)
    }

    fn to_le_bytes(self) -> (out: Vec<u8>) {
        let mut out = Vec::new();
        put_u16(&mut out, self);
        assert(out@ =~= le_u16(self));
        out
    }
}

impl _NumToBytes for u32 {
    open spec fn le(self) -> Seq<u8> {
        le_u32(self)
    }

    fn to_le_bytes(self) -> (out: Vec<u8>) {
        let mut out = Vec::new();
        put_u32(&mut out, self);
        assert(out@ =~= le_u32(self));
        out
    }
}

impl _NumToBytes for u64 {
    open spec fn le(self) -> Seq<u8> {
        le_u64(self)
    }

    fn to_le_bytes(self) -> (out: Vec<u8>) {
        let mut out = Vec::new();
        put_u64(&mut out, self);
        assert(out@ =~= le_u64(self));
        out
    }
}

impl _NumToBytes for i8 {
    open spec fn le(self) -> Seq<u8> {
        le_i8(self)
    }

    fn to_le_bytes(self) -> (out: Vec<u8>) {
        let mut out = Vec::new();
        put_i8(&mut out, self);
        assert(out@ =~= le_i8(self));
        out
    }
}

impl _NumToBytes for i16 {
    open spec fn le(self) -> Seq<u8> {
        le_i16(self)
    }

    fn to_le_bytes(self) -> (out: Vec<u8>) {
        let mut out = Vec::new();
        put_i16(&mut out, self);
        assert(out@ =~= le_i16(self));
        out
    }
}

impl _NumToBytes for i32 {
    open spec fn le(self) -> Seq<u8> {
        le_i32(self)
    }

    fn to_le_bytes(self) -> (out: Vec<u8>) {
        let mut out = Vec::new();
        put_i32(&mut out, self);
        assert(out@ =~= le_i32(self));
        out
    }
}

impl _NumToBytes for i64 {
    open spec fn le(self) -> Seq<u8> {
        le_i64(self)
    }

    fn to_le_bytes(self) -> (out: Vec<u8>) {
        let mut out = Vec::new();
        put_i64(&mut out, self);
        assert(out@ =~= le_i64(self));
        out
    }
}

/// The layout of a run of numbers: each in turn.
pub open spec fn le_all<T: _NumToBytes>(s: Seq<T>) -> Seq<u8>
    decreases s.len(),
{
    if s.len() == 0 {
        Seq::empty()
    } else {
        le_all(s.drop_last()) + s.last().le()
    }
}

/// The bytes of a run of numbers.
pub fn _slice_to_bytes<T: _NumToBytes>(slice: &[T]) -> (out: Vec<u8>)
    ensures
        out@ == le_all(slice@),
{
    let mut out: Vec<u8> = Vec::new();
    let mut i: usize = 0;
    assert(slice@.subrange(0, 0) =~= Seq::<T>::empty());
    while i < slice.len()
        invariant
            i <= slice@.len(),
            out@ == le_all(slice@.subrange(0, i as int)),
        decreases slice@.len() - i,
    {
        let one = slice[i].to_le_bytes();
        put_bytes(&mut out, one.as_slice());
        proof {
            let next = slice@.subrange(0, i + 1);
            assert(next.drop_last() =~= slice@.subrange(0, i as int));
            assert(next.last() == slice@[i as int]);
        }
        i += 1;
    }
    assert(slice@.subrange(0, i as int) =~= slice@);
    out
}

/// What the layouts are, byte by byte.
pub proof fn lemma_le_bytes(a: u8, b: i8, c: u16, d: i16, e: u32, f: i32, g: u64, h: i64)
    ensures
        le_u8(a) == seq![a],
        le_i8(b) == seq![bits_i8(b) as u8],
        le_u16(c) == seq![(c % 256) as u8, (c / 256) as u8],
        le_i16(d) == le_u16(bits_i16(d) as u16),
        le_u32(e) == seq![
            (e % 256) as u8,
            (e / 256 % 256) as u8,
            (e / 256 / 256 % 256) as u8,
            (e / 256 / 256 / 256) as u8,
        ],
        le_i32(f) == le_u32(bits_i32(f) as u32),
        le_u64(g) == le_u32((g % 0x1_0000_0000) as u32) + le_u32((g / 0x1_0000_0000) as u32),
        le_i64(h) == le_u64(bits_i64(h) as u64),
{
}

/// Four bytes spell the number that they are the layout of.
pub proof fn lemma_u32_of_le(x: u32)
    ensures
        u32_of(le_u32(x)) == x,
{
    lemma_u32_from_digits(x);
}

pub proof fn lemma_i32_of_le(x: i32)
    ensures
        i32_of(le_i32(x)) == x,
{
    lemma_u32_of_le(bits_i32(x) as u32);
}

/// A run of integers is laid out one after the other.
pub proof fn lemma_le_i32s_push(s: Seq<i32>, x: i32)
    ensures
        le_i32s(s.push(x)) == le_i32s(s) + le_i32(x),
        le_i32s(Seq::<i32>::empty()) == Seq::<u8>::empty(),
{
    assert(s.push(x).drop_last() =~= s);
}

pub broadcast proof fn lemma_le_u8_len(x: u8)
    ensures
        #[trigger] le_u8(x).len() == 1,
{
}

pub broadcast proof fn lemma_le_i8_len(x: i8)
    ensures
        #[trigger] le_i8(x).len() == 1,
{
}

pub broadcast proof fn lemma_le_u16_len(x: u16)
    ensures
        #[trigger] le_u16(x).len() == 2,
{
}

pub broadcast proof fn lemma_le_i16_len(x: i16)
    ensures
        #[trigger] le_i16(x).len() == 2,
{
}

pub broadcast proof fn lemma_le_u32_len(x: u32)
    ensures
        #[trigger] le_u32(x).len() == 4,
{
}

pub broadcast proof fn lemma_le_i32_len(x: i32)
    ensures
        #[trigger] le_i32(x).len() == 4,
{
}

pub broadcast proof fn lemma_le_u64_len(x: u64)
    ensures
        #[trigger] le_u64(x).len() == 8,
{
}

pub broadcast proof fn lemma_le_i32s_len(s: Seq<i32>)
    ensures
        #[trigger] le_i32s(s).len() == 4 * s.len(),
    decreases s.len(),
{
    if s.len() > 0 {
        lemma_le_i32s_len(s.drop_last());
    }
}

/// The widths of the layouts.
pub broadcast group group_le_len {
    lemma_le_u8_len,
    lemma_le_i8_len,
    lemma_le_u16_len,
    lemma_le_i16_len,
    lemma_le_u32_len,
    lemma_le_i32_len,
    lemma_le_u64_len,
    lemma_le_i32s_len,
}

/// The four bytes that make up a number are its base-256 digits.
proof fn lemma_u32_digits(b0: u8, b1: u8, b2: u8, b3: u8)
    ensures
        ({
            let x = b0 + 256 * (b1 + 256 * (b2 + 256 * b3));
            &&& 0 <= x < 0x1_0000_0000
            &&& x % 256 == b0
            &&& x / 256 % 256 == b1
            &&& x / 256 / 256 % 256 == b2
            &&& x / 256 / 256 / 256 == b3
        }),
{
    let x3 = b3 as int;
    let x2 = b2 + 256 * x3;
    let x1 = b1 + 256 * x2;
    let x = b0 + 256 * x1;
    assert(x / 256 == x1 && x % 256 == b0);
    assert(x1 / 256 == x2 && x1 % 256 == b1);
    assert(x2 / 256 == x3 && x2 % 256 == b2);
}

/// A number is the sum of its base-256 digits.
proof fn lemma_u32_from_digits(x: u32)
    ensures
        x == x % 256 + 256 * (x / 256 % 256 + 256 * (x / 256 / 256 % 256 + 256 * (x / 256 / 256
            / 256))),
        x / 256 / 256 / 256 < 256,
{
    let q1 = x / 256;
    let q2 = q1 / 256;
    let q3 = q2 / 256;
    assert(x == x % 256 + 256 * q1);
    assert(q1 == q1 % 256 + 256 * q2);
    assert(q2 == q2 % 256 + 256 * q3);
}

proof fn lemma_u64_halves(lo: u32, hi: u32)
    ensures
        ({
            let x = lo + hi * 0x1_0000_0000;
            &&& 0 <= x <= u64::MAX
            &&& x % 0x1_0000_0000 == lo
            &&& x / 0x1_0000_0000 == hi
        }),
{
}

/// Two concatenations that agree, with tails of one length, agree part by
/// part.
pub proof fn lemma_concat_cancel(a1: Seq<u8>, b1: Seq<u8>, a2: Seq<u8>, b2: Seq<u8>)
    requires
        a1 + b1 == a2 + b2,
        b1.len() == b2.len(),
    ensures
        a1 == a2,
        b1 == b2,
{
    let s = a1 + b1;
    assert(s.len() == a1.len() + b1.len());
    assert((a2 + b2).len() == a2.len() + b2.len());
    assert(a1 =~= s.subrange(0, a1.len() as int));
    assert(a2 =~= (a2 + b2).subrange(0, a2.len() as int));
    assert(b1 =~= s.subrange(a1.len() as int, s.len() as int));
    assert(b2 =~= (a2 + b2).subrange(a2.len() as int, s.len() as int));
}

pub proof fn lemma_le_u8_injective(a: u8, b: u8)
    requires
        le_u8(a) == le_u8(b),
    ensures
        a == b,
{
    assert(le_u8(a)[0] == a);
    assert(le_u8(b)[0] == b);
}

pub proof fn lemma_le_i8_injective(a: i8, b: i8)
    requires
        le_i8(a) == le_i8(b),
    ensures
        a == b,
{
    assert(le_i8(a)[0] == bits_i8(a));
    assert(le_i8(b)[0] == bits_i8(b));
}

pub proof fn lemma_le_u16_injective(a: u16, b: u16)
    requires
        le_u16(a) == le_u16(b),
    ensures
        a == b,
{
    assert(le_u16(a)[0] == le_u16(b)[0]);
    assert(le_u16(a)[1] == le_u16(b)[1]);
}

pub proof fn lemma_le_i16_injective(a: i16, b: i16)
    requires
        le_i16(a) == le_i16(b),
    ensures
        a == b,
{
    lemma_le_u16_injective(bits_i16(a) as u16, bits_i16(b) as u16);
}

pub proof fn lemma_le_u32_injective(a: u32, b: u32)
    requires
        le_u32(a) == le_u32(b),
    ensures
        a == b,
{
    lemma_u32_from_digits(a);
    lemma_u32_from_digits(b);
    assert(le_u32(a)[0] == le_u32(b)[0]);
    assert(le_u32(a)[1] == le_u32(b)[1]);
    assert(le_u32(a)[2] == le_u32(b)[2]);
    assert(le_u32(a)[3] == le_u32(b)[3]);
    assert(a % 256 == b % 256);
    assert(a / 256 % 256 == b / 256 % 256);
    assert(a / 256 / 256 % 256 == b / 256 / 256 % 256);
    assert(a / 256 / 256 / 256 == b / 256 / 256 / 256);
}

pub proof fn lemma_le_i32_injective(a: i32, b: i32)
    requires
        le_i32(a) == le_i32(b),
    ensures
        a == b,
{
    lemma_le_u32_injective(bits_i32(a) as u32, bits_i32(b) as u32);
}

pub proof fn lemma_le_u64_injective(a: u64, b: u64)
    requires
        le_u64(a) == le_u64(b),
    ensures
        a == b,
{
    let (alo, ahi) = ((a % 0x1_0000_0000) as u32, (a / 0x1_0000_0000) as u32);
    let (blo, bhi) = ((b % 0x1_0000_0000) as u32, (b / 0x1_0000_0000) as u32);
    assert(a == alo + ahi * 0x1_0000_0000);
    assert(b == blo + bhi * 0x1_0000_0000);
    lemma_concat_cancel(le_u32(alo), le_u32(ahi), le_u32(blo), le_u32(bhi));
    lemma_le_u32_injective(alo, blo);
    lemma_le_u32_injective(ahi, bhi);
}

pub proof fn lemma_le_i32s_injective(a: Seq<i32>, b: Seq<i32>)
    requires
        a.len() == b.len(),
        le_i32s(a) == le_i32s(b),
    ensures
        a == b,
    decreases a.len(),
{
    if a.len() > 0 {
        lemma_le_i32s_len(a.drop_last());
        lemma_le_i32s_len(b.drop_last());
        lemma_concat_cancel(
            le_i32s(a.drop_last()),
            le_i32(a.last()),
            le_i32s(b.drop_last()),
            le_i32(b.last()),
        );
        lemma_le_i32_injective(a.last(), b.last());
        lemma_le_i32s_injective(a.drop_last(), b.drop_last());
        assert(a =~= a.drop_last().push(a.last()));
        assert(b =~= b.drop_last().push(b.last()));
    } else {
        assert(a =~= b);
    }
}

} // verus!
