//! Byte-level building blocks of the companion wire format: little-endian
//! integers, raw byte runs and UTF-8 text, each with a spec function for the
//! bytes it occupies, an appending writer and a consuming reader.
//!
//! Writers append to a `Vec<u8>`; readers take bytes at the position of a
//! `SliceReader` over the input and move it on.
use vstd::prelude::*;
use vstd::utf8::*;

use crate::mesh::DecodeError;

verus! {

broadcast use vstd::seq::group_seq_axioms;

// ---------------------------------------------------------------------------
// The bytes a value occupies on the wire
// ---------------------------------------------------------------------------

/// The byte that stores `v` in two's complement.
pub open spec fn i8_byte(v: i8) -> u8 {
    if v < 0 {
        (v + 256) as u8
    } else {
        v as u8
    }
}

/// The signed value that byte `b` stores in two's complement.
pub open spec fn byte_i8(b: u8) -> i8 {
    if b >= 128 {
        (b - 256) as i8
    } else {
        b as i8
    }
}

/// Little-endian bytes of a `u16`.
pub open spec fn u16_le(v: u16) -> Seq<u8> {
    seq![(v % 256) as u8, (v / 256) as u8]
}

/// Little-endian bytes of a `u32`.
pub open spec fn u32_le(v: u32) -> Seq<u8> {
    seq![(v % 256) as u8, ((v / 256) % 256) as u8, ((v / 65536) % 256) as u8, (v / 16777216) as u8]
}

/// The `u16` whose two's complement pattern is that of `v`.
pub open spec fn i16_bits(v: i16) -> u16 {
    if v < 0 {
        (v + 65536) as u16
    } else {
        v as u16
    }
}

/// The `u32` whose two's complement pattern is that of `v`.
pub open spec fn i32_bits(v: i32) -> u32 {
    if v < 0 {
        (v + 4294967296) as u32
    } else {
        v as u32
    }
}

/// Little-endian two's complement bytes of an `i16`.
pub open spec fn i16_le(v: i16) -> Seq<u8> {
    u16_le(i16_bits(v))
}

/// Little-endian two's complement bytes of an `i32`.
pub open spec fn i32_le(v: i32) -> Seq<u8> {
    u32_le(i32_bits(v))
}

/// The `u16` stored little-endian at `s[i..i + 2]`.
pub open spec fn u16_at(s: Seq<u8>, i: int) -> u16 {
    (s[i] + s[i + 1] * 256) as u16
}

/// The `u32` stored little-endian at `s[i..i + 4]`.
pub open spec fn u32_at(s: Seq<u8>, i: int) -> u32 {
    (s[i] + s[i + 1] * 256 + s[i + 2] * 65536 + s[i + 3] * 16777216) as u32
}

/// The `i16` stored little-endian, two's complement, at `s[i..i + 2]`.
pub open spec fn i16_at(s: Seq<u8>, i: int) -> i16 {
    let u = u16_at(s, i);
    if u >= 32768 {
        (u - 65536) as i16
    } else {
        u as i16
    }
}

/// The `i32` stored little-endian, two's complement, at `s[i..i + 4]`.
pub open spec fn i32_at(s: Seq<u8>, i: int) -> i32 {
    let u = u32_at(s, i);
    if u >= 2147483648 {
        (u - 4294967296) as i32
    } else {
        u as i32
    }
}

/// The bytes of `s` from index `i` to the end.
pub open spec fn tail(s: Seq<u8>, i: int) -> Seq<u8> {
    s.subrange(i, s.len() as int)
}

/// The UTF-8 bytes of a string slice.
pub open spec fn str_bytes(s: &str) -> Seq<u8> {
    encode_utf8(s@)
}

/// The UTF-8 bytes of an owned string.
pub open spec fn string_bytes(s: &String) -> Seq<u8> {
    encode_utf8(s@)
}

/// A run of `n` copies of `b`.
pub open spec fn repeated(b: u8, n: nat) -> Seq<u8> {
    Seq::new(n, |i: int| b)
}

// ---------------------------------------------------------------------------
// Facts about the encodings
// ---------------------------------------------------------------------------

/// Reading a little-endian `u16` gives back the value that was written.
pub proof fn lemma_u16_roundtrip(v: u16, rest: Seq<u8>)
    ensures
        u16_at(u16_le(v) + rest, 0) == v,
{
    let s = u16_le(v) + rest;
    assert(s[0] == v % 256);
    assert(s[1] == v / 256);
    assert((v % 256) + (v / 256) * 256 == v) by (nonlinear_arith);
}

/// Reading a little-endian `u32` gives back the value that was written.
pub proof fn lemma_u32_roundtrip(v: u32, rest: Seq<u8>)
    ensures
        u32_at(u32_le(v) + rest, 0) == v,
{
    let s = u32_le(v) + rest;
    assert(s[0] == v % 256);
    assert(s[1] == (v / 256) % 256);
    assert(s[2] == (v / 65536) % 256);
    assert(s[3] == v / 16777216);
    assert((v % 256) + ((v / 256) % 256) * 256 + ((v / 65536) % 256) * 65536 + (v / 16777216)
        * 16777216 == v) by (nonlinear_arith);
}

/// Reading a two's complement byte gives back the `i8` that was written.
pub proof fn lemma_i8_roundtrip(v: i8)
    ensures
        byte_i8(i8_byte(v)) == v,
{
}

/// Reading a little-endian `i16` gives back the value that was written.
pub proof fn lemma_i16_roundtrip(v: i16, rest: Seq<u8>)
    ensures
        i16_at(i16_le(v) + rest, 0) == v,
{
    lemma_u16_roundtrip(i16_bits(v), rest);
}

/// Reading a little-endian `i32` gives back the value that was written.
pub proof fn lemma_i32_roundtrip(v: i32, rest: Seq<u8>)
    ensures
        i32_at(i32_le(v) + rest, 0) == v,
{
    lemma_u32_roundtrip(i32_bits(v), rest);
}

/// Decoding the UTF-8 bytes of a string gives back its characters.
pub proof fn lemma_utf8_roundtrip(chars: Seq<char>)
    ensures
        valid_utf8(encode_utf8(chars)),
        decode_utf8(encode_utf8(chars)) == chars,
{
    encode_utf8_valid_utf8(chars);
    encode_utf8_decode_utf8(chars);
}

/// Integers go on the wire least significant byte first, signed ones in two's
/// complement, and are read back the same way.
pub proof fn lemma_little_endian(a: u16, v: u32, x: i8, s: Seq<u8>, i: int)
    ensures
        u16_le(a).len() == 2,
        u16_le(a)[0] == a % 256,
        u16_le(a)[1] == a / 256,
        u32_le(v).len() == 4,
        u32_le(v)[0] == v % 256,
        u32_le(v)[1] == (v / 256) % 256,
        u32_le(v)[2] == (v / 65536) % 256,
        u32_le(v)[3] == v / 16777216,
        0 <= i && i + 2 <= s.len() ==> u16_at(s, i) == s[i] + 256 * s[i + 1],
        0 <= i && i + 4 <= s.len() ==> u32_at(s, i) == s[i] + 256 * s[i + 1] + 65536 * s[i + 2]
            + 16777216 * s[i + 3],
        x >= 0 ==> i8_byte(x) == x,
        x < 0 ==> i8_byte(x) == x + 256,
        0 <= i < s.len() && s[i] < 128 ==> byte_i8(s[i]) == s[i],
        0 <= i < s.len() && s[i] >= 128 ==> byte_i8(s[i]) == s[i] - 256,
{
    if 0 <= i && i + 4 <= s.len() {
        assert(s[i] + s[i + 1] * 256 + s[i + 2] * 65536 + s[i + 3] * 16777216 <= 0xffff_ffff);
    }
}

/// Signed 16- and 32-bit values are written as the unsigned value with the
/// same residue, and read back by subtracting the modulus from the upper half.
pub proof fn lemma_twos_complement(a: i16, v: i32, s: Seq<u8>, i: int)
    ensures
        i16_le(a) == u16_le(((a as int) % 65536) as u16),
        i32_le(v) == u32_le(((v as int) % 4294967296) as u32),
        u16_at(s, i) >= 32768 ==> i16_at(s, i) == u16_at(s, i) - 65536,
        u16_at(s, i) < 32768 ==> i16_at(s, i) == u16_at(s, i),
        u32_at(s, i) >= 2147483648 ==> i32_at(s, i) == u32_at(s, i) - 4294967296,
        u32_at(s, i) < 2147483648 ==> i32_at(s, i) == u32_at(s, i),
{
}

// ---------------------------------------------------------------------------
// Writers
// ---------------------------------------------------------------------------

/// Appends one byte.
pub fn put_u8(out: &mut Vec<u8>, v: u8)
    ensures
        final(out)@ == old(out)@.push(v),
{
    out.push(v);
}

/// Appends one signed byte in two's complement.
pub fn put_i8(out: &mut Vec<u8>, v: i8)
    ensures
        final(out)@ == old(out)@.push(i8_byte(v)),
{
    let b: u8 = if v < 0 {
        (v as i16 + 256) as u8
    } else {
        v as u8
    };
    out.push(b);
}

/// Appends a run of bytes.
pub fn put_slice(out: &mut Vec<u8>, s: &[u8])
    ensures
        final(out)@ == old(out)@ + s@,
{
    let ghost start = out@;
    let mut i: usize = 0;
    while i < s.len()
        invariant
            i <= s@.len(),
            out@ == start + s@.subrange(0, i as int),
        decreases s.len() - i,
    {
        out.push(s[i]);
        i = i + 1;
    }
    assert(s@.subrange(0, s@.len() as int) == s@);
}

/// Appends the bytes of a fixed-size array.
pub fn put_array<const N: usize>(out: &mut Vec<u8>, a: &[u8; N])
    ensures
        final(out)@ == old(out)@ + a@,
{
    let ghost start = out@;
    let mut i: usize = 0;
    while i < N
        invariant
            i <= N,
            a@.len() == N,
            out@ == start + a@.subrange(0, i as int),
        decreases N - i,
    {
        out.push(a[i]);
        i = i + 1;
    }
    assert(a@.subrange(0, N as int) == a@);
}

/// Appends `n` copies of `b`.
pub fn put_repeated(out: &mut Vec<u8>, b: u8, n: usize)
    ensures
        final(out)@ == old(out)@ + repeated(b, n as nat),
{
    let ghost start = out@;
    let mut i: usize = 0;
    while i < n
        invariant
            i <= n,
            out@ == start + repeated(b, i as nat),
        decreases n - i,
    {
        out.push(b);
        i = i + 1;
        assert(repeated(b, i as nat) == repeated(b, (i - 1) as nat).push(b));
    }
}

/// Appends the UTF-8 bytes of a string slice.
pub fn put_str(out: &mut Vec<u8>, s: &str)
    ensures
        final(out)@ == old(out)@ + str_bytes(s),
{
    put_slice(out, s.as_bytes());
}

/// Appends a `u16`, least significant byte first.
pub fn put_u16_le(out: &mut Vec<u8>, v: u16)
    ensures
        final(out)@ == old(out)@ + u16_le(v),
{
    out.push((v % 256) as u8);
    out.push((v / 256) as u8);
}

/// Appends a `u32`, least significant byte first.
pub fn put_u32_le(out: &mut Vec<u8>, v: u32)
    ensures
        final(out)@ == old(out)@ + u32_le(v),
{
    out.push((v % 256) as u8);
    out.push(((v / 256) % 256) as u8);
    out.push(((v / 65536) % 256) as u8);
    out.push((v / 16777216) as u8);
}

/// Appends an `i16` in two's complement, least significant byte first.
pub fn put_i16_le(out: &mut Vec<u8>, v: i16)
    ensures
        final(out)@ == old(out)@ + i16_le(v),
{
    let u: u16 = if v < 0 {
        (v as i32 + 65536) as u16
    } else {
        v as u16
    };
    put_u16_le(out, u);
}

/// Appends an `i32` in two's complement, least significant byte first.
pub fn put_i32_le(out: &mut Vec<u8>, v: i32)
    ensures
        final(out)@ == old(out)@ + i32_le(v),
{
    let u: u32 = if v < 0 {
        (v as i64 + 4294967296) as u32
    } else {
        v as u32
    };
    put_u32_le(out, u);
}

// ---------------------------------------------------------------------------
// Readers
// ---------------------------------------------------------------------------

/// A cursor over input bytes: reads take bytes at `pos` and move it on.
pub struct SliceReader<'a> {
    pub data: &'a [u8],
    pub pos: usize,
}

impl<'a> SliceReader<'a> {
    /// The cursor is within the input.
    pub open spec fn spec_wf(&self) -> bool {
        self.pos <= self.data@.len()
    }

    /// Bytes left to read.
    pub open spec fn spec_left(&self) -> int {
        self.data@.len() - self.pos
    }

    /// A cursor at the start of `data`.
    pub fn new(data: &'a [u8]) -> (r: SliceReader<'a>)
        ensures
            r.data == data,
            r.pos == 0,
    {
        SliceReader { data, pos: 0 }
    }

    /// Takes one byte.
    pub fn read_u8(&mut self) -> (r: Result<u8, DecodeError>)
        requires
            old(self).spec_wf(),
        ensures
            final(self).spec_wf(),
            final(self).data == old(self).data,
            old(self).spec_left() >= 1 ==> r == Ok::<u8, DecodeError>(
                old(self).data@[old(self).pos as int],
            ) && final(self).pos == old(self).pos + 1,
            old(self).spec_left() < 1 ==> r == Err::<u8, DecodeError>(DecodeError::UnexpectedEof),
    {
        if self.pos >= self.data.len() {
            return Err(DecodeError::UnexpectedEof);
        }
        let b = self.data[self.pos];
        self.pos = self.pos + 1;
        Ok(b)
    }

    /// Takes one two's complement byte.
    pub fn read_i8(&mut self) -> (r: Result<i8, DecodeError>)
        requires
            old(self).spec_wf(),
        ensures
            final(self).spec_wf(),
            final(self).data == old(self).data,
            old(self).spec_left() >= 1 ==> r == Ok::<i8, DecodeError>(
                byte_i8(old(self).data@[old(self).pos as int]),
            ) && final(self).pos == old(self).pos + 1,
            old(self).spec_left() < 1 ==> r == Err::<i8, DecodeError>(DecodeError::UnexpectedEof),
    {
        let b = self.read_u8()?;
        let v: i8 = if b >= 128 {
            (b as i16 - 256) as i8
        } else {
            b as i8
        };
        Ok(v)
    }

    /// Takes a little-endian `u16`.
    pub fn read_u16_le(&mut self) -> (r: Result<u16, DecodeError>)
        requires
            old(self).spec_wf(),
        ensures
            final(self).spec_wf(),
            final(self).data == old(self).data,
            old(self).spec_left() >= 2 ==> r == Ok::<u16, DecodeError>(
                u16_at(old(self).data@, old(self).pos as int),
            ) && final(self).pos == old(self).pos + 2,
            old(self).spec_left() < 2 ==> r == Err::<u16, DecodeError>(DecodeError::UnexpectedEof),
    {
        if self.data.len() - self.pos < 2 {
            return Err(DecodeError::UnexpectedEof);
        }
        let p = self.pos;
        let v: u16 = self.data[p] as u16 + self.data[p + 1] as u16 * 256;
        self.pos = p + 2;
        Ok(v)
    }

    /// Takes a little-endian `u32`.
    pub fn read_u32_le(&mut self) -> (r: Result<u32, DecodeError>)
        requires
            old(self).spec_wf(),
        ensures
            final(self).spec_wf(),
            final(self).data == old(self).data,
            old(self).spec_left() >= 4 ==> r == Ok::<u32, DecodeError>(
                u32_at(old(self).data@, old(self).pos as int),
            ) && final(self).pos == old(self).pos + 4,
            old(self).spec_left() < 4 ==> r == Err::<u32, DecodeError>(DecodeError::UnexpectedEof),
    {
        if self.data.len() - self.pos < 4 {
            return Err(DecodeError::UnexpectedEof);
        }
        let p = self.pos;
        let v: u32 = self.data[p] as u32 + self.data[p + 1] as u32 * 256 + self.data[p + 2] as u32
            * 65536 + self.data[p + 3] as u32 * 16777216;
        self.pos = p + 4;
        Ok(v)
    }

    /// Takes a little-endian two's complement `i16`.
    pub fn read_i16_le(&mut self) -> (r: Result<i16, DecodeError>)
        requires
            old(self).spec_wf(),
        ensures
            final(self).spec_wf(),
            final(self).data == old(self).data,
            old(self).spec_left() >= 2 ==> r == Ok::<i16, DecodeError>(
                i16_at(old(self).data@, old(self).pos as int),
            ) && final(self).pos == old(self).pos + 2,
            old(self).spec_left() < 2 ==> r == Err::<i16, DecodeError>(DecodeError::UnexpectedEof),
    {
        let u = self.read_u16_le()?;
        let v: i16 = if u >= 32768 {
            (u as i32 - 65536) as i16
        } else {
            u as i16
        };
        Ok(v)
    }

    /// Takes a little-endian two's complement `i32`.
    pub fn read_i32_le(&mut self) -> (r: Result<i32, DecodeError>)
        requires
            old(self).spec_wf(),
        ensures
            final(self).spec_wf(),
            final(self).data == old(self).data,
            old(self).spec_left() >= 4 ==> r == Ok::<i32, DecodeError>(
                i32_at(old(self).data@, old(self).pos as int),
            ) && final(self).pos == old(self).pos + 4,
            old(self).spec_left() < 4 ==> r == Err::<i32, DecodeError>(DecodeError::UnexpectedEof),
    {
        let u = self.read_u32_le()?;
        let v: i32 = if u >= 2147483648 {
            (u as i64 - 4294967296) as i32
        } else {
            u as i32
        };
        Ok(v)
    }

    /// Takes `n` bytes, borrowing them from the input.
    pub fn read_slice(&mut self, n: usize) -> (r: Result<&'a [u8], DecodeError>)
        requires
            old(self).spec_wf(),
        ensures
            final(self).spec_wf(),
            final(self).data == old(self).data,
            old(self).spec_left() >= n ==> r is Ok && r->Ok_0@ == old(self).data@.subrange(
                old(self).pos as int,
                old(self).pos + n,
            ) && final(self).pos == old(self).pos + n,
            old(self).spec_left() < n ==> r == Err::<&'a [u8], DecodeError>(
                DecodeError::UnexpectedEof,
            ),
    {
        if self.data.len() - self.pos < n {
            return Err(DecodeError::UnexpectedEof);
        }
        let p = self.pos;
        let d: &'a [u8] = self.data;
        let s: &'a [u8] = &d[p..p + n];
        self.pos = p + n;
        Ok(s)
    }

    /// Takes all bytes that are left, borrowing them from the input.
    pub fn read_rest(&mut self) -> (r: &'a [u8])
        requires
            old(self).spec_wf(),
        ensures
            final(self).spec_wf(),
            final(self).data == old(self).data,
            r@ == tail(old(self).data@, old(self).pos as int),
            final(self).pos == old(self).data@.len(),
    {
        let p = self.pos;
        let d: &'a [u8] = self.data;
        let s: &'a [u8] = &d[p..d.len()];
        self.pos = d.len();
        s
    }

    /// Takes `N` bytes as an array.
    pub fn read_chunk<const N: usize>(&mut self) -> (r: Result<[u8; N], DecodeError>)
        requires
            old(self).spec_wf(),
        ensures
            final(self).spec_wf(),
            final(self).data == old(self).data,
            old(self).spec_left() >= N ==> r is Ok && r->Ok_0@ == old(self).data@.subrange(
                old(self).pos as int,
                old(self).pos + N,
            ) && final(self).pos == old(self).pos + N,
            old(self).spec_left() < N ==> r == Err::<[u8; N], DecodeError>(
                DecodeError::UnexpectedEof,
            ),
    {
        if self.data.len() - self.pos < N {
            return Err(DecodeError::UnexpectedEof);
        }
        let p = self.pos;
        let end: usize = p + N;
        let mut a = [0u8; N];
        let mut i: usize = 0;
        while i < N
            invariant
                i <= N,
                end == p + N,
                end <= self.data@.len(),
                a@.len() == N,
                forall|j: int| 0 <= j < i ==> a@[j] == self.data@[p + j],
            decreases N - i,
        {
            a[i] = self.data[p + i];
            i = i + 1;
        }
        self.pos = p + N;
        assert(a@ =~= self.data@.subrange(p as int, p + N));
        Ok(a)
    }
}

// ---------------------------------------------------------------------------
// Searching
// ---------------------------------------------------------------------------

/// Index of the first `x` in `s`, or the length of `s` when there is none.
pub open spec fn spec_index_of(s: Seq<u8>, x: u8) -> nat
    decreases s.len(),
{
    if s.len() == 0 {
        0
    } else if s[0] == x {
        0
    } else {
        1 + spec_index_of(s.drop_first(), x)
    }
}

/// `k` is the index of the first `x` in `s` (the length when there is none).
pub proof fn lemma_index_of(s: Seq<u8>, x: u8, k: int)
    requires
        0 <= k <= s.len(),
        forall|j: int| 0 <= j < k ==> s[j] != x,
        k == s.len() || s[k] == x,
    ensures
        spec_index_of(s, x) == k,
    decreases s.len(),
{
    if s.len() > 0 && s[0] != x {
        lemma_index_of(s.drop_first(), x, k - 1);
    }
}

/// What `spec_index_of` is: no `x` comes before it, and it is either the
/// length or the index of an `x`.
pub proof fn lemma_index_of_props(s: Seq<u8>, x: u8)
    ensures
        spec_index_of(s, x) <= s.len(),
        forall|j: int| 0 <= j < spec_index_of(s, x) ==> s[j] != x,
        spec_index_of(s, x) < s.len() ==> s[spec_index_of(s, x) as int] == x,
    decreases s.len(),
{
    if s.len() > 0 && s[0] != x {
        lemma_index_of_props(s.drop_first(), x);
        assert forall|j: int| 0 <= j < spec_index_of(s, x) implies s[j] != x by {
            if j > 0 {
                assert(s[j] == s.drop_first()[j - 1]);
            }
        }
    }
}

/// Calls `memchr::memchr`, which its documentation says returns the index of
/// the first occurrence of `needle` in `haystack`, or `None` when there is
/// none; the contract claims exactly that.
#[verifier::external_body]
fn memchr_first(needle: u8, haystack: &[u8]) -> (r: Option<usize>)
    ensures
        r matches Some(i) ==> i < haystack@.len() && haystack@[i as int] == needle && forall|j: int|
            0 <= j < i ==> haystack@[j] != needle,
        r is None ==> forall|j: int| 0 <= j < haystack@.len() ==> haystack@[j] != needle,
{
    memchr::memchr(needle, haystack)
}

/// Index of the first `x` in `s`, or `None` when `s` holds no `x`.
pub fn find_byte(x: u8, s: &[u8]) -> (r: Option<usize>)
    ensures
        r matches Some(i) ==> i == spec_index_of(s@, x) && i < s@.len() && s@[i as int] == x,
        r is None <==> spec_index_of(s@, x) == s@.len(),
{
    let r = memchr_first(x, s);
    proof {
        match r {
            Some(i) => lemma_index_of(s@, x, i as int),
            None => lemma_index_of(s@, x, s@.len() as int),
        }
    }
    r
}

/// Splitting valid UTF-8 around one of its ASCII bytes leaves valid UTF-8 on
/// both sides, and the text is the two sides' text around that character.
pub proof fn lemma_utf8_split_at_ascii(b: Seq<u8>, i: int)
    requires
        valid_utf8(b),
        0 <= i < b.len(),
        b[i] < 0x80,
    ensures
        valid_utf8(b.subrange(0, i)),
        valid_utf8(tail(b, i + 1)),
        decode_utf8(b) == decode_utf8(b.subrange(0, i)) + seq![b[i] as char] + decode_utf8(
            tail(b, i + 1),
        ),
{
    is_char_boundary_iff_not_is_continuation_byte(b, i);
    valid_utf8_split(b, i);
    decode_utf8_split(b, i);
    let t = tail(b, i);
    let c = b[i];
    assert(t[0] == c);
    assert(c & 0x7f == c) by (bit_vector)
        requires
            c < 0x80,
    ;
    assert(pop_first_scalar(t) =~= tail(b, i + 1));
    assert(decode_utf8(t) == seq![b[i] as char] + decode_utf8(tail(b, i + 1)));
}

/// One ASCII byte is valid UTF-8 for its character.
pub proof fn lemma_utf8_ascii_byte(c: u8)
    requires
        c < 0x80,
    ensures
        valid_utf8(seq![c]),
        decode_utf8(seq![c]) == seq![c as char],
{
    let s = seq![c];
    assert(c & 0x7f == c) by (bit_vector)
        requires
            c < 0x80,
    ;
    assert(pop_first_scalar(s) =~= Seq::<u8>::empty());
    reveal_with_fuel(valid_utf8, 2);
    reveal_with_fuel(decode_utf8, 2);
}

// ---------------------------------------------------------------------------
// UTF-8 text
// ---------------------------------------------------------------------------

#[verifier::external_type_specification]
#[verifier::external_body]
pub struct ExUtf8Error(core::str::Utf8Error);

/// Calls `core::str::from_utf8`. Its documentation says that it succeeds
/// exactly when the bytes are valid UTF-8, and that the string slice it then
/// returns is those bytes; the contract claims that, with validity as vstd's
/// `valid_utf8` states it.
#[verifier::external_body]
fn str_from_utf8<'a>(bytes: &'a [u8]) -> (r: Result<&'a str, core::str::Utf8Error>)
    ensures
        r is Ok <==> valid_utf8(bytes@),
        r matches Ok(s) ==> str_bytes(s) == bytes@,
{
    core::str::from_utf8(bytes)
}

/// Views `bytes` as text, failing with `InvalidUtf8` when they are not UTF-8.
pub fn read_utf8<'a>(bytes: &'a [u8]) -> (r: Result<&'a str, DecodeError>)
    ensures
        r is Ok <==> valid_utf8(bytes@),
        r matches Ok(s) ==> s@ == decode_utf8(bytes@) && str_bytes(s) == bytes@,
        r matches Err(e) ==> e == DecodeError::InvalidUtf8,
{
    match str_from_utf8(bytes) {
        Ok(s) => {
            proof {
                encode_utf8_decode_utf8(s@);
            }
            Ok(s)
        },
        Err(_) => Err(DecodeError::InvalidUtf8),
    }
}

} // verus!
