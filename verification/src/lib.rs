//! The frames that a MeshCore companion radio and its host exchange: host
//! commands, device responses, and the byte layout each is written in.
//!
//! Every frame type implements [`CompanionSer`], whose contract states the
//! exact bytes a value is written as and, for every input, which error or which
//! value decoding yields.
use vstd::prelude::*;
use vstd::utf8::*;

pub mod commands;
pub mod mesh;
pub mod responses;
pub mod wire;

use crate::mesh::DecodeError;
use crate::wire::{
    find_byte, lemma_index_of, lemma_index_of_props, put_repeated, put_slice, read_utf8, repeated, spec_index_of, str_bytes,
    SliceReader,
};

verus! {

/// A frame of the companion protocol: its size, its bytes, and how it is
/// read back from bytes. Decoded values may borrow from the input (`'a`).
pub trait CompanionSer<'a>: Sized {
    /// The bytes this value is written as.
    spec fn spec_wire(&self) -> Seq<u8>;

    /// The values that can be written (others would make the writer panic).
    open spec fn spec_serializable(&self) -> bool {
        true
    }

    /// The size that `ser_size` reports.
    open spec fn spec_ser_size(&self) -> int {
        self.spec_wire().len() as int
    }

    /// The values whose size can be reported (others would panic).
    open spec fn spec_sizable(&self) -> bool {
        true
    }

    /// Why decoding `bytes` fails, or `None` when it succeeds.
    spec fn spec_decode_error(bytes: Seq<u8>) -> Option<DecodeError>;

    /// `v` is the value that decoding `bytes` yields.
    spec fn spec_decoded(bytes: Seq<u8>, v: Self) -> bool;

    /// The inputs decoding is defined for (on others it would panic).
    open spec fn spec_deserializable(bytes: Seq<u8>) -> bool {
        true
    }

    /// Number of bytes the value takes on the wire.
    fn ser_size(&self) -> (n: usize)
        requires
            self.spec_sizable(),
            self.spec_ser_size() <= usize::MAX,
        ensures
            n == self.spec_ser_size(),
    ;

    /// Appends the value's bytes to `out`.
    fn write_wire(&self, out: &mut Vec<u8>)
        requires
            self.spec_serializable(),
        ensures
            final(out)@ == old(out)@ + self.spec_wire(),
    ;

    /// Writes the value at the start of `out` and returns the part written.
    fn companion_serialize<'d>(&self, out: &'d mut [u8]) -> (r: &'d [u8])
        requires
            self.spec_serializable(),
            old(out)@.len() >= self.spec_wire().len(),
        ensures
            r@ == self.spec_wire(),
            final(out)@ == self.spec_wire() + old(out)@.subrange(
                self.spec_wire().len() as int,
                old(out)@.len() as int,
            ),
    {
        let mut v: Vec<u8> = Vec::new();
        self.write_wire(&mut v);
        assert(v@ == self.spec_wire());
        let n = v.len();
        let mut i: usize = 0;
        while i < n
            invariant
                n == v@.len(),
                v@ == self.spec_wire(),
                out@.len() == old(out)@.len(),
                n <= out@.len(),
                i <= n,
                forall|j: int| 0 <= j < i ==> out@[j] == v@[j],
                forall|j: int| n <= j < out@.len() ==> out@[j] == old(out)@[j],
            decreases n - i,
        {
            out[i] = v[i];
            i = i + 1;
        }
        assert(out@ =~= self.spec_wire() + old(out)@.subrange(n as int, old(out)@.len() as int));
        let r: &[u8] = &out[0..n];
        assert(r@ =~= v@);
        r
    }

    /// Reads a value from `input`.
    fn companion_deserialize(input: &'a [u8]) -> (r: Result<Self, DecodeError>)
        requires
            Self::spec_deserializable(input@),
        ensures
            r is Ok <==> Self::spec_decode_error(input@) is None,
            r matches Ok(v) ==> Self::spec_decoded(input@, v),
            r matches Err(e) ==> Self::spec_decode_error(input@) == Some(e),
    ;
}

// ---------------------------------------------------------------------------
// Nil-terminated text in fixed-size fields
// ---------------------------------------------------------------------------

/// The bytes of `s` before its first nil.
pub open spec fn spec_trim_nils(s: Seq<u8>) -> Seq<u8> {
    s.subrange(0, spec_index_of(s, 0) as int)
}

/// Trimming keeps the longest prefix without a nil: it is a prefix of `s`,
/// holds no nil, and is all of `s` or is followed by a nil.
pub proof fn lemma_trim_nils_props(s: Seq<u8>)
    ensures
        spec_trim_nils(s).len() <= s.len(),
        spec_trim_nils(s) == s.subrange(0, spec_trim_nils(s).len() as int),
        forall|j: int| 0 <= j < spec_trim_nils(s).len() ==> spec_trim_nils(s)[j] != 0,
        spec_trim_nils(s).len() < s.len() ==> s[spec_trim_nils(s).len() as int] == 0,
{
    lemma_index_of_props(s, 0);
}

/// A padded field is exactly `SIZE` bytes: the data, then nils.
pub proof fn lemma_padded_field<'a, const SIZE: usize>(f: NullPaddedSlice<'a, SIZE>)
    requires
        f.spec_fits(),
    ensures
        f.spec_encoded().len() == SIZE,
        f.spec_encoded().subrange(0, f.0@.len() as int) == f.0@,
        forall|j: int| f.0@.len() <= j < SIZE ==> f.spec_encoded()[j] == 0,
{
    assert(f.spec_encoded().subrange(0, f.0@.len() as int) == f.0@);
}

/// Padding bytes that contain no nil with nils leaves them as the trimmed
/// part.
pub proof fn lemma_trim_padded(s: Seq<u8>, n: nat)
    requires
        forall|j: int| 0 <= j < s.len() ==> s[j] != 0,
    ensures
        spec_trim_nils(s + repeated(0, n)) == s,
{
    let t = s + repeated(0, n);
    lemma_index_of(t, 0, s.len() as int);
    assert(t.subrange(0, s.len() as int) == s);
}

/// The bytes of `data` before its first nil.
fn trim_slice_nils(data: &[u8]) -> (r: &[u8])
    ensures
        r@ == spec_trim_nils(data@),
{
    match find_byte(0, data) {
        Some(end) => &data[0..end],
        None => {
            assert(data@.subrange(0, data@.len() as int) == data@);
            data
        },
    }
}

/// Text stored in a field of `SIZE` bytes, padded with nils.
pub struct NullPaddedString<'a, const SIZE: usize>(pub &'a str);

impl<'a, const SIZE: usize> NullPaddedString<'a, SIZE> {
    /// The field's bytes: the text, then nils up to `SIZE`.
    pub open spec fn spec_encoded(&self) -> Seq<u8> {
        str_bytes(self.0) + repeated(0, (SIZE - str_bytes(self.0).len()) as nat)
    }

    /// The text fits the field.
    pub open spec fn spec_fits(&self) -> bool {
        str_bytes(self.0).len() <= SIZE
    }

    /// Why reading the field at offset `at` of `s` fails, or `None`. The
    /// reader always takes 32 bytes, whatever `SIZE` is.
    pub open spec fn spec_read_error(s: Seq<u8>, at: int) -> Option<DecodeError> {
        if s.len() - at < 32 {
            Some(DecodeError::UnexpectedEof)
        } else if !valid_utf8(spec_trim_nils(s.subrange(at, at + 32))) {
            Some(DecodeError::InvalidUtf8)
        } else {
            None
        }
    }

    /// The text that reading the field at offset `at` of `s` yields.
    pub open spec fn spec_read_text(s: Seq<u8>, at: int) -> Seq<char> {
        decode_utf8(spec_trim_nils(s.subrange(at, at + 32)))
    }

    /// Writes the text, then nils up to `SIZE` bytes.
    pub fn encode_to(&self, out: &mut Vec<u8>)
        requires
            self.spec_fits(),
        ensures
            final(out)@ == old(out)@ + self.spec_encoded(),
    {
        let bytes = self.0.as_bytes();
        let p = NullPaddedSlice::<SIZE>(bytes);
        p.encode_to(out);
    }

    /// Reads a 32-byte field and keeps the text before its first nil.
    pub fn read(rdr: &mut SliceReader<'a>) -> (r: Result<NullPaddedString<'a, SIZE>, DecodeError>)
        requires
            old(rdr).spec_wf(),
        ensures
            final(rdr).spec_wf(),
            final(rdr).data == old(rdr).data,
            r is Ok <==> Self::spec_read_error(old(rdr).data@, old(rdr).pos as int) is None,
            r matches Err(e) ==> Self::spec_read_error(old(rdr).data@, old(rdr).pos as int) == Some(
                e,
            ),
            r matches Ok(v) ==> v.0@ == Self::spec_read_text(old(rdr).data@, old(rdr).pos as int)
                && final(rdr).pos == old(rdr).pos + 32,
    {
        let data = rdr.read_slice(32)?;
        let text = read_utf8(trim_slice_nils(data))?;
        Ok(NullPaddedString(text))
    }
}

/// Bytes stored in a field of `SIZE` bytes, padded with nils.
pub struct NullPaddedSlice<'a, const SIZE: usize>(pub &'a [u8]);

impl<'a, const SIZE: usize> vstd::std_specs::convert::FromSpecImpl<&'a [u8]> for NullPaddedSlice<'a, SIZE> {
    open spec fn obeys_from_spec() -> bool {
        true
    }

    open spec fn from_spec(v: &'a [u8]) -> Self {
        NullPaddedSlice::<'a, SIZE>(v)
    }
}

impl<'a, const SIZE: usize> From<&'a [u8]> for NullPaddedSlice<'a, SIZE> {
    fn from(value: &'a [u8]) -> Self {
        NullPaddedSlice::<'a, SIZE>(value)
    }
}

impl<'a, const SIZE: usize> vstd::std_specs::convert::FromSpecImpl<&'a str> for NullPaddedSlice<'a, SIZE> {
    open spec fn obeys_from_spec() -> bool {
        true
    }

    /// The field over the text's UTF-8 bytes.
    open spec fn from_spec(v: &'a str) -> Self {
        choose|p: NullPaddedSlice<'a, SIZE>| p.0@ == str_bytes(v)
    }
}

impl<'a, const SIZE: usize> From<&'a str> for NullPaddedSlice<'a, SIZE> {
    fn from(value: &'a str) -> Self {
        let r = NullPaddedSlice::<'a, SIZE>(value.as_bytes());
        proof {
            broadcast use vstd::slice::group_slice_axioms;

            assert(r.0@ == str_bytes(value));
            let c = choose|p: NullPaddedSlice<'a, SIZE>| p.0@ == str_bytes(value);
            assert(c.0@ == r.0@);
            assert(c.0 == r.0);
        }
        r
    }
}

impl<'a, const SIZE: usize> NullPaddedSlice<'a, SIZE> {
    /// The field's bytes: the data, then nils up to `SIZE`.
    pub open spec fn spec_encoded(&self) -> Seq<u8> {
        self.0@ + repeated(0, (SIZE - self.0@.len()) as nat)
    }

    /// The data fits the field.
    pub open spec fn spec_fits(&self) -> bool {
        self.0@.len() <= SIZE
    }

    /// Writes the data, then nils up to `SIZE` bytes.
    pub fn encode_to(&self, out: &mut Vec<u8>)
        requires
            self.spec_fits(),
        ensures
            final(out)@ == old(out)@ + self.spec_encoded(),
    {
        let to_pad = SIZE - self.0.len();
        put_slice(out, self.0);
        put_repeated(out, 0, to_pad);
    }

    /// Reads a 32-byte field and keeps the bytes before its first nil.
    pub fn read(rdr: &mut SliceReader<'a>) -> (r: Result<NullPaddedSlice<'a, SIZE>, DecodeError>)
        requires
            old(rdr).spec_wf(),
        ensures
            final(rdr).spec_wf(),
            final(rdr).data == old(rdr).data,
            r is Ok <==> old(rdr).spec_left() >= 32,
            r matches Err(e) ==> e == DecodeError::UnexpectedEof,
            r matches Ok(v) ==> v.0@ == spec_trim_nils(
                old(rdr).data@.subrange(old(rdr).pos as int, old(rdr).pos + 32),
            ) && final(rdr).pos == old(rdr).pos + 32,
    {
        let data = rdr.read_slice(32)?;
        Ok(NullPaddedSlice(trim_slice_nils(data)))
    }
}

} // verus!
