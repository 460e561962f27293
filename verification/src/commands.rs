//! Commands that the host sends to the companion radio.
use vstd::prelude::*;
use vstd::utf8::{decode_utf8, valid_utf8, valid_utf8_concat};

use crate::mesh::{
    lemma_path_roundtrip, read_path, spec_path_at, spec_path_error, spec_path_header_known, spec_path_span, spec_path_wire,
    write_path, DecodeError, Path, PathHashMode, TextType,
};
use crate::wire::{
    i32_at, i32_le, lemma_i32_roundtrip, lemma_u16_roundtrip, lemma_u32_roundtrip,
    lemma_utf8_roundtrip, put_array, put_i32_le, put_slice, put_str, put_u16_le, put_u32_le, put_u8,
    read_utf8, str_bytes, string_bytes, tail, u16_at, u16_le, u32_at, u32_le, SliceReader, find_byte,
    lemma_index_of, lemma_utf8_ascii_byte, lemma_utf8_split_at_ascii, repeated, spec_index_of,
};
use crate::mesh::{adv_type, spec_adv_type, spec_known_flags, PathLen};
use crate::responses::{spec_name_field, Contact, ControlData, StatTypes};

use crate::{lemma_trim_padded, spec_trim_nils, CompanionSer, NullPaddedString};

verus! {

broadcast use {vstd::seq::group_seq_axioms, vstd::slice::group_slice_axioms};

/// Why reading a text type at offset `at` of `b` fails, or `None`.
pub open spec fn spec_text_type_error(b: Seq<u8>, at: int) -> Option<DecodeError> {
    if b.len() <= at {
        Some(DecodeError::UnexpectedEof)
    } else if TextType::spec_from_code(b[at]) is None {
        Some(DecodeError::InvalidBitPattern)
    } else {
        None
    }
}

/// Takes a text type byte.
pub fn read_text_type(rd: &mut SliceReader) -> (r: Result<TextType, DecodeError>)
    requires
        old(rd).spec_wf(),
    ensures
        final(rd).spec_wf(),
        final(rd).data == old(rd).data,
        r is Ok <==> spec_text_type_error(old(rd).data@, old(rd).pos as int) is None,
        r matches Err(e) ==> spec_text_type_error(old(rd).data@, old(rd).pos as int) == Some(e),
        r matches Ok(t) ==> TextType::spec_from_code(old(rd).data@[old(rd).pos as int]) == Some(t)
            && final(rd).pos == old(rd).pos + 1,
{
    let b = rd.read_u8()?;
    match TextType::from_code(b) {
        Some(t) => Ok(t),
        None => Err(DecodeError::InvalidBitPattern),
    }
}

// ---------------------------------------------------------------------------

/// Starts a session: the app's version and name.
pub struct AppStart<'a> {
    pub app_ver: u8,
    pub reserved: [u8; 6],
    pub app_name: &'a str,
}

impl<'a> CompanionSer<'a> for AppStart<'a> {
    open spec fn spec_wire(&self) -> Seq<u8> {
        seq![self.app_ver] + self.reserved@ + str_bytes(self.app_name)
    }

    open spec fn spec_decode_error(b: Seq<u8>) -> Option<DecodeError> {
        if b.len() < 7 {
            Some(DecodeError::UnexpectedEof)
        } else if !valid_utf8(tail(b, 7)) {
            Some(DecodeError::InvalidUtf8)
        } else {
            None
        }
    }

    open spec fn spec_decoded(b: Seq<u8>, v: Self) -> bool {
        &&& v.app_ver == b[0]
        &&& v.reserved@ == b.subrange(1, 7)
        &&& v.app_name@ == decode_utf8(tail(b, 7))
    }

    fn ser_size(&self) -> (n: usize) {
        1 + 6 + self.app_name.len()
    }

    fn write_wire(&self, out: &mut Vec<u8>) {
        put_u8(out, self.app_ver);
        put_array(out, &self.reserved);
        put_str(out, self.app_name);
    }

    fn companion_deserialize(input: &'a [u8]) -> (r: Result<Self, DecodeError>) {
        let mut rd = SliceReader::new(input);
        let app_ver = rd.read_u8()?;
        let reserved = rd.read_chunk::<6>()?;
        let app_name = read_utf8(rd.read_rest())?;
        Ok(AppStart { app_ver, reserved, app_name })
    }
}

impl<'a> AppStart<'a> {
    /// Decoding the bytes of an `AppStart` gives it back.
    pub proof fn lemma_roundtrip(self)
        ensures
            <Self as CompanionSer<'a>>::spec_decode_error(self.spec_wire()) is None,
            <Self as CompanionSer<'a>>::spec_decoded(self.spec_wire(), self),
    {
        let w = self.spec_wire();
        lemma_utf8_roundtrip(self.app_name@);
        assert(w.subrange(1, 7) == self.reserved@);
        assert(tail(w, 7) == str_bytes(self.app_name));
    }

    /// Where each field of a decoded `AppStart` is read from in its frame: the
    /// frame layout, byte by byte.
    pub proof fn lemma_decoded_fields(b: Seq<u8>, v: Self)
        requires
            <Self as CompanionSer<'a>>::spec_decode_error(b) is None,
            <Self as CompanionSer<'a>>::spec_decoded(b, v),
        ensures
            v.app_ver == b[0],
            v.reserved@ == b.subrange(1, 7),
            v.app_name@ == decode_utf8(tail(b, 7)) ,
    {
    }
}

// ---------------------------------------------------------------------------

/// Sends a text message to a contact, named by a public key prefix.
pub struct SendTxtMsg<'a> {
    pub txt_type: TextType,
    pub attempt: u8,
    pub timestamp: u32,
    pub pubkey: [u8; 6],
    pub text: &'a str,
}

impl<'a> CompanionSer<'a> for SendTxtMsg<'a> {
    open spec fn spec_wire(&self) -> Seq<u8> {
        seq![self.txt_type.spec_code(), self.attempt] + u32_le(self.timestamp) + self.pubkey@
            + str_bytes(self.text)
    }

    open spec fn spec_decode_error(b: Seq<u8>) -> Option<DecodeError> {
        if spec_text_type_error(b, 0) is Some {
            spec_text_type_error(b, 0)
        } else if b.len() < 12 {
            Some(DecodeError::UnexpectedEof)
        } else if !valid_utf8(tail(b, 12)) {
            Some(DecodeError::InvalidUtf8)
        } else {
            None
        }
    }

    open spec fn spec_decoded(b: Seq<u8>, v: Self) -> bool {
        &&& TextType::spec_from_code(b[0]) == Some(v.txt_type)
        &&& v.attempt == b[1]
        &&& v.timestamp == u32_at(b, 2)
        &&& v.pubkey@ == b.subrange(6, 12)
        &&& v.text@ == decode_utf8(tail(b, 12))
    }

    fn ser_size(&self) -> (n: usize) {
        1 + 1 + 4 + 6 + self.text.len()
    }

    fn write_wire(&self, out: &mut Vec<u8>) {
        put_u8(out, self.txt_type.code());
        put_u8(out, self.attempt);
        put_u32_le(out, self.timestamp);
        put_array(out, &self.pubkey);
        put_str(out, self.text);
    }

    fn companion_deserialize(input: &'a [u8]) -> (r: Result<Self, DecodeError>) {
        let mut rd = SliceReader::new(input);
        let txt_type = read_text_type(&mut rd)?;
        let attempt = rd.read_u8()?;
        let timestamp = rd.read_u32_le()?;
        let pubkey = rd.read_chunk::<6>()?;
        let text = read_utf8(rd.read_rest())?;
        Ok(SendTxtMsg { txt_type, attempt, timestamp, pubkey, text })
    }
}

impl<'a> SendTxtMsg<'a> {
    /// Decoding the bytes of a `SendTxtMsg` gives it back.
    pub proof fn lemma_roundtrip(self)
        ensures
            <Self as CompanionSer<'a>>::spec_decode_error(self.spec_wire()) is None,
            <Self as CompanionSer<'a>>::spec_decoded(self.spec_wire(), self),
    {
        let w = self.spec_wire();
        lemma_utf8_roundtrip(self.text@);
        lemma_u32_roundtrip(self.timestamp, w.subrange(6, w.len() as int));
        assert(w.subrange(2, w.len() as int) == u32_le(self.timestamp) + w.subrange(6, w.len() as int));
        assert(w.subrange(6, 12) == self.pubkey@);
        assert(tail(w, 12) == str_bytes(self.text));
    }

    /// Where each field of a decoded `SendTxtMsg` is read from in its frame: the
    /// frame layout, byte by byte.
    pub proof fn lemma_decoded_fields(b: Seq<u8>, v: Self)
        requires
            <Self as CompanionSer<'a>>::spec_decode_error(b) is None,
            <Self as CompanionSer<'a>>::spec_decoded(b, v),
        ensures
            TextType::spec_from_code(b[0]) == Some(v.txt_type),
            v.attempt == b[1],
            v.timestamp == u32_at(b, 2),
            v.pubkey@ == b.subrange(6, 12),
            v.text@ == decode_utf8(tail(b, 12)) ,
    {
    }
}

// ---------------------------------------------------------------------------

/// Sends a text message on a channel.
pub struct SendChannelTxtMsg<'a> {
    pub txt_type: TextType,
    pub channel_idx: u8,
    pub timestamp: u32,
    pub text: &'a str,
}

impl<'a> CompanionSer<'a> for SendChannelTxtMsg<'a> {
    open spec fn spec_wire(&self) -> Seq<u8> {
        seq![self.txt_type.spec_code(), self.channel_idx] + u32_le(self.timestamp) + str_bytes(
            self.text,
        )
    }

    open spec fn spec_decode_error(b: Seq<u8>) -> Option<DecodeError> {
        if spec_text_type_error(b, 0) is Some {
            spec_text_type_error(b, 0)
        } else if b.len() < 6 {
            Some(DecodeError::UnexpectedEof)
        } else if !valid_utf8(tail(b, 6)) {
            Some(DecodeError::InvalidUtf8)
        } else {
            None
        }
    }

    open spec fn spec_decoded(b: Seq<u8>, v: Self) -> bool {
        &&& TextType::spec_from_code(b[0]) == Some(v.txt_type)
        &&& v.channel_idx == b[1]
        &&& v.timestamp == u32_at(b, 2)
        &&& v.text@ == decode_utf8(tail(b, 6))
    }

    fn ser_size(&self) -> (n: usize) {
        1 + 1 + 4 + self.text.len()
    }

    fn write_wire(&self, out: &mut Vec<u8>) {
        put_u8(out, self.txt_type.code());
        put_u8(out, self.channel_idx);
        put_u32_le(out, self.timestamp);
        put_str(out, self.text);
    }

    fn companion_deserialize(input: &'a [u8]) -> (r: Result<Self, DecodeError>) {
        let mut rd = SliceReader::new(input);
        let txt_type = read_text_type(&mut rd)?;
        let channel_idx = rd.read_u8()?;
        let timestamp = rd.read_u32_le()?;
        let text = read_utf8(rd.read_rest())?;
        Ok(SendChannelTxtMsg { txt_type, channel_idx, timestamp, text })
    }
}

impl<'a> SendChannelTxtMsg<'a> {
    /// Decoding the bytes of a `SendChannelTxtMsg` gives it back.
    pub proof fn lemma_roundtrip(self)
        ensures
            <Self as CompanionSer<'a>>::spec_decode_error(self.spec_wire()) is None,
            <Self as CompanionSer<'a>>::spec_decoded(self.spec_wire(), self),
    {
        let w = self.spec_wire();
        lemma_utf8_roundtrip(self.text@);
        lemma_u32_roundtrip(self.timestamp, tail(w, 6));
        assert(tail(w, 2) == u32_le(self.timestamp) + tail(w, 6));
        assert(tail(w, 6) == str_bytes(self.text));
    }

    /// Where each field of a decoded `SendChannelTxtMsg` is read from in its frame: the
    /// frame layout, byte by byte.
    pub proof fn lemma_decoded_fields(b: Seq<u8>, v: Self)
        requires
            <Self as CompanionSer<'a>>::spec_decode_error(b) is None,
            <Self as CompanionSer<'a>>::spec_decoded(b, v),
        ensures
            TextType::spec_from_code(b[0]) == Some(v.txt_type),
            v.channel_idx == b[1],
            v.timestamp == u32_at(b, 2),
            v.text@ == decode_utf8(tail(b, 6)) ,
    {
    }
}

// ---------------------------------------------------------------------------

/// Asks for the contact list, optionally only contacts changed since a time.
pub struct GetContacts {
    pub since: Option<u32>,
}

impl<'a> CompanionSer<'a> for GetContacts {
    open spec fn spec_wire(&self) -> Seq<u8> {
        match self.since {
            Some(t) => u32_le(t),
            None => Seq::empty(),
        }
    }

    open spec fn spec_decode_error(b: Seq<u8>) -> Option<DecodeError> {
        None
    }

    open spec fn spec_decoded(b: Seq<u8>, v: Self) -> bool {
        v.since == if b.len() >= 4 {
            Some(u32_at(b, 0))
        } else {
            None
        }
    }

    fn ser_size(&self) -> (n: usize) {
        if self.since.is_some() {
            4
        } else {
            0
        }
    }

    fn write_wire(&self, out: &mut Vec<u8>) {
        match self.since {
            Some(since) => put_u32_le(out, since),
            None => {
                assert(out@ == out@ + Seq::<u8>::empty());
            },
        }
    }

    fn companion_deserialize(input: &'a [u8]) -> (r: Result<Self, DecodeError>) {
        let mut rd = SliceReader::new(input);
        let since = match rd.read_u32_le() {
            Ok(t) => Some(t),
            Err(_) => None,
        };
        Ok(GetContacts { since })
    }
}

impl GetContacts {
    /// Decoding the bytes of a `GetContacts` gives it back.
    pub proof fn lemma_roundtrip(self)
        ensures
            <Self as CompanionSer<'static>>::spec_decode_error(self.spec_wire()) is None,
            <Self as CompanionSer<'static>>::spec_decoded(self.spec_wire(), self),
    {
        if let Some(t) = self.since {
            lemma_u32_roundtrip(t, Seq::empty());
            assert(u32_le(t) + Seq::<u8>::empty() == u32_le(t));
        }
    }

    /// Where each field of a decoded `GetContacts` is read from in its frame: the
    /// frame layout, byte by byte.
    pub proof fn lemma_decoded_fields(b: Seq<u8>, v: Self)
        requires
            <Self as CompanionSer<'static>>::spec_decode_error(b) is None,
            <Self as CompanionSer<'static>>::spec_decoded(b, v),
        ensures
            v.since == if b.len() >= 4 { Some(u32_at(b, 0)) } else { None } ,
    {
    }
}

// ---------------------------------------------------------------------------

/// Sets the device clock.
pub struct SetDeviceTime {
    pub timestamp: u32,
}

impl<'a> CompanionSer<'a> for SetDeviceTime {
    open spec fn spec_wire(&self) -> Seq<u8> {
        u32_le(self.timestamp)
    }

    open spec fn spec_decode_error(b: Seq<u8>) -> Option<DecodeError> {
        if b.len() < 4 {
            Some(DecodeError::UnexpectedEof)
        } else {
            None
        }
    }

    open spec fn spec_decoded(b: Seq<u8>, v: Self) -> bool {
        v.timestamp == u32_at(b, 0)
    }

    fn ser_size(&self) -> (n: usize) {
        4
    }

    fn write_wire(&self, out: &mut Vec<u8>) {
        put_u32_le(out, self.timestamp);
    }

    fn companion_deserialize(input: &'a [u8]) -> (r: Result<Self, DecodeError>) {
        let mut rd = SliceReader::new(input);
        Ok(SetDeviceTime { timestamp: rd.read_u32_le()? })
    }
}

impl SetDeviceTime {
    /// Decoding the bytes of a `SetDeviceTime` gives it back.
    pub proof fn lemma_roundtrip(self)
        ensures
            <Self as CompanionSer<'static>>::spec_decode_error(self.spec_wire()) is None,
            <Self as CompanionSer<'static>>::spec_decoded(self.spec_wire(), self),
    {
        lemma_u32_roundtrip(self.timestamp, Seq::empty());
        assert(u32_le(self.timestamp) + Seq::<u8>::empty() == u32_le(self.timestamp));
    }

    /// Where each field of a decoded `SetDeviceTime` is read from in its frame: the
    /// frame layout, byte by byte.
    pub proof fn lemma_decoded_fields(b: Seq<u8>, v: Self)
        requires
            <Self as CompanionSer<'static>>::spec_decode_error(b) is None,
            <Self as CompanionSer<'static>>::spec_decoded(b, v),
        ensures
            v.timestamp == u32_at(b, 0) ,
    {
    }
}

// ---------------------------------------------------------------------------

/// Sends the node's own advert, flooded or zero-hop.
pub struct SendSelfAdvert {
    pub flood: bool,
}

impl<'a> CompanionSer<'a> for SendSelfAdvert {
    open spec fn spec_wire(&self) -> Seq<u8> {
        seq![
            if self.flood {
                1u8
            } else {
                0u8
            },
        ]
    }

    open spec fn spec_decode_error(b: Seq<u8>) -> Option<DecodeError> {
        if b.len() < 1 {
            Some(DecodeError::UnexpectedEof)
        } else {
            None
        }
    }

    open spec fn spec_decoded(b: Seq<u8>, v: Self) -> bool {
        v.flood == (b[0] > 0)
    }

    fn ser_size(&self) -> (n: usize) {
        1
    }

    fn write_wire(&self, out: &mut Vec<u8>) {
        put_u8(
            out,
            if self.flood {
                1
            } else {
                0
            },
        );
    }

    fn companion_deserialize(input: &'a [u8]) -> (r: Result<Self, DecodeError>) {
        let mut rd = SliceReader::new(input);
        Ok(SendSelfAdvert { flood: rd.read_u8()? > 0 })
    }
}

impl SendSelfAdvert {
    /// Decoding the bytes of a `SendSelfAdvert` gives it back.
    pub proof fn lemma_roundtrip(self)
        ensures
            <Self as CompanionSer<'static>>::spec_decode_error(self.spec_wire()) is None,
            <Self as CompanionSer<'static>>::spec_decoded(self.spec_wire(), self),
    {
    }

    /// Where each field of a decoded `SendSelfAdvert` is read from in its frame: the
    /// frame layout, byte by byte.
    pub proof fn lemma_decoded_fields(b: Seq<u8>, v: Self)
        requires
            <Self as CompanionSer<'static>>::spec_decode_error(b) is None,
            <Self as CompanionSer<'static>>::spec_decoded(b, v),
        ensures
            v.flood == (b[0] > 0) ,
    {
    }
}

// ---------------------------------------------------------------------------

/// Sets the name the node advertises.
pub struct SetAdvertName<'a> {
    pub name: &'a str,
}

impl<'a> CompanionSer<'a> for SetAdvertName<'a> {
    open spec fn spec_wire(&self) -> Seq<u8> {
        str_bytes(self.name)
    }

    open spec fn spec_decode_error(b: Seq<u8>) -> Option<DecodeError> {
        if !valid_utf8(b) {
            Some(DecodeError::InvalidUtf8)
        } else {
            None
        }
    }

    open spec fn spec_decoded(b: Seq<u8>, v: Self) -> bool {
        v.name@ == decode_utf8(b)
    }

    fn ser_size(&self) -> (n: usize) {
        self.name.len()
    }

    fn write_wire(&self, out: &mut Vec<u8>) {
        put_str(out, self.name);
    }

    fn companion_deserialize(input: &'a [u8]) -> (r: Result<Self, DecodeError>) {
        Ok(SetAdvertName { name: read_utf8(input)? })
    }
}

impl<'a> SetAdvertName<'a> {
    /// Decoding the bytes of a `SetAdvertName` gives it back.
    pub proof fn lemma_roundtrip(self)
        ensures
            <Self as CompanionSer<'a>>::spec_decode_error(self.spec_wire()) is None,
            <Self as CompanionSer<'a>>::spec_decoded(self.spec_wire(), self),
    {
        lemma_utf8_roundtrip(self.name@);
    }

    /// Where each field of a decoded `SetAdvertName` is read from in its frame: the
    /// frame layout, byte by byte.
    pub proof fn lemma_decoded_fields(b: Seq<u8>, v: Self)
        requires
            <Self as CompanionSer<'a>>::spec_decode_error(b) is None,
            <Self as CompanionSer<'a>>::spec_decoded(b, v),
        ensures
            v.name@ == decode_utf8(b) ,
    {
    }
}

// ---------------------------------------------------------------------------

/// Sets the LoRa radio parameters.
pub struct SetRadioParams {
    pub freq: u32,
    pub bw: u32,
    pub sf: u8,
    pub cr: u8,
}

impl<'a> CompanionSer<'a> for SetRadioParams {
    open spec fn spec_wire(&self) -> Seq<u8> {
        u32_le(self.freq) + u32_le(self.bw) + seq![self.sf, self.cr]
    }

    open spec fn spec_decode_error(b: Seq<u8>) -> Option<DecodeError> {
        if b.len() < 10 {
            Some(DecodeError::UnexpectedEof)
        } else {
            None
        }
    }

    open spec fn spec_decoded(b: Seq<u8>, v: Self) -> bool {
        &&& v.freq == u32_at(b, 0)
        &&& v.bw == u32_at(b, 4)
        &&& v.sf == b[8]
        &&& v.cr == b[9]
    }

    fn ser_size(&self) -> (n: usize) {
        4 + 4 + 1 + 1
    }

    fn write_wire(&self, out: &mut Vec<u8>) {
        put_u32_le(out, self.freq);
        put_u32_le(out, self.bw);
        put_u8(out, self.sf);
        put_u8(out, self.cr);
    }

    fn companion_deserialize(input: &'a [u8]) -> (r: Result<Self, DecodeError>) {
        let mut rd = SliceReader::new(input);
        let freq = rd.read_u32_le()?;
        let bw = rd.read_u32_le()?;
        let sf = rd.read_u8()?;
        let cr = rd.read_u8()?;
        Ok(SetRadioParams { freq, bw, sf, cr })
    }
}

impl SetRadioParams {
    /// Decoding the bytes of a `SetRadioParams` gives it back.
    pub proof fn lemma_roundtrip(self)
        ensures
            <Self as CompanionSer<'static>>::spec_decode_error(self.spec_wire()) is None,
            <Self as CompanionSer<'static>>::spec_decoded(self.spec_wire(), self),
    {
        let w = self.spec_wire();
        lemma_u32_roundtrip(self.freq, tail(w, 4));
        lemma_u32_roundtrip(self.bw, tail(w, 8));
        assert(w == u32_le(self.freq) + tail(w, 4));
        assert(tail(w, 4) == u32_le(self.bw) + tail(w, 8));
    }

    /// Where each field of a decoded `SetRadioParams` is read from in its frame: the
    /// frame layout, byte by byte.
    pub proof fn lemma_decoded_fields(b: Seq<u8>, v: Self)
        requires
            <Self as CompanionSer<'static>>::spec_decode_error(b) is None,
            <Self as CompanionSer<'static>>::spec_decoded(b, v),
        ensures
            v.freq == u32_at(b, 0),
            v.bw == u32_at(b, 4),
            v.sf == b[8],
            v.cr == b[9] ,
    {
    }
}

// ---------------------------------------------------------------------------

/// Sets the transmit power.
pub struct SetTxPower {
    pub tx_power: u8,
}

impl<'a> CompanionSer<'a> for SetTxPower {
    open spec fn spec_wire(&self) -> Seq<u8> {
        seq![self.tx_power]
    }

    open spec fn spec_decode_error(b: Seq<u8>) -> Option<DecodeError> {
        if b.len() < 1 {
            Some(DecodeError::UnexpectedEof)
        } else {
            None
        }
    }

    open spec fn spec_decoded(b: Seq<u8>, v: Self) -> bool {
        v.tx_power == b[0]
    }

    fn ser_size(&self) -> (n: usize) {
        1
    }

    fn write_wire(&self, out: &mut Vec<u8>) {
        put_u8(out, self.tx_power);
    }

    fn companion_deserialize(input: &'a [u8]) -> (r: Result<Self, DecodeError>) {
        let mut rd = SliceReader::new(input);
        Ok(SetTxPower { tx_power: rd.read_u8()? })
    }
}

impl SetTxPower {
    /// Decoding the bytes of a `SetTxPower` gives it back.
    pub proof fn lemma_roundtrip(self)
        ensures
            <Self as CompanionSer<'static>>::spec_decode_error(self.spec_wire()) is None,
            <Self as CompanionSer<'static>>::spec_decoded(self.spec_wire(), self),
    {
    }

    /// Where each field of a decoded `SetTxPower` is read from in its frame: the
    /// frame layout, byte by byte.
    pub proof fn lemma_decoded_fields(b: Seq<u8>, v: Self)
        requires
            <Self as CompanionSer<'static>>::spec_decode_error(b) is None,
            <Self as CompanionSer<'static>>::spec_decoded(b, v),
        ensures
            v.tx_power == b[0] ,
    {
    }
}

// ---------------------------------------------------------------------------

/// Resets the stored path to a contact, named by its public key.
pub struct ResetPath {
    pub pubkey: [u8; 32],
}

impl<'a> CompanionSer<'a> for ResetPath {
    open spec fn spec_wire(&self) -> Seq<u8> {
        self.pubkey@
    }

    open spec fn spec_decode_error(b: Seq<u8>) -> Option<DecodeError> {
        if b.len() < 32 {
            Some(DecodeError::UnexpectedEof)
        } else {
            None
        }
    }

    open spec fn spec_decoded(b: Seq<u8>, v: Self) -> bool {
        v.pubkey@ == b.subrange(0, 32)
    }

    fn ser_size(&self) -> (n: usize) {
        32
    }

    fn write_wire(&self, out: &mut Vec<u8>) {
        put_array(out, &self.pubkey);
    }

    fn companion_deserialize(input: &'a [u8]) -> (r: Result<Self, DecodeError>) {
        let mut rd = SliceReader::new(input);
        Ok(ResetPath { pubkey: rd.read_chunk::<32>()? })
    }
}

impl ResetPath {
    /// Decoding the bytes of a `ResetPath` gives it back.
    pub proof fn lemma_roundtrip(self)
        ensures
            <Self as CompanionSer<'static>>::spec_decode_error(self.spec_wire()) is None,
            <Self as CompanionSer<'static>>::spec_decoded(self.spec_wire(), self),
    {
        assert(self.pubkey@.subrange(0, 32) == self.pubkey@);
    }

    /// Where each field of a decoded `ResetPath` is read from in its frame: the
    /// frame layout, byte by byte.
    pub proof fn lemma_decoded_fields(b: Seq<u8>, v: Self)
        requires
            <Self as CompanionSer<'static>>::spec_decode_error(b) is None,
            <Self as CompanionSer<'static>>::spec_decoded(b, v),
        ensures
            v.pubkey@ == b.subrange(0, 32) ,
    {
    }
}

// ---------------------------------------------------------------------------

/// Sets the location the node advertises, in millionths of a degree.
pub struct SetAdvertLatLon {
    pub lat: i32,
    pub lon: i32,
}

impl<'a> CompanionSer<'a> for SetAdvertLatLon {
    open spec fn spec_wire(&self) -> Seq<u8> {
        i32_le(self.lat) + i32_le(self.lon)
    }

    open spec fn spec_decode_error(b: Seq<u8>) -> Option<DecodeError> {
        if b.len() < 8 {
            Some(DecodeError::UnexpectedEof)
        } else {
            None
        }
    }

    open spec fn spec_decoded(b: Seq<u8>, v: Self) -> bool {
        &&& v.lat == i32_at(b, 0)
        &&& v.lon == i32_at(b, 4)
    }

    fn ser_size(&self) -> (n: usize) {
        4 + 4
    }

    fn write_wire(&self, out: &mut Vec<u8>) {
        put_i32_le(out, self.lat);
        put_i32_le(out, self.lon);
    }

    fn companion_deserialize(input: &'a [u8]) -> (r: Result<Self, DecodeError>) {
        let mut rd = SliceReader::new(input);
        let lat = rd.read_i32_le()?;
        let lon = rd.read_i32_le()?;
        Ok(SetAdvertLatLon { lat, lon })
    }
}

impl SetAdvertLatLon {
    /// Decoding the bytes of a `SetAdvertLatLon` gives it back.
    pub proof fn lemma_roundtrip(self)
        ensures
            <Self as CompanionSer<'static>>::spec_decode_error(self.spec_wire()) is None,
            <Self as CompanionSer<'static>>::spec_decoded(self.spec_wire(), self),
    {
        let w = self.spec_wire();
        lemma_i32_roundtrip(self.lat, tail(w, 4));
        lemma_i32_roundtrip(self.lon, Seq::empty());
        assert(w == i32_le(self.lat) + tail(w, 4));
        assert(tail(w, 4) == i32_le(self.lon) + Seq::<u8>::empty());
    }

    /// Where each field of a decoded `SetAdvertLatLon` is read from in its frame: the
    /// frame layout, byte by byte.
    pub proof fn lemma_decoded_fields(b: Seq<u8>, v: Self)
        requires
            <Self as CompanionSer<'static>>::spec_decode_error(b) is None,
            <Self as CompanionSer<'static>>::spec_decoded(b, v),
        ensures
            v.lat == i32_at(b, 0),
            v.lon == i32_at(b, 4) ,
    {
    }
}

// ---------------------------------------------------------------------------

/// Removes a contact, named by its public key.
pub struct RemoveContact {
    pub pubkey: [u8; 32],
}

impl<'a> CompanionSer<'a> for RemoveContact {
    open spec fn spec_wire(&self) -> Seq<u8> {
        self.pubkey@
    }

    open spec fn spec_decode_error(b: Seq<u8>) -> Option<DecodeError> {
        if b.len() < 32 {
            Some(DecodeError::UnexpectedEof)
        } else {
            None
        }
    }

    open spec fn spec_decoded(b: Seq<u8>, v: Self) -> bool {
        v.pubkey@ == b.subrange(0, 32)
    }

    fn ser_size(&self) -> (n: usize) {
        32
    }

    fn write_wire(&self, out: &mut Vec<u8>) {
        put_array(out, &self.pubkey);
    }

    fn companion_deserialize(input: &'a [u8]) -> (r: Result<Self, DecodeError>) {
        let mut rd = SliceReader::new(input);
        Ok(RemoveContact { pubkey: rd.read_chunk::<32>()? })
    }
}

impl RemoveContact {
    /// Decoding the bytes of a `RemoveContact` gives it back.
    pub proof fn lemma_roundtrip(self)
        ensures
            <Self as CompanionSer<'static>>::spec_decode_error(self.spec_wire()) is None,
            <Self as CompanionSer<'static>>::spec_decoded(self.spec_wire(), self),
    {
        assert(self.pubkey@.subrange(0, 32) == self.pubkey@);
    }

    /// Where each field of a decoded `RemoveContact` is read from in its frame: the
    /// frame layout, byte by byte.
    pub proof fn lemma_decoded_fields(b: Seq<u8>, v: Self)
        requires
            <Self as CompanionSer<'static>>::spec_decode_error(b) is None,
            <Self as CompanionSer<'static>>::spec_decoded(b, v),
        ensures
            v.pubkey@ == b.subrange(0, 32) ,
    {
    }
}

// ---------------------------------------------------------------------------

/// Shares a contact over the mesh, named by its public key.
pub struct ShareContact {
    pub pubkey: [u8; 32],
}

impl<'a> CompanionSer<'a> for ShareContact {
    open spec fn spec_wire(&self) -> Seq<u8> {
        self.pubkey@
    }

    open spec fn spec_decode_error(b: Seq<u8>) -> Option<DecodeError> {
        if b.len() < 32 {
            Some(DecodeError::UnexpectedEof)
        } else {
            None
        }
    }

    open spec fn spec_decoded(b: Seq<u8>, v: Self) -> bool {
        v.pubkey@ == b.subrange(0, 32)
    }

    fn ser_size(&self) -> (n: usize) {
        32
    }

    fn write_wire(&self, out: &mut Vec<u8>) {
        put_array(out, &self.pubkey);
    }

    fn companion_deserialize(input: &'a [u8]) -> (r: Result<Self, DecodeError>) {
        let mut rd = SliceReader::new(input);
        Ok(ShareContact { pubkey: rd.read_chunk::<32>()? })
    }
}

impl ShareContact {
    /// Decoding the bytes of a `ShareContact` gives it back.
    pub proof fn lemma_roundtrip(self)
        ensures
            <Self as CompanionSer<'static>>::spec_decode_error(self.spec_wire()) is None,
            <Self as CompanionSer<'static>>::spec_decoded(self.spec_wire(), self),
    {
        assert(self.pubkey@.subrange(0, 32) == self.pubkey@);
    }

    /// Where each field of a decoded `ShareContact` is read from in its frame: the
    /// frame layout, byte by byte.
    pub proof fn lemma_decoded_fields(b: Seq<u8>, v: Self)
        requires
            <Self as CompanionSer<'static>>::spec_decode_error(b) is None,
            <Self as CompanionSer<'static>>::spec_decoded(b, v),
        ensures
            v.pubkey@ == b.subrange(0, 32) ,
    {
    }
}

// ---------------------------------------------------------------------------

/// Exports a contact as an advert, or the node itself when no key is given.
pub struct ExportContact {
    pub pubkey: Option<[u8; 32]>,
}

impl<'a> CompanionSer<'a> for ExportContact {
    open spec fn spec_wire(&self) -> Seq<u8> {
        match self.pubkey {
            Some(k) => k@,
            None => Seq::empty(),
        }
    }

    open spec fn spec_decode_error(b: Seq<u8>) -> Option<DecodeError> {
        None
    }

    open spec fn spec_decoded(b: Seq<u8>, v: Self) -> bool {
        if b.len() >= 32 {
            v.pubkey matches Some(k) && k@ == b.subrange(0, 32)
        } else {
            v.pubkey is None
        }
    }

    fn ser_size(&self) -> (n: usize) {
        if self.pubkey.is_some() {
            32
        } else {
            0
        }
    }

    fn write_wire(&self, out: &mut Vec<u8>) {
        match &self.pubkey {
            Some(pubkey) => put_array(out, pubkey),
            None => {
                assert(out@ == out@ + Seq::<u8>::empty());
            },
        }
    }

    fn companion_deserialize(input: &'a [u8]) -> (r: Result<Self, DecodeError>) {
        let mut rd = SliceReader::new(input);
        let pubkey = match rd.read_chunk::<32>() {
            Ok(k) => Some(k),
            Err(_) => None,
        };
        Ok(ExportContact { pubkey })
    }
}

impl ExportContact {
    /// Decoding the bytes of an `ExportContact` gives it back.
    pub proof fn lemma_roundtrip(self)
        ensures
            <Self as CompanionSer<'static>>::spec_decode_error(self.spec_wire()) is None,
            <Self as CompanionSer<'static>>::spec_decoded(self.spec_wire(), self),
    {
        if let Some(k) = self.pubkey {
            assert(k@.subrange(0, 32) == k@);
        }
    }

    /// Where each field of a decoded `ExportContact` is read from in its frame: the
    /// frame layout, byte by byte.
    pub proof fn lemma_decoded_fields(b: Seq<u8>, v: Self)
        requires
            <Self as CompanionSer<'static>>::spec_decode_error(b) is None,
            <Self as CompanionSer<'static>>::spec_decoded(b, v),
        ensures
            b.len() >= 32 ==> (v.pubkey matches Some(k) && k@ == b.subrange(0, 32)),
            b.len() < 32 ==> v.pubkey is None,
    {
    }
}

// ---------------------------------------------------------------------------

/// Imports a contact from the bytes of an advert.
pub struct ImportContact<'a> {
    pub bytes: &'a [u8],
}

impl<'a> CompanionSer<'a> for ImportContact<'a> {
    open spec fn spec_wire(&self) -> Seq<u8> {
        self.bytes@
    }

    open spec fn spec_decode_error(b: Seq<u8>) -> Option<DecodeError> {
        None
    }

    open spec fn spec_decoded(b: Seq<u8>, v: Self) -> bool {
        v.bytes@ == b
    }

    fn ser_size(&self) -> (n: usize) {
        self.bytes.len()
    }

    fn write_wire(&self, out: &mut Vec<u8>) {
        put_slice(out, self.bytes);
    }

    fn companion_deserialize(input: &'a [u8]) -> (r: Result<Self, DecodeError>) {
        Ok(ImportContact { bytes: input })
    }
}

impl<'a> ImportContact<'a> {
    /// Decoding the bytes of an `ImportContact` gives it back.
    pub proof fn lemma_roundtrip(self)
        ensures
            <Self as CompanionSer<'a>>::spec_decode_error(self.spec_wire()) is None,
            <Self as CompanionSer<'a>>::spec_decoded(self.spec_wire(), self),
    {
    }

    /// Where each field of a decoded `ImportContact` is read from in its frame: the
    /// frame layout, byte by byte.
    pub proof fn lemma_decoded_fields(b: Seq<u8>, v: Self)
        requires
            <Self as CompanionSer<'a>>::spec_decode_error(b) is None,
            <Self as CompanionSer<'a>>::spec_decoded(b, v),
        ensures
            v.bytes@ == b ,
    {
    }
}

// ---------------------------------------------------------------------------

/// Asks for the device's info, telling it the app's protocol version.
pub struct DeviceQuery {
    pub app_target_ver: u8,
}

impl<'a> CompanionSer<'a> for DeviceQuery {
    open spec fn spec_wire(&self) -> Seq<u8> {
        seq![self.app_target_ver]
    }

    open spec fn spec_decode_error(b: Seq<u8>) -> Option<DecodeError> {
        if b.len() < 1 {
            Some(DecodeError::UnexpectedEof)
        } else {
            None
        }
    }

    open spec fn spec_decoded(b: Seq<u8>, v: Self) -> bool {
        v.app_target_ver == b[0]
    }

    fn ser_size(&self) -> (n: usize) {
        1
    }

    fn write_wire(&self, out: &mut Vec<u8>) {
        put_u8(out, self.app_target_ver);
    }

    fn companion_deserialize(input: &'a [u8]) -> (r: Result<Self, DecodeError>) {
        let mut rd = SliceReader::new(input);
        Ok(DeviceQuery { app_target_ver: rd.read_u8()? })
    }
}

impl DeviceQuery {
    /// Decoding the bytes of a `DeviceQuery` gives it back.
    pub proof fn lemma_roundtrip(self)
        ensures
            <Self as CompanionSer<'static>>::spec_decode_error(self.spec_wire()) is None,
            <Self as CompanionSer<'static>>::spec_decoded(self.spec_wire(), self),
    {
    }

    /// Where each field of a decoded `DeviceQuery` is read from in its frame: the
    /// frame layout, byte by byte.
    pub proof fn lemma_decoded_fields(b: Seq<u8>, v: Self)
        requires
            <Self as CompanionSer<'static>>::spec_decode_error(b) is None,
            <Self as CompanionSer<'static>>::spec_decoded(b, v),
        ensures
            v.app_target_ver == b[0] ,
    {
    }
}

// ---------------------------------------------------------------------------

/// Replaces the node's private key.
pub struct ImportPrivateKey {
    pub private_key: [u8; 32],
}

impl<'a> CompanionSer<'a> for ImportPrivateKey {
    open spec fn spec_wire(&self) -> Seq<u8> {
        self.private_key@
    }

    open spec fn spec_decode_error(b: Seq<u8>) -> Option<DecodeError> {
        if b.len() < 32 {
            Some(DecodeError::UnexpectedEof)
        } else {
            None
        }
    }

    open spec fn spec_decoded(b: Seq<u8>, v: Self) -> bool {
        v.private_key@ == b.subrange(0, 32)
    }

    fn ser_size(&self) -> (n: usize) {
        32
    }

    fn write_wire(&self, out: &mut Vec<u8>) {
        put_array(out, &self.private_key);
    }

    fn companion_deserialize(input: &'a [u8]) -> (r: Result<Self, DecodeError>) {
        let mut rd = SliceReader::new(input);
        Ok(ImportPrivateKey { private_key: rd.read_chunk::<32>()? })
    }
}

impl ImportPrivateKey {
    /// Decoding the bytes of a `ImportPrivateKey` gives it back.
    pub proof fn lemma_roundtrip(self)
        ensures
            <Self as CompanionSer<'static>>::spec_decode_error(self.spec_wire()) is None,
            <Self as CompanionSer<'static>>::spec_decoded(self.spec_wire(), self),
    {
        assert(self.private_key@.subrange(0, 32) == self.private_key@);
    }

    /// Where each field of a decoded `ImportPrivateKey` is read from in its frame: the
    /// frame layout, byte by byte.
    pub proof fn lemma_decoded_fields(b: Seq<u8>, v: Self)
        requires
            <Self as CompanionSer<'static>>::spec_decode_error(b) is None,
            <Self as CompanionSer<'static>>::spec_decoded(b, v),
        ensures
            v.private_key@ == b.subrange(0, 32) ,
    {
    }
}

// ---------------------------------------------------------------------------

/// Sends raw bytes along a given path.
pub struct SendRawData<'a> {
    pub path: Path,
    pub data: &'a [u8],
}

impl<'a> CompanionSer<'a> for SendRawData<'a> {
    open spec fn spec_wire(&self) -> Seq<u8> {
        spec_path_wire(self.path) + self.data@
    }

    open spec fn spec_serializable(&self) -> bool {
        self.path.spec_fits_header()
    }

    open spec fn spec_decode_error(b: Seq<u8>) -> Option<DecodeError> {
        spec_path_error(b, 0)
    }

    /// A path header with selector 3 has no defined reading.
    open spec fn spec_deserializable(b: Seq<u8>) -> bool {
        spec_path_header_known(b, 0)
    }

    open spec fn spec_decoded(b: Seq<u8>, v: Self) -> bool {
        &&& spec_path_at(b, 0, v.path)
        &&& v.data@ == tail(b, spec_path_span(b, 0))
    }

    fn ser_size(&self) -> (n: usize) {
        1 + self.path.byte_size() + self.data.len()
    }

    fn write_wire(&self, out: &mut Vec<u8>) {
        write_path(out, &self.path);
        put_slice(out, self.data);
    }

    fn companion_deserialize(input: &'a [u8]) -> (r: Result<Self, DecodeError>) {
        let mut rd = SliceReader::new(input);
        let path = read_path(&mut rd)?;
        Ok(SendRawData { path, data: rd.read_rest() })
    }
}

impl<'a> SendRawData<'a> {
    /// Decoding the bytes of a `SendRawData` whose path holds whole hops gives
    /// it back.
    pub proof fn lemma_roundtrip(self)
        requires
            self.path.spec_whole(),
            self.path.spec_fits_header(),
        ensures
            <Self as CompanionSer<'a>>::spec_decode_error(self.spec_wire()) is None,
            <Self as CompanionSer<'a>>::spec_decoded(self.spec_wire(), self),
    {
        let w = self.spec_wire();
        lemma_path_roundtrip(self.path, Seq::empty(), self.data@);
        assert(w == Seq::<u8>::empty() + spec_path_wire(self.path) + self.data@);
        assert(tail(w, 1 + self.path.bytes@.len() as int) == self.data@);
    }

    /// Where each field of a decoded `SendRawData` is read from in its frame: the
    /// frame layout, byte by byte.
    pub proof fn lemma_decoded_fields(b: Seq<u8>, v: Self)
        requires
            <Self as CompanionSer<'a>>::spec_decode_error(b) is None,
            <Self as CompanionSer<'a>>::spec_decoded(b, v),
        ensures
            spec_path_at(b, 0, v.path),
            v.data@ == tail(b, spec_path_span(b, 0)) ,
    {
    }
}

// ---------------------------------------------------------------------------

/// Logs in to a repeater or room server with a password.
pub struct SendLogin<'a> {
    pub pubkey: [u8; 32],
    pub password: &'a str,
}

impl<'a> CompanionSer<'a> for SendLogin<'a> {
    open spec fn spec_wire(&self) -> Seq<u8> {
        self.pubkey@ + str_bytes(self.password)
    }

    open spec fn spec_decode_error(b: Seq<u8>) -> Option<DecodeError> {
        if b.len() < 32 {
            Some(DecodeError::UnexpectedEof)
        } else if !valid_utf8(tail(b, 32)) {
            Some(DecodeError::InvalidUtf8)
        } else {
            None
        }
    }

    open spec fn spec_decoded(b: Seq<u8>, v: Self) -> bool {
        &&& v.pubkey@ == b.subrange(0, 32)
        &&& v.password@ == decode_utf8(tail(b, 32))
    }

    fn ser_size(&self) -> (n: usize) {
        32 + self.password.len()
    }

    fn write_wire(&self, out: &mut Vec<u8>) {
        put_array(out, &self.pubkey);
        put_str(out, self.password);
    }

    fn companion_deserialize(input: &'a [u8]) -> (r: Result<Self, DecodeError>) {
        let mut rd = SliceReader::new(input);
        let pubkey = rd.read_chunk::<32>()?;
        let password = read_utf8(rd.read_rest())?;
        Ok(SendLogin { pubkey, password })
    }
}

impl<'a> SendLogin<'a> {
    /// Decoding the bytes of a `SendLogin` gives it back.
    pub proof fn lemma_roundtrip(self)
        ensures
            <Self as CompanionSer<'a>>::spec_decode_error(self.spec_wire()) is None,
            <Self as CompanionSer<'a>>::spec_decoded(self.spec_wire(), self),
    {
        let w = self.spec_wire();
        lemma_utf8_roundtrip(self.password@);
        assert(w.subrange(0, 32) == self.pubkey@);
        assert(tail(w, 32) == str_bytes(self.password));
    }

    /// Where each field of a decoded `SendLogin` is read from in its frame: the
    /// frame layout, byte by byte.
    pub proof fn lemma_decoded_fields(b: Seq<u8>, v: Self)
        requires
            <Self as CompanionSer<'a>>::spec_decode_error(b) is None,
            <Self as CompanionSer<'a>>::spec_decoded(b, v),
        ensures
            v.pubkey@ == b.subrange(0, 32),
            v.password@ == decode_utf8(tail(b, 32)) ,
    {
    }
}

// ---------------------------------------------------------------------------

/// Asks a repeater or room server for its status, named by its public key.
pub struct SendStatusReq {
    pub pubkey: [u8; 32],
}

impl<'a> CompanionSer<'a> for SendStatusReq {
    open spec fn spec_wire(&self) -> Seq<u8> {
        self.pubkey@
    }

    open spec fn spec_decode_error(b: Seq<u8>) -> Option<DecodeError> {
        if b.len() < 32 {
            Some(DecodeError::UnexpectedEof)
        } else {
            None
        }
    }

    open spec fn spec_decoded(b: Seq<u8>, v: Self) -> bool {
        v.pubkey@ == b.subrange(0, 32)
    }

    fn ser_size(&self) -> (n: usize) {
        32
    }

    fn write_wire(&self, out: &mut Vec<u8>) {
        put_array(out, &self.pubkey);
    }

    fn companion_deserialize(input: &'a [u8]) -> (r: Result<Self, DecodeError>) {
        let mut rd = SliceReader::new(input);
        Ok(SendStatusReq { pubkey: rd.read_chunk::<32>()? })
    }
}

impl SendStatusReq {
    /// Decoding the bytes of a `SendStatusReq` gives it back.
    pub proof fn lemma_roundtrip(self)
        ensures
            <Self as CompanionSer<'static>>::spec_decode_error(self.spec_wire()) is None,
            <Self as CompanionSer<'static>>::spec_decoded(self.spec_wire(), self),
    {
        assert(self.pubkey@.subrange(0, 32) == self.pubkey@);
    }

    /// Where each field of a decoded `SendStatusReq` is read from in its frame: the
    /// frame layout, byte by byte.
    pub proof fn lemma_decoded_fields(b: Seq<u8>, v: Self)
        requires
            <Self as CompanionSer<'static>>::spec_decode_error(b) is None,
            <Self as CompanionSer<'static>>::spec_decoded(b, v),
        ensures
            v.pubkey@ == b.subrange(0, 32) ,
    {
    }
}

// ---------------------------------------------------------------------------

/// Asks a node for telemetry, named by its public key.
pub struct SendTelemetryReq {
    pub reserved: [u8; 3],
    pub pubkey: [u8; 32],
}

impl<'a> CompanionSer<'a> for SendTelemetryReq {
    open spec fn spec_wire(&self) -> Seq<u8> {
        self.reserved@ + self.pubkey@
    }

    open spec fn spec_decode_error(b: Seq<u8>) -> Option<DecodeError> {
        if b.len() < 35 {
            Some(DecodeError::UnexpectedEof)
        } else {
            None
        }
    }

    open spec fn spec_decoded(b: Seq<u8>, v: Self) -> bool {
        &&& v.reserved@ == b.subrange(0, 3)
        &&& v.pubkey@ == b.subrange(3, 35)
    }

    fn ser_size(&self) -> (n: usize) {
        3 + 32
    }

    fn write_wire(&self, out: &mut Vec<u8>) {
        put_array(out, &self.reserved);
        put_array(out, &self.pubkey);
    }

    fn companion_deserialize(input: &'a [u8]) -> (r: Result<Self, DecodeError>) {
        let mut rd = SliceReader::new(input);
        let reserved = rd.read_chunk::<3>()?;
        let pubkey = rd.read_chunk::<32>()?;
        Ok(SendTelemetryReq { reserved, pubkey })
    }
}

impl SendTelemetryReq {
    /// Decoding the bytes of a `SendTelemetryReq` gives it back.
    pub proof fn lemma_roundtrip(self)
        ensures
            <Self as CompanionSer<'static>>::spec_decode_error(self.spec_wire()) is None,
            <Self as CompanionSer<'static>>::spec_decoded(self.spec_wire(), self),
    {
        let w = self.spec_wire();
        assert(w.subrange(0, 3) == self.reserved@);
        assert(w.subrange(3, 35) == self.pubkey@);
    }

    /// Where each field of a decoded `SendTelemetryReq` is read from in its frame: the
    /// frame layout, byte by byte.
    pub proof fn lemma_decoded_fields(b: Seq<u8>, v: Self)
        requires
            <Self as CompanionSer<'static>>::spec_decode_error(b) is None,
            <Self as CompanionSer<'static>>::spec_decoded(b, v),
        ensures
            v.reserved@ == b.subrange(0, 3),
            v.pubkey@ == b.subrange(3, 35) ,
    {
    }
}

// ---------------------------------------------------------------------------

/// Sends a binary request to a node, named by its public key.
pub struct SendBinaryReq<'a> {
    pub pubkey: [u8; 32],
    pub req_code_params: &'a [u8],
}

impl<'a> CompanionSer<'a> for SendBinaryReq<'a> {
    open spec fn spec_wire(&self) -> Seq<u8> {
        self.pubkey@ + self.req_code_params@
    }

    open spec fn spec_decode_error(b: Seq<u8>) -> Option<DecodeError> {
        if b.len() < 32 {
            Some(DecodeError::UnexpectedEof)
        } else {
            None
        }
    }

    open spec fn spec_decoded(b: Seq<u8>, v: Self) -> bool {
        &&& v.pubkey@ == b.subrange(0, 32)
        &&& v.req_code_params@ == tail(b, 32)
    }

    fn ser_size(&self) -> (n: usize) {
        32 + self.req_code_params.len()
    }

    fn write_wire(&self, out: &mut Vec<u8>) {
        put_array(out, &self.pubkey);
        put_slice(out, self.req_code_params);
    }

    fn companion_deserialize(input: &'a [u8]) -> (r: Result<Self, DecodeError>) {
        let mut rd = SliceReader::new(input);
        let pubkey = rd.read_chunk::<32>()?;
        Ok(SendBinaryReq { pubkey, req_code_params: rd.read_rest() })
    }
}

impl<'a> SendBinaryReq<'a> {
    /// Decoding the bytes of a `SendBinaryReq` gives it back.
    pub proof fn lemma_roundtrip(self)
        ensures
            <Self as CompanionSer<'a>>::spec_decode_error(self.spec_wire()) is None,
            <Self as CompanionSer<'a>>::spec_decoded(self.spec_wire(), self),
    {
        let w = self.spec_wire();
        assert(w.subrange(0, 32) == self.pubkey@);
        assert(tail(w, 32) == self.req_code_params@);
    }

    /// Where each field of a decoded `SendBinaryReq` is read from in its frame: the
    /// frame layout, byte by byte.
    pub proof fn lemma_decoded_fields(b: Seq<u8>, v: Self)
        requires
            <Self as CompanionSer<'a>>::spec_decode_error(b) is None,
            <Self as CompanionSer<'a>>::spec_decoded(b, v),
        ensures
            v.pubkey@ == b.subrange(0, 32),
            v.req_code_params@ == tail(b, 32) ,
    {
    }
}

// ---------------------------------------------------------------------------

/// Sets the transport key that scopes flooded packets.
pub struct SetFloodScope<'a> {
    pub reserved: u8,
    pub transport_key: &'a [u8],
}

impl<'a> CompanionSer<'a> for SetFloodScope<'a> {
    open spec fn spec_wire(&self) -> Seq<u8> {
        seq![self.reserved] + self.transport_key@
    }

    open spec fn spec_decode_error(b: Seq<u8>) -> Option<DecodeError> {
        if b.len() < 1 {
            Some(DecodeError::UnexpectedEof)
        } else {
            None
        }
    }

    open spec fn spec_decoded(b: Seq<u8>, v: Self) -> bool {
        &&& v.reserved == b[0]
        &&& v.transport_key@ == tail(b, 1)
    }

    fn ser_size(&self) -> (n: usize) {
        1 + self.transport_key.len()
    }

    fn write_wire(&self, out: &mut Vec<u8>) {
        put_u8(out, self.reserved);
        put_slice(out, self.transport_key);
    }

    fn companion_deserialize(input: &'a [u8]) -> (r: Result<Self, DecodeError>) {
        let mut rd = SliceReader::new(input);
        let reserved = rd.read_u8()?;
        Ok(SetFloodScope { reserved, transport_key: rd.read_rest() })
    }
}

impl<'a> SetFloodScope<'a> {
    /// Decoding the bytes of a `SetFloodScope` gives it back.
    pub proof fn lemma_roundtrip(self)
        ensures
            <Self as CompanionSer<'a>>::spec_decode_error(self.spec_wire()) is None,
            <Self as CompanionSer<'a>>::spec_decoded(self.spec_wire(), self),
    {
        assert(tail(self.spec_wire(), 1) == self.transport_key@);
    }

    /// Where each field of a decoded `SetFloodScope` is read from in its frame: the
    /// frame layout, byte by byte.
    pub proof fn lemma_decoded_fields(b: Seq<u8>, v: Self)
        requires
            <Self as CompanionSer<'a>>::spec_decode_error(b) is None,
            <Self as CompanionSer<'a>>::spec_decoded(b, v),
        ensures
            v.reserved == b[0],
            v.transport_key@ == tail(b, 1) ,
    {
    }
}

// ---------------------------------------------------------------------------

/// Sends data of a given type on a channel, along a given path.
pub struct SendChannelData<'a> {
    pub channel_idx: u8,
    pub path: Path,
    pub data_type: u16,
    pub bytes: &'a [u8],
}

impl<'a> CompanionSer<'a> for SendChannelData<'a> {
    open spec fn spec_wire(&self) -> Seq<u8> {
        seq![self.channel_idx] + spec_path_wire(self.path) + u16_le(self.data_type) + self.bytes@
    }

    open spec fn spec_serializable(&self) -> bool {
        self.path.spec_fits_header()
    }

    /// The reported size leaves the path's bytes out.
    open spec fn spec_ser_size(&self) -> int {
        4 + self.bytes@.len() as int
    }

    /// A path header with selector 3 has no defined reading.
    open spec fn spec_deserializable(b: Seq<u8>) -> bool {
        spec_path_header_known(b, 1)
    }

    open spec fn spec_decode_error(b: Seq<u8>) -> Option<DecodeError> {
        if b.len() < 1 {
            Some(DecodeError::UnexpectedEof)
        } else if spec_path_error(b, 1) is Some {
            spec_path_error(b, 1)
        } else if b.len() - 1 - spec_path_span(b, 1) < 2 {
            Some(DecodeError::UnexpectedEof)
        } else {
            None
        }
    }

    open spec fn spec_decoded(b: Seq<u8>, v: Self) -> bool {
        let end = 1 + spec_path_span(b, 1);
        &&& v.channel_idx == b[0]
        &&& spec_path_at(b, 1, v.path)
        &&& v.data_type == u16_at(b, end)
        &&& v.bytes@ == tail(b, end + 2)
    }

    fn ser_size(&self) -> (n: usize) {
        1 + 1 + 2 + self.bytes.len()
    }

    fn write_wire(&self, out: &mut Vec<u8>) {
        put_u8(out, self.channel_idx);
        write_path(out, &self.path);
        put_u16_le(out, self.data_type);
        put_slice(out, self.bytes);
    }

    fn companion_deserialize(input: &'a [u8]) -> (r: Result<Self, DecodeError>) {
        let mut rd = SliceReader::new(input);
        let channel_idx = rd.read_u8()?;
        let path = read_path(&mut rd)?;
        let data_type = rd.read_u16_le()?;
        Ok(SendChannelData { channel_idx, path, data_type, bytes: rd.read_rest() })
    }
}

impl<'a> SendChannelData<'a> {
    /// Decoding the bytes of a `SendChannelData` whose path holds whole hops
    /// gives it back.
    pub proof fn lemma_roundtrip(self)
        requires
            self.path.spec_whole(),
            self.path.spec_fits_header(),
        ensures
            <Self as CompanionSer<'a>>::spec_decode_error(self.spec_wire()) is None,
            <Self as CompanionSer<'a>>::spec_decoded(self.spec_wire(), self),
    {
        let w = self.spec_wire();
        let rest = u16_le(self.data_type) + self.bytes@;
        lemma_path_roundtrip(self.path, seq![self.channel_idx], rest);
        assert(w == seq![self.channel_idx] + spec_path_wire(self.path) + rest);
        let end = 2 + self.path.bytes@.len() as int;
        lemma_u16_roundtrip(self.data_type, self.bytes@);
        assert(tail(w, end) == rest);
        assert(tail(w, end + 2) == self.bytes@);
    }

    /// Where each field of a decoded `SendChannelData` is read from in its frame: the
    /// frame layout, byte by byte.
    pub proof fn lemma_decoded_fields(b: Seq<u8>, v: Self)
        requires
            <Self as CompanionSer<'a>>::spec_decode_error(b) is None,
            <Self as CompanionSer<'a>>::spec_decoded(b, v),
        ensures
            ({
                let end = 1 + spec_path_span(b, 1);
                &&& v.channel_idx == b[0]
                &&& spec_path_at(b, 1, v.path)
                &&& v.data_type == u16_at(b, end)
                &&& v.bytes@ == tail(b, end + 2)
                
            }),
    {
    }

    /// The size it reports is the number of bytes written less the path's
    /// bytes.
    pub proof fn lemma_ser_size_leaves_out_path(self)
        requires
            self.path.spec_fits_header(),
        ensures
            self.spec_ser_size() == self.spec_wire().len() - self.path.bytes@.len(),
    {
    }
}

// ---------------------------------------------------------------------------

/// Asks for the settings of a channel.
pub struct GetChannel {
    pub idx: u8,
}

impl<'a> CompanionSer<'a> for GetChannel {
    open spec fn spec_wire(&self) -> Seq<u8> {
        seq![self.idx]
    }

    open spec fn spec_decode_error(b: Seq<u8>) -> Option<DecodeError> {
        if b.len() < 1 {
            Some(DecodeError::UnexpectedEof)
        } else {
            None
        }
    }

    open spec fn spec_decoded(b: Seq<u8>, v: Self) -> bool {
        v.idx == b[0]
    }

    fn ser_size(&self) -> (n: usize) {
        1
    }

    fn write_wire(&self, out: &mut Vec<u8>) {
        put_u8(out, self.idx);
    }

    fn companion_deserialize(input: &'a [u8]) -> (r: Result<Self, DecodeError>) {
        let mut rd = SliceReader::new(input);
        Ok(GetChannel { idx: rd.read_u8()? })
    }
}

impl GetChannel {
    /// Decoding the bytes of a `GetChannel` gives it back.
    pub proof fn lemma_roundtrip(self)
        ensures
            <Self as CompanionSer<'static>>::spec_decode_error(self.spec_wire()) is None,
            <Self as CompanionSer<'static>>::spec_decoded(self.spec_wire(), self),
    {
    }

    /// Where each field of a decoded `GetChannel` is read from in its frame: the
    /// frame layout, byte by byte.
    pub proof fn lemma_decoded_fields(b: Seq<u8>, v: Self)
        requires
            <Self as CompanionSer<'static>>::spec_decode_error(b) is None,
            <Self as CompanionSer<'static>>::spec_decoded(b, v),
        ensures
            v.idx == b[0] ,
    {
    }
}

// ---------------------------------------------------------------------------

/// Sets a channel's name and secret.
pub struct SetChannel<'a> {
    pub idx: u8,
    pub name: &'a str,
    pub secret: [u8; 16],
}

impl<'a> CompanionSer<'a> for SetChannel<'a> {
    open spec fn spec_wire(&self) -> Seq<u8> {
        seq![self.idx] + NullPaddedString::<'a, 32>(self.name).spec_encoded() + self.secret@
    }

    open spec fn spec_serializable(&self) -> bool {
        str_bytes(self.name).len() <= 32
    }

    open spec fn spec_ser_size(&self) -> int {
        49
    }

    open spec fn spec_decode_error(b: Seq<u8>) -> Option<DecodeError> {
        if b.len() < 1 {
            Some(DecodeError::UnexpectedEof)
        } else if NullPaddedString::<'a, 32>::spec_read_error(b, 1) is Some {
            NullPaddedString::<'a, 32>::spec_read_error(b, 1)
        } else if b.len() < 49 {
            Some(DecodeError::UnexpectedEof)
        } else {
            None
        }
    }

    open spec fn spec_decoded(b: Seq<u8>, v: Self) -> bool {
        &&& v.idx == b[0]
        &&& v.name@ == NullPaddedString::<'a, 32>::spec_read_text(b, 1)
        &&& v.secret@ == b.subrange(33, 49)
    }

    fn ser_size(&self) -> (n: usize) {
        1 + 32 + 16
    }

    fn write_wire(&self, out: &mut Vec<u8>) {
        put_u8(out, self.idx);
        NullPaddedString::<'_, 32>(self.name).encode_to(out);
        put_array(out, &self.secret);
    }

    fn companion_deserialize(input: &'a [u8]) -> (r: Result<Self, DecodeError>) {
        let mut rd = SliceReader::new(input);
        let idx = rd.read_u8()?;
        let NullPaddedString(name) = NullPaddedString::<'a, 32>::read(&mut rd)?;
        let secret = rd.read_chunk::<16>()?;
        Ok(SetChannel { idx, name, secret })
    }
}

impl<'a> SetChannel<'a> {
    /// Decoding the bytes of a `SetChannel` gives it back when its name fits
    /// the 32-byte field and holds no nil.
    pub proof fn lemma_roundtrip(self)
        requires
            str_bytes(self.name).len() <= 32,
            forall|j: int| 0 <= j < str_bytes(self.name).len() ==> str_bytes(self.name)[j] != 0,
        ensures
            <Self as CompanionSer<'a>>::spec_decode_error(self.spec_wire()) is None,
            <Self as CompanionSer<'a>>::spec_decoded(self.spec_wire(), self),
    {
        let w = self.spec_wire();
        let n = str_bytes(self.name);
        let pad = repeated(0, (32 - n.len()) as nat);
        lemma_trim_padded(n, (32 - n.len()) as nat);
        lemma_utf8_roundtrip(self.name@);
        assert(w.subrange(1, 33) == n + pad);
        assert(w.subrange(33, 49) == self.secret@);
    }

    /// Where each field of a decoded `SetChannel` is read from in its frame: the
    /// frame layout, byte by byte.
    pub proof fn lemma_decoded_fields(b: Seq<u8>, v: Self)
        requires
            <Self as CompanionSer<'a>>::spec_decode_error(b) is None,
            <Self as CompanionSer<'a>>::spec_decoded(b, v),
        ensures
            v.idx == b[0],
            v.name@ == NullPaddedString::<'a, 32>::spec_read_text(b, 1),
            v.secret@ == b.subrange(33, 49) ,
    {
    }
}

// ---------------------------------------------------------------------------

/// Data to be signed, sent between a sign start and a sign finish.
pub struct SignData<'a>(pub &'a [u8]);

impl<'a> CompanionSer<'a> for SignData<'a> {
    open spec fn spec_wire(&self) -> Seq<u8> {
        self.0@
    }

    open spec fn spec_decode_error(b: Seq<u8>) -> Option<DecodeError> {
        None
    }

    open spec fn spec_decoded(b: Seq<u8>, v: Self) -> bool {
        v.0@ == b
    }

    fn ser_size(&self) -> (n: usize) {
        self.0.len()
    }

    fn write_wire(&self, out: &mut Vec<u8>) {
        put_slice(out, self.0);
    }

    fn companion_deserialize(input: &'a [u8]) -> (r: Result<Self, DecodeError>) {
        Ok(SignData(input))
    }
}

impl<'a> SignData<'a> {
    /// Decoding the bytes of a `SignData` gives it back.
    pub proof fn lemma_roundtrip(self)
        ensures
            <Self as CompanionSer<'a>>::spec_decode_error(self.spec_wire()) is None,
            <Self as CompanionSer<'a>>::spec_decoded(self.spec_wire(), self),
    {
    }

    /// Where each field of a decoded `SignData` is read from in its frame: the
    /// frame layout, byte by byte.
    pub proof fn lemma_decoded_fields(b: Seq<u8>, v: Self)
        requires
            <Self as CompanionSer<'a>>::spec_decode_error(b) is None,
            <Self as CompanionSer<'a>>::spec_decoded(b, v),
        ensures
            v.0@ == b ,
    {
    }
}

// ---------------------------------------------------------------------------

/// Sends a trace packet along a path; the low two bits of `flags` select the
/// path's hash size.
pub struct SendTracePath {
    pub tag: [u8; 4],
    pub auth: [u8; 4],
    pub flags: u8,
    pub path: Path,
}

impl<'a> CompanionSer<'a> for SendTracePath {
    open spec fn spec_wire(&self) -> Seq<u8> {
        self.tag@ + self.auth@ + seq![self.flags] + self.path.bytes@
    }

    /// The reported size counts one byte per hop, whatever the hash size.
    open spec fn spec_ser_size(&self) -> int {
        9 + self.path.spec_len() as int
    }

    open spec fn spec_decode_error(b: Seq<u8>) -> Option<DecodeError> {
        if b.len() < 9 {
            Some(DecodeError::UnexpectedEof)
        } else if PathHashMode::spec_from_bits(b[8] & 0x03) is None {
            Some(DecodeError::InvalidBitPattern)
        } else {
            None
        }
    }

    open spec fn spec_decoded(b: Seq<u8>, v: Self) -> bool {
        &&& v.tag@ == b.subrange(0, 4)
        &&& v.auth@ == b.subrange(4, 8)
        &&& v.flags == b[8]
        &&& PathHashMode::spec_from_bits(b[8] & 0x03) == Some(v.path.mode)
        &&& v.path.bytes@ == tail(b, 9)
    }

    fn ser_size(&self) -> (n: usize) {
        4 + 4 + 1 + self.path.len()
    }

    fn write_wire(&self, out: &mut Vec<u8>) {
        put_array(out, &self.tag);
        put_array(out, &self.auth);
        put_u8(out, self.flags);
        put_slice(out, self.path.raw_bytes());
    }

    fn companion_deserialize(input: &'a [u8]) -> (r: Result<Self, DecodeError>) {
        let mut rd = SliceReader::new(input);
        let tag = rd.read_chunk::<4>()?;
        let auth = rd.read_chunk::<4>()?;
        let flags = rd.read_u8()?;
        let mode = PathHashMode::from_bits(flags & 0x03)?;
        Ok(SendTracePath { tag, auth, flags, path: Path::from_bytes(mode, rd.read_rest()) })
    }
}

impl SendTracePath {
    /// Decoding the bytes of a `SendTracePath` gives it back when the low two
    /// bits of its flags select its path's hash size.
    pub proof fn lemma_roundtrip(self)
        requires
            self.flags & 0x03 == self.path.mode.spec_bits(),
        ensures
            <Self as CompanionSer<'static>>::spec_decode_error(self.spec_wire()) is None,
            <Self as CompanionSer<'static>>::spec_decoded(self.spec_wire(), self),
    {
        let w = self.spec_wire();
        assert(w.subrange(0, 4) == self.tag@);
        assert(w.subrange(4, 8) == self.auth@);
        assert(w[8] == self.flags);
        assert(tail(w, 9) == self.path.bytes@);
    }

    /// Where each field of a decoded `SendTracePath` is read from in its frame: the
    /// frame layout, byte by byte.
    pub proof fn lemma_decoded_fields(b: Seq<u8>, v: Self)
        requires
            <Self as CompanionSer<'static>>::spec_decode_error(b) is None,
            <Self as CompanionSer<'static>>::spec_decoded(b, v),
        ensures
            v.tag@ == b.subrange(0, 4),
            v.auth@ == b.subrange(4, 8),
            v.flags == b[8],
            PathHashMode::spec_from_bits(b[8] & 0x03) == Some(v.path.mode),
            v.path.bytes@ == tail(b, 9) ,
    {
    }

    /// The size it reports is the number of bytes written with the path
    /// counted as one byte per hop.
    pub proof fn lemma_ser_size_counts_hops(self)
        ensures
            self.spec_ser_size() == self.spec_wire().len() - self.path.bytes@.len()
                + self.path.spec_len(),
    {
    }
}

// ---------------------------------------------------------------------------

/// Sends an anonymous request to a node, named by its public key.
pub struct SendAnonReq<'a> {
    pub pubkey: [u8; 32],
    pub data: &'a [u8],
}

impl<'a> CompanionSer<'a> for SendAnonReq<'a> {
    open spec fn spec_wire(&self) -> Seq<u8> {
        self.pubkey@ + self.data@
    }

    open spec fn spec_decode_error(b: Seq<u8>) -> Option<DecodeError> {
        if b.len() < 32 {
            Some(DecodeError::UnexpectedEof)
        } else {
            None
        }
    }

    open spec fn spec_decoded(b: Seq<u8>, v: Self) -> bool {
        &&& v.pubkey@ == b.subrange(0, 32)
        &&& v.data@ == tail(b, 32)
    }

    fn ser_size(&self) -> (n: usize) {
        32 + self.data.len()
    }

    fn write_wire(&self, out: &mut Vec<u8>) {
        put_array(out, &self.pubkey);
        put_slice(out, self.data);
    }

    fn companion_deserialize(input: &'a [u8]) -> (r: Result<Self, DecodeError>) {
        let mut rd = SliceReader::new(input);
        let pubkey = rd.read_chunk::<32>()?;
        Ok(SendAnonReq { pubkey, data: rd.read_rest() })
    }
}

impl<'a> SendAnonReq<'a> {
    /// Decoding the bytes of a `SendAnonReq` gives it back.
    pub proof fn lemma_roundtrip(self)
        ensures
            <Self as CompanionSer<'a>>::spec_decode_error(self.spec_wire()) is None,
            <Self as CompanionSer<'a>>::spec_decoded(self.spec_wire(), self),
    {
        let w = self.spec_wire();
        assert(w.subrange(0, 32) == self.pubkey@);
        assert(tail(w, 32) == self.data@);
    }

    /// Where each field of a decoded `SendAnonReq` is read from in its frame: the
    /// frame layout, byte by byte.
    pub proof fn lemma_decoded_fields(b: Seq<u8>, v: Self)
        requires
            <Self as CompanionSer<'a>>::spec_decode_error(b) is None,
            <Self as CompanionSer<'a>>::spec_decoded(b, v),
        ensures
            v.pubkey@ == b.subrange(0, 32),
            v.data@ == tail(b, 32) ,
    {
    }
}

// ---------------------------------------------------------------------------

/// Sets a custom variable, written as `key:value`.
pub struct SetCustomVar<'a> {
    pub key: &'a str,
    pub value: &'a str,
}

impl<'a> CompanionSer<'a> for SetCustomVar<'a> {
    open spec fn spec_wire(&self) -> Seq<u8> {
        str_bytes(self.key) + seq![0x3au8] + str_bytes(self.value)
    }

    open spec fn spec_decode_error(b: Seq<u8>) -> Option<DecodeError> {
        if !valid_utf8(b) {
            Some(DecodeError::InvalidUtf8)
        } else if spec_index_of(b, 0x3a) == b.len() {
            Some(DecodeError::InvalidBitPattern)
        } else {
            None
        }
    }

    open spec fn spec_decoded(b: Seq<u8>, v: Self) -> bool {
        let i = spec_index_of(b, 0x3a) as int;
        &&& v.key@ == decode_utf8(b.subrange(0, i))
        &&& v.value@ == decode_utf8(tail(b, i + 1))
    }

    fn ser_size(&self) -> (n: usize) {
        self.key.len() + 1 + self.value.len()
    }

    fn write_wire(&self, out: &mut Vec<u8>) {
        put_str(out, self.key);
        put_u8(out, 0x3a);
        put_str(out, self.value);
    }

    fn companion_deserialize(input: &'a [u8]) -> (r: Result<Self, DecodeError>) {
        let _text = read_utf8(input)?;
        let i = match find_byte(0x3a, input) {
            Some(i) => i,
            None => return Err(DecodeError::InvalidBitPattern),
        };
        proof {
            lemma_utf8_split_at_ascii(input@, i as int);
        }
        let n = input.len();
        assert(i < n);
        let key = read_utf8(&input[0..i])?;
        let value = read_utf8(&input[i + 1..n])?;
        Ok(SetCustomVar { key, value })
    }
}

impl<'a> SetCustomVar<'a> {
    /// Decoding the bytes of a `SetCustomVar` gives it back when the key holds
    /// no `:`.
    pub proof fn lemma_roundtrip(self)
        requires
            forall|j: int| 0 <= j < str_bytes(self.key).len() ==> str_bytes(self.key)[j] != 0x3a,
        ensures
            <Self as CompanionSer<'a>>::spec_decode_error(self.spec_wire()) is None,
            <Self as CompanionSer<'a>>::spec_decoded(self.spec_wire(), self),
    {
        let w = self.spec_wire();
        let k = str_bytes(self.key);
        let v = str_bytes(self.value);
        lemma_utf8_roundtrip(self.key@);
        lemma_utf8_roundtrip(self.value@);
        lemma_utf8_ascii_byte(0x3a);
        valid_utf8_concat(k, seq![0x3au8]);
        valid_utf8_concat(k + seq![0x3au8], v);
        lemma_index_of(w, 0x3a, k.len() as int);
        assert(w.subrange(0, k.len() as int) == k);
        assert(tail(w, k.len() as int + 1) == v);
    }

    /// Where each field of a decoded `SetCustomVar` is read from in its frame: the
    /// frame layout, byte by byte.
    pub proof fn lemma_decoded_fields(b: Seq<u8>, v: Self)
        requires
            <Self as CompanionSer<'a>>::spec_decode_error(b) is None,
            <Self as CompanionSer<'a>>::spec_decoded(b, v),
        ensures
            ({
                let i = spec_index_of(b, 0x3a) as int;
                &&& v.key@ == decode_utf8(b.subrange(0, i))
                &&& v.value@ == decode_utf8(tail(b, i + 1))
                
            }),
    {
    }
}

// ---------------------------------------------------------------------------

/// Asks for one kind of statistics.
pub struct GetStats {
    pub stats_type: StatTypes,
}

impl<'a> CompanionSer<'a> for GetStats {
    open spec fn spec_wire(&self) -> Seq<u8> {
        seq![self.stats_type.spec_code()]
    }

    open spec fn spec_decode_error(b: Seq<u8>) -> Option<DecodeError> {
        if b.len() < 1 {
            Some(DecodeError::UnexpectedEof)
        } else if StatTypes::spec_from_repr(b[0]) is None {
            Some(DecodeError::InvalidBitPattern)
        } else {
            None
        }
    }

    open spec fn spec_decoded(b: Seq<u8>, v: Self) -> bool {
        StatTypes::spec_from_repr(b[0]) == Some(v.stats_type)
    }

    fn ser_size(&self) -> (n: usize) {
        1
    }

    fn write_wire(&self, out: &mut Vec<u8>) {
        put_u8(out, self.stats_type.code());
    }

    fn companion_deserialize(input: &'a [u8]) -> (r: Result<Self, DecodeError>) {
        let mut rd = SliceReader::new(input);
        match StatTypes::from_repr(rd.read_u8()?) {
            Some(stats_type) => Ok(GetStats { stats_type }),
            None => Err(DecodeError::InvalidBitPattern),
        }
    }
}

impl GetStats {
    /// Decoding the bytes of a `GetStats` gives it back.
    pub proof fn lemma_roundtrip(self)
        ensures
            <Self as CompanionSer<'static>>::spec_decode_error(self.spec_wire()) is None,
            <Self as CompanionSer<'static>>::spec_decoded(self.spec_wire(), self),
    {
    }

    /// Where each field of a decoded `GetStats` is read from in its frame: the
    /// frame layout, byte by byte.
    pub proof fn lemma_decoded_fields(b: Seq<u8>, v: Self)
        requires
            <Self as CompanionSer<'static>>::spec_decode_error(b) is None,
            <Self as CompanionSer<'static>>::spec_decoded(b, v),
        ensures
            StatTypes::spec_from_repr(b[0]) == Some(v.stats_type) ,
    {
    }
}

// ---------------------------------------------------------------------------

/// Adds a contact, or updates the stored one with the same key.
pub struct AddUpdateContact(pub Contact);

/// The path part of an add-or-update frame: the path behind its header, or a
/// zero header when there is no path.
pub open spec fn spec_optional_path_wire(p: Option<Path>) -> Seq<u8> {
    match p {
        Some(p) => spec_path_wire(p),
        None => seq![0u8],
    }
}

impl<'a> CompanionSer<'a> for AddUpdateContact {
    open spec fn spec_wire(&self) -> Seq<u8> {
        self.0.key@ + seq![spec_adv_type(self.0.flags), self.0.flags] + spec_optional_path_wire(
            self.0.path_to,
        ) + spec_name_field(&self.0.name) + u32_le(self.0.last_heard) + u32_le(self.0.latitude)
            + u32_le(self.0.longitude)
    }

    /// The flags are all known, the name fits 32 bytes and a path fits its
    /// header.
    open spec fn spec_serializable(&self) -> bool {
        &&& spec_known_flags(self.0.flags)
        &&& string_bytes(&self.0.name).len() <= 32
        &&& self.0.path_to matches Some(p) ==> p.spec_fits_header()
    }

    /// A path header with selector 3 has no defined reading.
    open spec fn spec_deserializable(b: Seq<u8>) -> bool {
        spec_path_header_known(b, 34)
    }

    open spec fn spec_decode_error(b: Seq<u8>) -> Option<DecodeError> {
        if b.len() < 35 {
            Some(DecodeError::UnexpectedEof)
        } else {
            match PathLen::spec_from_byte(b[34]) {
                None => Some(DecodeError::InvalidBitPattern),
                Some(h) => {
                    let at = 35 + h.spec_byte_size() as int;
                    if b.len() < at {
                        Some(DecodeError::UnexpectedEof)
                    } else if NullPaddedString::<'a, 32>::spec_read_error(b, at) is Some {
                        NullPaddedString::<'a, 32>::spec_read_error(b, at)
                    } else if b.len() < at + 44 {
                        Some(DecodeError::UnexpectedEof)
                    } else {
                        None
                    }
                },
            }
        }
    }

    open spec fn spec_decoded(b: Seq<u8>, v: Self) -> bool {
        let h = PathLen::spec_from_byte(b[34])->Some_0;
        let at = 35 + h.spec_byte_size() as int;
        &&& v.0.key@ == b.subrange(0, 32)
        &&& v.0.flags == b[33]
        &&& if h.spec_byte_size() > 0 {
            v.0.path_to matches Some(p) && p.mode == h.mode && p.bytes@ == b.subrange(35, at)
        } else {
            v.0.path_to is None
        }
        &&& v.0.name@ == NullPaddedString::<'a, 32>::spec_read_text(b, at)
        &&& v.0.last_heard == u32_at(b, at + 32)
        &&& v.0.latitude == u32_at(b, at + 36)
        &&& v.0.longitude == u32_at(b, at + 40)
    }

    /// The size counts the path's bytes and 32 bytes for the name.
    open spec fn spec_ser_size(&self) -> int {
        79 + match self.0.path_to {
            Some(p) => p.bytes@.len() as int,
            None => 0,
        }
    }

    fn ser_size(&self) -> (n: usize) {
        let path_size: usize = match &self.0.path_to {
            Some(p) => p.byte_size(),
            None => 0,
        };
        32 + 1 + 1 + 1 + path_size + 32 + 4 + 4 + 4
    }

    fn write_wire(&self, out: &mut Vec<u8>) {
        let c = &self.0;
        put_array(out, &c.key);
        put_u8(out, adv_type(c.flags));
        put_u8(out, c.flags);
        match &c.path_to {
            Some(path) => write_path(out, path),
            None => put_u8(out, 0),
        }
        NullPaddedString::<'_, 32>(c.name.as_str()).encode_to(out);
        put_u32_le(out, c.last_heard);
        put_u32_le(out, c.latitude);
        put_u32_le(out, c.longitude);
    }

    fn companion_deserialize(input: &'a [u8]) -> (r: Result<Self, DecodeError>) {
        let mut rd = SliceReader::new(input);
        let key = rd.read_chunk::<32>()?;
        let _ty = rd.read_u8()?;
        let flags = rd.read_u8()?;
        let header = PathLen::from_byte(rd.read_u8()?)?;
        let path_to = if header.byte_size() > 0 {
            Some(Path::from_bytes(header.mode, rd.read_slice(header.byte_size())?))
        } else {
            None
        };
        let name = NullPaddedString::<'a, 32>::read(&mut rd)?;
        let last_heard = rd.read_u32_le()?;
        let latitude = rd.read_u32_le()?;
        let longitude = rd.read_u32_le()?;
        Ok(
            AddUpdateContact(
                Contact {
                    key,
                    name: name.0.to_owned(),
                    path_to,
                    flags,
                    latitude,
                    longitude,
                    last_heard,
                },
            ),
        )
    }
}

impl AddUpdateContact {
    /// Decoding the bytes of an `AddUpdateContact` gives it back when its name
    /// fits the 32-byte field and holds no nil, and its path, if any, holds at
    /// least one whole hop.
    pub proof fn lemma_roundtrip(self)
        requires
            string_bytes(&self.0.name).len() <= 32,
            forall|j: int|
                0 <= j < string_bytes(&self.0.name).len() ==> string_bytes(&self.0.name)[j] != 0,
            self.0.path_to matches Some(p) ==> p.spec_whole() && p.spec_fits_header()
                && p.bytes@.len() > 0,
        ensures
            <Self as CompanionSer<'static>>::spec_decode_error(self.spec_wire()) is None,
            <Self as CompanionSer<'static>>::spec_decoded(self.spec_wire(), self),
    {
        let c = self.0;
        let w = self.spec_wire();
        let n = string_bytes(&c.name);
        lemma_trim_padded(n, (32 - n.len()) as nat);
        lemma_utf8_roundtrip(c.name@);
        let front = c.key@ + seq![spec_adv_type(c.flags), c.flags];
        let rest = spec_name_field(&c.name) + u32_le(c.last_heard) + u32_le(c.latitude) + u32_le(
            c.longitude,
        );
        assert(w == front + spec_optional_path_wire(c.path_to) + rest);
        let at: int = match c.path_to {
            Some(p) => {
                lemma_path_roundtrip(p, front, rest);
                assert(35 + PathLen::spec_from_byte(w[34])->Some_0.spec_byte_size() == 35
                    + p.bytes@.len());
                35 + p.bytes@.len() as int
            },
            None => {
                assert(w[34] == 0);
                assert(PathLen::spec_from_byte(0) == Some(
                    PathLen { hash_count: 0, mode: PathHashMode::OneByte },
                ));
                assert(PathLen { hash_count: 0, mode: PathHashMode::OneByte }.spec_byte_size()
                    == 0);
                35
            },
        };
        assert(w.subrange(0, 32) == c.key@);
        assert(tail(w, at) == rest);
        assert(w.subrange(at, at + 32) == spec_name_field(&c.name));
        lemma_u32_roundtrip(c.last_heard, tail(w, at + 36));
        assert(tail(w, at + 32) == u32_le(c.last_heard) + tail(w, at + 36));
        lemma_u32_roundtrip(c.latitude, tail(w, at + 40));
        assert(tail(w, at + 36) == u32_le(c.latitude) + tail(w, at + 40));
        lemma_u32_roundtrip(c.longitude, Seq::empty());
        assert(tail(w, at + 40) == u32_le(c.longitude) + Seq::<u8>::empty());
        assert(w.len() == at + 44);
    }

    /// Where each field of a decoded add-or-update frame is read from: the
    /// key at 0..32, the flags at 33, the path header at 34 and the `n` path
    /// bytes it announces behind it; then the padded name at 35 + n, and the
    /// last-heard time, latitude and longitude at 67 + n, 71 + n and 75 + n.
    pub proof fn lemma_decoded_fields(b: Seq<u8>, v: Self)
        requires
            <Self as CompanionSer<'static>>::spec_decode_error(b) is None,
            <Self as CompanionSer<'static>>::spec_decoded(b, v),
        ensures
            PathLen::spec_from_byte(b[34]) is Some,
            ({
                let n = PathLen::spec_from_byte(b[34])->Some_0.spec_byte_size() as int;
                &&& b.len() >= 79 + n
                &&& v.0.key@ == b.subrange(0, 32)
                &&& v.0.flags == b[33]
                &&& n == 0 ==> v.0.path_to is None
                &&& n > 0 ==> (v.0.path_to matches Some(p) && p.bytes@ == b.subrange(35, 35 + n))
                &&& v.0.name@ == decode_utf8(spec_trim_nils(b.subrange(35 + n, 67 + n)))
                &&& v.0.last_heard == u32_at(b, 67 + n)
                &&& v.0.latitude == u32_at(b, 71 + n)
                &&& v.0.longitude == u32_at(b, 75 + n)
            }),
    {
    }

    /// Where each field is written: the key at 0..32, advert type and flags
    /// at 32 and 33, the path header at 34 (0 without a path) and the path's
    /// `n` bytes behind it, the padded name at 35 + n, then the last-heard
    /// time, latitude and longitude at 67 + n, 71 + n and 75 + n.
    pub proof fn lemma_written_fields(self)
        requires
            self.spec_serializable(),
        ensures
            ({
                let w = self.spec_wire();
                let n: int = match self.0.path_to {
                    Some(p) => p.bytes@.len() as int,
                    None => 0,
                };
                &&& w.len() == 79 + n
                &&& w.subrange(0, 32) == self.0.key@
                &&& w[32] == spec_adv_type(self.0.flags)
                &&& w[33] == self.0.flags
                &&& self.0.path_to is None ==> w[34] == 0
                &&& self.0.path_to matches Some(p) ==> w[34] == p.spec_header().spec_byte()
                    && w.subrange(35, 35 + n) == p.bytes@
                &&& w.subrange(35 + n, 67 + n) == spec_name_field(&self.0.name)
                &&& u32_at(w, 67 + n) == self.0.last_heard
                &&& u32_at(w, 71 + n) == self.0.latitude
                &&& u32_at(w, 75 + n) == self.0.longitude
            }),
    {
        let c = self.0;
        let w = self.spec_wire();
        let n: int = match c.path_to {
            Some(p) => p.bytes@.len() as int,
            None => 0,
        };
        let front = c.key@ + seq![spec_adv_type(c.flags), c.flags];
        let rest = spec_name_field(&c.name) + u32_le(c.last_heard) + u32_le(c.latitude) + u32_le(
            c.longitude,
        );
        assert(w == front + spec_optional_path_wire(c.path_to) + rest);
        match c.path_to {
            Some(p) => {
                assert(w.subrange(35, 35 + n) == p.bytes@);
            },
            None => {},
        }
        assert(w.subrange(0, 32) == c.key@);
        assert(tail(w, 35 + n) == rest);
        assert(w.subrange(35 + n, 67 + n) == spec_name_field(&c.name));
        lemma_u32_roundtrip(c.last_heard, tail(w, 71 + n));
        assert(tail(w, 67 + n) == u32_le(c.last_heard) + tail(w, 71 + n));
        lemma_u32_roundtrip(c.latitude, tail(w, 75 + n));
        assert(tail(w, 71 + n) == u32_le(c.latitude) + tail(w, 75 + n));
        lemma_u32_roundtrip(c.longitude, Seq::empty());
        assert(tail(w, 75 + n) == u32_le(c.longitude) + Seq::<u8>::empty());
    }
}

// ---------------------------------------------------------------------------

/// The kind of a host command, without its fields.
#[derive(Clone, Copy, Debug, PartialEq, Eq, Structural)]
pub enum HostCommandType {
    AppStart,
    SendTxtMsg,
    SendChannelTxtMsg,
    GetContacts,
    GetDeviceTime,
    SetDeviceTime,
    SendSelfAdvert,
    SetAdvertName,
    AddUpdateContact,
    SyncNextMessage,
    SetRadioParams,
    SetTxPower,
    ResetPath,
    SetAdvertLatLon,
    RemoveContact,
    ShareContact,
    ExportContact,
    ImportContact,
    Reboot,
    GetBatteryVoltage,
    SetTuningParams,
    DeviceQuery,
    ExportPrivateKey,
    ImportPrivateKey,
    SendRawData,
    SendLogin,
    SendStatusReq,
    GetChannel,
    SetChannel,
    SignStart,
    SignData,
    SignFinish,
    SendTracePath,
    SetOtherParams,
    SendTelemetryReq,
    SendBinaryReq,
    SetFloodScope,
    GetCustomVars,
    SetCustomVar,
    SendControlData,
    GetStats,
    SendAnonReq,
}

impl HostCommandType {
    /// The byte of each command kind.
    pub open spec fn spec_code(self) -> u8 {
        match self {
            HostCommandType::AppStart => 1,
            HostCommandType::SendTxtMsg => 2,
            HostCommandType::SendChannelTxtMsg => 3,
            HostCommandType::GetContacts => 4,
            HostCommandType::GetDeviceTime => 5,
            HostCommandType::SetDeviceTime => 6,
            HostCommandType::SendSelfAdvert => 7,
            HostCommandType::SetAdvertName => 8,
            HostCommandType::AddUpdateContact => 9,
            HostCommandType::SyncNextMessage => 10,
            HostCommandType::SetRadioParams => 11,
            HostCommandType::SetTxPower => 12,
            HostCommandType::ResetPath => 13,
            HostCommandType::SetAdvertLatLon => 14,
            HostCommandType::RemoveContact => 15,
            HostCommandType::ShareContact => 16,
            HostCommandType::ExportContact => 17,
            HostCommandType::ImportContact => 18,
            HostCommandType::Reboot => 19,
            HostCommandType::GetBatteryVoltage => 20,
            HostCommandType::SetTuningParams => 21,
            HostCommandType::DeviceQuery => 22,
            HostCommandType::ExportPrivateKey => 23,
            HostCommandType::ImportPrivateKey => 24,
            HostCommandType::SendRawData => 25,
            HostCommandType::SendLogin => 26,
            HostCommandType::SendStatusReq => 27,
            HostCommandType::GetChannel => 31,
            HostCommandType::SetChannel => 32,
            HostCommandType::SignStart => 33,
            HostCommandType::SignData => 34,
            HostCommandType::SignFinish => 35,
            HostCommandType::SendTracePath => 36,
            HostCommandType::SetOtherParams => 38,
            HostCommandType::SendTelemetryReq => 39,
            HostCommandType::SendBinaryReq => 50,
            HostCommandType::SetFloodScope => 54,
            HostCommandType::GetCustomVars => 40,
            HostCommandType::SetCustomVar => 41,
            HostCommandType::SendControlData => 55,
            HostCommandType::GetStats => 56,
            HostCommandType::SendAnonReq => 57,
        }
    }

    /// The command kind whose byte is `b`, if any.
    pub open spec fn spec_from_repr(b: u8) -> Option<HostCommandType> {
        if b == 1 {
            Some(HostCommandType::AppStart)
        } else if b == 2 {
            Some(HostCommandType::SendTxtMsg)
        } else if b == 3 {
            Some(HostCommandType::SendChannelTxtMsg)
        } else if b == 4 {
            Some(HostCommandType::GetContacts)
        } else if b == 5 {
            Some(HostCommandType::GetDeviceTime)
        } else if b == 6 {
            Some(HostCommandType::SetDeviceTime)
        } else if b == 7 {
            Some(HostCommandType::SendSelfAdvert)
        } else if b == 8 {
            Some(HostCommandType::SetAdvertName)
        } else if b == 9 {
            Some(HostCommandType::AddUpdateContact)
        } else if b == 10 {
            Some(HostCommandType::SyncNextMessage)
        } else if b == 11 {
            Some(HostCommandType::SetRadioParams)
        } else if b == 12 {
            Some(HostCommandType::SetTxPower)
        } else if b == 13 {
            Some(HostCommandType::ResetPath)
        } else if b == 14 {
            Some(HostCommandType::SetAdvertLatLon)
        } else if b == 15 {
            Some(HostCommandType::RemoveContact)
        } else if b == 16 {
            Some(HostCommandType::ShareContact)
        } else if b == 17 {
            Some(HostCommandType::ExportContact)
        } else if b == 18 {
            Some(HostCommandType::ImportContact)
        } else if b == 19 {
            Some(HostCommandType::Reboot)
        } else if b == 20 {
            Some(HostCommandType::GetBatteryVoltage)
        } else if b == 21 {
            Some(HostCommandType::SetTuningParams)
        } else if b == 22 {
            Some(HostCommandType::DeviceQuery)
        } else if b == 23 {
            Some(HostCommandType::ExportPrivateKey)
        } else if b == 24 {
            Some(HostCommandType::ImportPrivateKey)
        } else if b == 25 {
            Some(HostCommandType::SendRawData)
        } else if b == 26 {
            Some(HostCommandType::SendLogin)
        } else if b == 27 {
            Some(HostCommandType::SendStatusReq)
        } else if b == 31 {
            Some(HostCommandType::GetChannel)
        } else if b == 32 {
            Some(HostCommandType::SetChannel)
        } else if b == 33 {
            Some(HostCommandType::SignStart)
        } else if b == 34 {
            Some(HostCommandType::SignData)
        } else if b == 35 {
            Some(HostCommandType::SignFinish)
        } else if b == 36 {
            Some(HostCommandType::SendTracePath)
        } else if b == 38 {
            Some(HostCommandType::SetOtherParams)
        } else if b == 39 {
            Some(HostCommandType::SendTelemetryReq)
        } else if b == 50 {
            Some(HostCommandType::SendBinaryReq)
        } else if b == 54 {
            Some(HostCommandType::SetFloodScope)
        } else if b == 40 {
            Some(HostCommandType::GetCustomVars)
        } else if b == 41 {
            Some(HostCommandType::SetCustomVar)
        } else if b == 55 {
            Some(HostCommandType::SendControlData)
        } else if b == 56 {
            Some(HostCommandType::GetStats)
        } else if b == 57 {
            Some(HostCommandType::SendAnonReq)
        } else {
            None
        }
    }

    /// Command kinds that the device protocol names but that have no frame
    /// layout yet.
    pub open spec fn spec_unsupported(self) -> bool {
        ||| self == HostCommandType::SetTuningParams
        ||| self == HostCommandType::SetOtherParams
        ||| self == HostCommandType::SendTelemetryReq
    }

    /// The byte of this command kind.
    pub fn code(self) -> (b: u8)
        ensures
            b == self.spec_code(),
    {
        match self {
            HostCommandType::AppStart => 1,
            HostCommandType::SendTxtMsg => 2,
            HostCommandType::SendChannelTxtMsg => 3,
            HostCommandType::GetContacts => 4,
            HostCommandType::GetDeviceTime => 5,
            HostCommandType::SetDeviceTime => 6,
            HostCommandType::SendSelfAdvert => 7,
            HostCommandType::SetAdvertName => 8,
            HostCommandType::AddUpdateContact => 9,
            HostCommandType::SyncNextMessage => 10,
            HostCommandType::SetRadioParams => 11,
            HostCommandType::SetTxPower => 12,
            HostCommandType::ResetPath => 13,
            HostCommandType::SetAdvertLatLon => 14,
            HostCommandType::RemoveContact => 15,
            HostCommandType::ShareContact => 16,
            HostCommandType::ExportContact => 17,
            HostCommandType::ImportContact => 18,
            HostCommandType::Reboot => 19,
            HostCommandType::GetBatteryVoltage => 20,
            HostCommandType::SetTuningParams => 21,
            HostCommandType::DeviceQuery => 22,
            HostCommandType::ExportPrivateKey => 23,
            HostCommandType::ImportPrivateKey => 24,
            HostCommandType::SendRawData => 25,
            HostCommandType::SendLogin => 26,
            HostCommandType::SendStatusReq => 27,
            HostCommandType::GetChannel => 31,
            HostCommandType::SetChannel => 32,
            HostCommandType::SignStart => 33,
            HostCommandType::SignData => 34,
            HostCommandType::SignFinish => 35,
            HostCommandType::SendTracePath => 36,
            HostCommandType::SetOtherParams => 38,
            HostCommandType::SendTelemetryReq => 39,
            HostCommandType::SendBinaryReq => 50,
            HostCommandType::SetFloodScope => 54,
            HostCommandType::GetCustomVars => 40,
            HostCommandType::SetCustomVar => 41,
            HostCommandType::SendControlData => 55,
            HostCommandType::GetStats => 56,
            HostCommandType::SendAnonReq => 57,
        }
    }

    /// The command kind whose byte is `b`, if any.
    pub fn from_repr(b: u8) -> (r: Option<HostCommandType>)
        ensures
            r == Self::spec_from_repr(b),
    {
        if b == 1 {
            Some(HostCommandType::AppStart)
        } else if b == 2 {
            Some(HostCommandType::SendTxtMsg)
        } else if b == 3 {
            Some(HostCommandType::SendChannelTxtMsg)
        } else if b == 4 {
            Some(HostCommandType::GetContacts)
        } else if b == 5 {
            Some(HostCommandType::GetDeviceTime)
        } else if b == 6 {
            Some(HostCommandType::SetDeviceTime)
        } else if b == 7 {
            Some(HostCommandType::SendSelfAdvert)
        } else if b == 8 {
            Some(HostCommandType::SetAdvertName)
        } else if b == 9 {
            Some(HostCommandType::AddUpdateContact)
        } else if b == 10 {
            Some(HostCommandType::SyncNextMessage)
        } else if b == 11 {
            Some(HostCommandType::SetRadioParams)
        } else if b == 12 {
            Some(HostCommandType::SetTxPower)
        } else if b == 13 {
            Some(HostCommandType::ResetPath)
        } else if b == 14 {
            Some(HostCommandType::SetAdvertLatLon)
        } else if b == 15 {
            Some(HostCommandType::RemoveContact)
        } else if b == 16 {
            Some(HostCommandType::ShareContact)
        } else if b == 17 {
            Some(HostCommandType::ExportContact)
        } else if b == 18 {
            Some(HostCommandType::ImportContact)
        } else if b == 19 {
            Some(HostCommandType::Reboot)
        } else if b == 20 {
            Some(HostCommandType::GetBatteryVoltage)
        } else if b == 21 {
            Some(HostCommandType::SetTuningParams)
        } else if b == 22 {
            Some(HostCommandType::DeviceQuery)
        } else if b == 23 {
            Some(HostCommandType::ExportPrivateKey)
        } else if b == 24 {
            Some(HostCommandType::ImportPrivateKey)
        } else if b == 25 {
            Some(HostCommandType::SendRawData)
        } else if b == 26 {
            Some(HostCommandType::SendLogin)
        } else if b == 27 {
            Some(HostCommandType::SendStatusReq)
        } else if b == 31 {
            Some(HostCommandType::GetChannel)
        } else if b == 32 {
            Some(HostCommandType::SetChannel)
        } else if b == 33 {
            Some(HostCommandType::SignStart)
        } else if b == 34 {
            Some(HostCommandType::SignData)
        } else if b == 35 {
            Some(HostCommandType::SignFinish)
        } else if b == 36 {
            Some(HostCommandType::SendTracePath)
        } else if b == 38 {
            Some(HostCommandType::SetOtherParams)
        } else if b == 39 {
            Some(HostCommandType::SendTelemetryReq)
        } else if b == 50 {
            Some(HostCommandType::SendBinaryReq)
        } else if b == 54 {
            Some(HostCommandType::SetFloodScope)
        } else if b == 40 {
            Some(HostCommandType::GetCustomVars)
        } else if b == 41 {
            Some(HostCommandType::SetCustomVar)
        } else if b == 55 {
            Some(HostCommandType::SendControlData)
        } else if b == 56 {
            Some(HostCommandType::GetStats)
        } else if b == 57 {
            Some(HostCommandType::SendAnonReq)
        } else {
            None
        }
    }

    /// The protocol's number for every command kind: each kind is written as
    /// its number, each number is read as its kind, and the numbers that no
    /// kind has are read as none.
    pub proof fn lemma_protocol_codes(b: u8)
        ensures
            HostCommandType::AppStart.spec_code() == 1,
            HostCommandType::SendTxtMsg.spec_code() == 2,
            HostCommandType::SendChannelTxtMsg.spec_code() == 3,
            HostCommandType::GetContacts.spec_code() == 4,
            HostCommandType::GetDeviceTime.spec_code() == 5,
            HostCommandType::SetDeviceTime.spec_code() == 6,
            HostCommandType::SendSelfAdvert.spec_code() == 7,
            HostCommandType::SetAdvertName.spec_code() == 8,
            HostCommandType::AddUpdateContact.spec_code() == 9,
            HostCommandType::SyncNextMessage.spec_code() == 10,
            HostCommandType::SetRadioParams.spec_code() == 11,
            HostCommandType::SetTxPower.spec_code() == 12,
            HostCommandType::ResetPath.spec_code() == 13,
            HostCommandType::SetAdvertLatLon.spec_code() == 14,
            HostCommandType::RemoveContact.spec_code() == 15,
            HostCommandType::ShareContact.spec_code() == 16,
            HostCommandType::ExportContact.spec_code() == 17,
            HostCommandType::ImportContact.spec_code() == 18,
            HostCommandType::Reboot.spec_code() == 19,
            HostCommandType::GetBatteryVoltage.spec_code() == 20,
            HostCommandType::SetTuningParams.spec_code() == 21,
            HostCommandType::DeviceQuery.spec_code() == 22,
            HostCommandType::ExportPrivateKey.spec_code() == 23,
            HostCommandType::ImportPrivateKey.spec_code() == 24,
            HostCommandType::SendRawData.spec_code() == 25,
            HostCommandType::SendLogin.spec_code() == 26,
            HostCommandType::SendStatusReq.spec_code() == 27,
            HostCommandType::GetChannel.spec_code() == 31,
            HostCommandType::SetChannel.spec_code() == 32,
            HostCommandType::SignStart.spec_code() == 33,
            HostCommandType::SignData.spec_code() == 34,
            HostCommandType::SignFinish.spec_code() == 35,
            HostCommandType::SendTracePath.spec_code() == 36,
            HostCommandType::SetOtherParams.spec_code() == 38,
            HostCommandType::SendTelemetryReq.spec_code() == 39,
            HostCommandType::SendBinaryReq.spec_code() == 50,
            HostCommandType::SetFloodScope.spec_code() == 54,
            HostCommandType::GetCustomVars.spec_code() == 40,
            HostCommandType::SetCustomVar.spec_code() == 41,
            HostCommandType::SendControlData.spec_code() == 55,
            HostCommandType::GetStats.spec_code() == 56,
            HostCommandType::SendAnonReq.spec_code() == 57,
            HostCommandType::spec_from_repr(1) == Some(HostCommandType::AppStart),
            HostCommandType::spec_from_repr(2) == Some(HostCommandType::SendTxtMsg),
            HostCommandType::spec_from_repr(3) == Some(HostCommandType::SendChannelTxtMsg),
            HostCommandType::spec_from_repr(4) == Some(HostCommandType::GetContacts),
            HostCommandType::spec_from_repr(5) == Some(HostCommandType::GetDeviceTime),
            HostCommandType::spec_from_repr(6) == Some(HostCommandType::SetDeviceTime),
            HostCommandType::spec_from_repr(7) == Some(HostCommandType::SendSelfAdvert),
            HostCommandType::spec_from_repr(8) == Some(HostCommandType::SetAdvertName),
            HostCommandType::spec_from_repr(9) == Some(HostCommandType::AddUpdateContact),
            HostCommandType::spec_from_repr(10) == Some(HostCommandType::SyncNextMessage),
            HostCommandType::spec_from_repr(11) == Some(HostCommandType::SetRadioParams),
            HostCommandType::spec_from_repr(12) == Some(HostCommandType::SetTxPower),
            HostCommandType::spec_from_repr(13) == Some(HostCommandType::ResetPath),
            HostCommandType::spec_from_repr(14) == Some(HostCommandType::SetAdvertLatLon),
            HostCommandType::spec_from_repr(15) == Some(HostCommandType::RemoveContact),
            HostCommandType::spec_from_repr(16) == Some(HostCommandType::ShareContact),
            HostCommandType::spec_from_repr(17) == Some(HostCommandType::ExportContact),
            HostCommandType::spec_from_repr(18) == Some(HostCommandType::ImportContact),
            HostCommandType::spec_from_repr(19) == Some(HostCommandType::Reboot),
            HostCommandType::spec_from_repr(20) == Some(HostCommandType::GetBatteryVoltage),
            HostCommandType::spec_from_repr(21) == Some(HostCommandType::SetTuningParams),
            HostCommandType::spec_from_repr(22) == Some(HostCommandType::DeviceQuery),
            HostCommandType::spec_from_repr(23) == Some(HostCommandType::ExportPrivateKey),
            HostCommandType::spec_from_repr(24) == Some(HostCommandType::ImportPrivateKey),
            HostCommandType::spec_from_repr(25) == Some(HostCommandType::SendRawData),
            HostCommandType::spec_from_repr(26) == Some(HostCommandType::SendLogin),
            HostCommandType::spec_from_repr(27) == Some(HostCommandType::SendStatusReq),
            HostCommandType::spec_from_repr(31) == Some(HostCommandType::GetChannel),
            HostCommandType::spec_from_repr(32) == Some(HostCommandType::SetChannel),
            HostCommandType::spec_from_repr(33) == Some(HostCommandType::SignStart),
            HostCommandType::spec_from_repr(34) == Some(HostCommandType::SignData),
            HostCommandType::spec_from_repr(35) == Some(HostCommandType::SignFinish),
            HostCommandType::spec_from_repr(36) == Some(HostCommandType::SendTracePath),
            HostCommandType::spec_from_repr(38) == Some(HostCommandType::SetOtherParams),
            HostCommandType::spec_from_repr(39) == Some(HostCommandType::SendTelemetryReq),
            HostCommandType::spec_from_repr(50) == Some(HostCommandType::SendBinaryReq),
            HostCommandType::spec_from_repr(54) == Some(HostCommandType::SetFloodScope),
            HostCommandType::spec_from_repr(40) == Some(HostCommandType::GetCustomVars),
            HostCommandType::spec_from_repr(41) == Some(HostCommandType::SetCustomVar),
            HostCommandType::spec_from_repr(55) == Some(HostCommandType::SendControlData),
            HostCommandType::spec_from_repr(56) == Some(HostCommandType::GetStats),
            HostCommandType::spec_from_repr(57) == Some(HostCommandType::SendAnonReq),
            (b == 0 || 28 <= b <= 30 || b == 37 || 42 <= b <= 49 || 51 <= b <= 53 || b >= 58)
                ==> HostCommandType::spec_from_repr(b) is None,
    {
    }

    /// Every command kind is read back from its byte.
    pub proof fn lemma_code_roundtrip(self)
        ensures
            Self::spec_from_repr(self.spec_code()) == Some(self),
    {
    }
}

/// A command from the host, tagged on the wire by its kind's byte.
pub enum HostCommand<'a> {
    AppStart(AppStart<'a>),
    SendTxtMsg(SendTxtMsg<'a>),
    SendChannelTxtMsg(SendChannelTxtMsg<'a>),
    GetContacts(GetContacts),
    GetDeviceTime,
    SetDeviceTime(SetDeviceTime),
    SendSelfAdvert(SendSelfAdvert),
    SetAdvertName(SetAdvertName<'a>),
    AddUpdateContact(AddUpdateContact),
    SyncNextMessage,
    SetRadioParams(SetRadioParams),
    SetTxPower(SetTxPower),
    ResetPath(ResetPath),
    SetAdvertLatLon(SetAdvertLatLon),
    RemoveContact(RemoveContact),
    ShareContact(ShareContact),
    ExportContact(ExportContact),
    ImportContact(ImportContact<'a>),
    Reboot,
    GetBatteryVoltage,
    SetTuningParams,
    DeviceQuery(DeviceQuery),
    ExportPrivateKey,
    ImportPrivateKey(ImportPrivateKey),
    SendRawData(SendRawData<'a>),
    SendLogin(SendLogin<'a>),
    SendStatusReq(SendStatusReq),
    GetChannel(GetChannel),
    SetChannel(SetChannel<'a>),
    SignStart,
    SignData(SignData<'a>),
    SignFinish,
    SendTracePath(SendTracePath),
    SetOtherParams,
    SendTelemetryReq,
    SendBinaryReq(SendBinaryReq<'a>),
    SetFloodScope(SetFloodScope<'a>),
    GetCustomVars,
    SetCustomVar(SetCustomVar<'a>),
    SendControlData(ControlData<'a>),
    GetStats(GetStats),
    SendAnonReq(SendAnonReq<'a>),
}

impl<'a> HostCommand<'a> {
    /// The kind of this command.
    pub open spec fn spec_discriminant(&self) -> HostCommandType {
        match self {
            HostCommand::AppStart(_) => HostCommandType::AppStart,
            HostCommand::SendTxtMsg(_) => HostCommandType::SendTxtMsg,
            HostCommand::SendChannelTxtMsg(_) => HostCommandType::SendChannelTxtMsg,
            HostCommand::GetContacts(_) => HostCommandType::GetContacts,
            HostCommand::GetDeviceTime => HostCommandType::GetDeviceTime,
            HostCommand::SetDeviceTime(_) => HostCommandType::SetDeviceTime,
            HostCommand::SendSelfAdvert(_) => HostCommandType::SendSelfAdvert,
            HostCommand::SetAdvertName(_) => HostCommandType::SetAdvertName,
            HostCommand::AddUpdateContact(_) => HostCommandType::AddUpdateContact,
            HostCommand::SyncNextMessage => HostCommandType::SyncNextMessage,
            HostCommand::SetRadioParams(_) => HostCommandType::SetRadioParams,
            HostCommand::SetTxPower(_) => HostCommandType::SetTxPower,
            HostCommand::ResetPath(_) => HostCommandType::ResetPath,
            HostCommand::SetAdvertLatLon(_) => HostCommandType::SetAdvertLatLon,
            HostCommand::RemoveContact(_) => HostCommandType::RemoveContact,
            HostCommand::ShareContact(_) => HostCommandType::ShareContact,
            HostCommand::ExportContact(_) => HostCommandType::ExportContact,
            HostCommand::ImportContact(_) => HostCommandType::ImportContact,
            HostCommand::Reboot => HostCommandType::Reboot,
            HostCommand::GetBatteryVoltage => HostCommandType::GetBatteryVoltage,
            HostCommand::SetTuningParams => HostCommandType::SetTuningParams,
            HostCommand::DeviceQuery(_) => HostCommandType::DeviceQuery,
            HostCommand::ExportPrivateKey => HostCommandType::ExportPrivateKey,
            HostCommand::ImportPrivateKey(_) => HostCommandType::ImportPrivateKey,
            HostCommand::SendRawData(_) => HostCommandType::SendRawData,
            HostCommand::SendLogin(_) => HostCommandType::SendLogin,
            HostCommand::SendStatusReq(_) => HostCommandType::SendStatusReq,
            HostCommand::GetChannel(_) => HostCommandType::GetChannel,
            HostCommand::SetChannel(_) => HostCommandType::SetChannel,
            HostCommand::SignStart => HostCommandType::SignStart,
            HostCommand::SignData(_) => HostCommandType::SignData,
            HostCommand::SignFinish => HostCommandType::SignFinish,
            HostCommand::SendTracePath(_) => HostCommandType::SendTracePath,
            HostCommand::SetOtherParams => HostCommandType::SetOtherParams,
            HostCommand::SendTelemetryReq => HostCommandType::SendTelemetryReq,
            HostCommand::SendBinaryReq(_) => HostCommandType::SendBinaryReq,
            HostCommand::SetFloodScope(_) => HostCommandType::SetFloodScope,
            HostCommand::GetCustomVars => HostCommandType::GetCustomVars,
            HostCommand::SetCustomVar(_) => HostCommandType::SetCustomVar,
            HostCommand::SendControlData(_) => HostCommandType::SendControlData,
            HostCommand::GetStats(_) => HostCommandType::GetStats,
            HostCommand::SendAnonReq(_) => HostCommandType::SendAnonReq,
        }
    }

    /// The bytes of this command's fields, behind its kind byte.
    pub open spec fn spec_payload_wire(&self) -> Seq<u8> {
        match self {
            HostCommand::AppStart(c) => c.spec_wire(),
            HostCommand::SendTxtMsg(c) => c.spec_wire(),
            HostCommand::SendChannelTxtMsg(c) => c.spec_wire(),
            HostCommand::GetContacts(c) => c.spec_wire(),
            HostCommand::SetDeviceTime(c) => c.spec_wire(),
            HostCommand::SendSelfAdvert(c) => c.spec_wire(),
            HostCommand::SetAdvertName(c) => c.spec_wire(),
            HostCommand::AddUpdateContact(c) => c.spec_wire(),
            HostCommand::SetRadioParams(c) => c.spec_wire(),
            HostCommand::SetTxPower(c) => c.spec_wire(),
            HostCommand::ResetPath(c) => c.spec_wire(),
            HostCommand::SetAdvertLatLon(c) => c.spec_wire(),
            HostCommand::RemoveContact(c) => c.spec_wire(),
            HostCommand::ShareContact(c) => c.spec_wire(),
            HostCommand::ExportContact(c) => c.spec_wire(),
            HostCommand::ImportContact(c) => c.spec_wire(),
            HostCommand::DeviceQuery(c) => c.spec_wire(),
            HostCommand::ImportPrivateKey(c) => c.spec_wire(),
            HostCommand::SendRawData(c) => c.spec_wire(),
            HostCommand::SendLogin(c) => c.spec_wire(),
            HostCommand::SendStatusReq(c) => c.spec_wire(),
            HostCommand::GetChannel(c) => c.spec_wire(),
            HostCommand::SetChannel(c) => c.spec_wire(),
            HostCommand::SignData(c) => c.spec_wire(),
            HostCommand::SendTracePath(c) => c.spec_wire(),
            HostCommand::SendBinaryReq(c) => c.spec_wire(),
            HostCommand::SetFloodScope(c) => c.spec_wire(),
            HostCommand::SetCustomVar(c) => c.spec_wire(),
            HostCommand::SendControlData(c) => c.spec_wire(),
            HostCommand::GetStats(c) => c.spec_wire(),
            HostCommand::SendAnonReq(c) => c.spec_wire(),
            _ => Seq::empty(),
        }
    }

    /// Why decoding the fields of a command of kind `t` from `p` fails, or
    /// `None`.
    /// Payloads that a command of kind `t` can be read from.
    pub open spec fn spec_payload_deserializable(t: HostCommandType, p: Seq<u8>) -> bool {
        match t {
            HostCommandType::AddUpdateContact => <AddUpdateContact as CompanionSer<'a>>::spec_deserializable(p),
            HostCommandType::SendRawData => <SendRawData<'a> as CompanionSer<'a>>::spec_deserializable(p),
            _ => !t.spec_unsupported(),
        }
    }

    pub open spec fn spec_payload_error(t: HostCommandType, p: Seq<u8>) -> Option<DecodeError> {
        match t {
            HostCommandType::AppStart => <AppStart<'a> as CompanionSer<'a>>::spec_decode_error(p),
            HostCommandType::SendTxtMsg => <SendTxtMsg<'a> as CompanionSer<'a>>::spec_decode_error(p),
            HostCommandType::SendChannelTxtMsg => <SendChannelTxtMsg<'a> as CompanionSer<'a>>::spec_decode_error(p),
            HostCommandType::GetContacts => <GetContacts as CompanionSer<'a>>::spec_decode_error(p),
            HostCommandType::SetDeviceTime => <SetDeviceTime as CompanionSer<'a>>::spec_decode_error(p),
            HostCommandType::SendSelfAdvert => <SendSelfAdvert as CompanionSer<'a>>::spec_decode_error(p),
            HostCommandType::SetAdvertName => <SetAdvertName<'a> as CompanionSer<'a>>::spec_decode_error(p),
            HostCommandType::AddUpdateContact => <AddUpdateContact as CompanionSer<'a>>::spec_decode_error(p),
            HostCommandType::SetRadioParams => <SetRadioParams as CompanionSer<'a>>::spec_decode_error(p),
            HostCommandType::SetTxPower => <SetTxPower as CompanionSer<'a>>::spec_decode_error(p),
            HostCommandType::ResetPath => <ResetPath as CompanionSer<'a>>::spec_decode_error(p),
            HostCommandType::SetAdvertLatLon => <SetAdvertLatLon as CompanionSer<'a>>::spec_decode_error(p),
            HostCommandType::RemoveContact => <RemoveContact as CompanionSer<'a>>::spec_decode_error(p),
            HostCommandType::ShareContact => <ShareContact as CompanionSer<'a>>::spec_decode_error(p),
            HostCommandType::ExportContact => <ExportContact as CompanionSer<'a>>::spec_decode_error(p),
            HostCommandType::ImportContact => <ImportContact<'a> as CompanionSer<'a>>::spec_decode_error(p),
            HostCommandType::DeviceQuery => <DeviceQuery as CompanionSer<'a>>::spec_decode_error(p),
            HostCommandType::ImportPrivateKey => <ImportPrivateKey as CompanionSer<'a>>::spec_decode_error(p),
            HostCommandType::SendRawData => <SendRawData<'a> as CompanionSer<'a>>::spec_decode_error(p),
            HostCommandType::SendLogin => <SendLogin<'a> as CompanionSer<'a>>::spec_decode_error(p),
            HostCommandType::SendStatusReq => <SendStatusReq as CompanionSer<'a>>::spec_decode_error(p),
            HostCommandType::GetChannel => <GetChannel as CompanionSer<'a>>::spec_decode_error(p),
            HostCommandType::SetChannel => <SetChannel<'a> as CompanionSer<'a>>::spec_decode_error(p),
            HostCommandType::SignData => <SignData<'a> as CompanionSer<'a>>::spec_decode_error(p),
            HostCommandType::SendTracePath => <SendTracePath as CompanionSer<'a>>::spec_decode_error(p),
            HostCommandType::SendBinaryReq => <SendBinaryReq<'a> as CompanionSer<'a>>::spec_decode_error(p),
            HostCommandType::SetFloodScope => <SetFloodScope<'a> as CompanionSer<'a>>::spec_decode_error(p),
            HostCommandType::SetCustomVar => <SetCustomVar<'a> as CompanionSer<'a>>::spec_decode_error(p),
            HostCommandType::SendControlData => <ControlData<'a> as CompanionSer<'a>>::spec_decode_error(p),
            HostCommandType::GetStats => <GetStats as CompanionSer<'a>>::spec_decode_error(p),
            HostCommandType::SendAnonReq => <SendAnonReq<'a> as CompanionSer<'a>>::spec_decode_error(p),
            _ => None,
        }
    }

    /// `v`'s fields are those that decoding `p` yields.
    pub open spec fn spec_payload_decoded(p: Seq<u8>, v: Self) -> bool {
        match v {
            HostCommand::AppStart(c) => <AppStart<'a> as CompanionSer<'a>>::spec_decoded(p, c),
            HostCommand::SendTxtMsg(c) => <SendTxtMsg<'a> as CompanionSer<'a>>::spec_decoded(p, c),
            HostCommand::SendChannelTxtMsg(c) => <SendChannelTxtMsg<'a> as CompanionSer<'a>>::spec_decoded(p, c),
            HostCommand::GetContacts(c) => <GetContacts as CompanionSer<'a>>::spec_decoded(p, c),
            HostCommand::SetDeviceTime(c) => <SetDeviceTime as CompanionSer<'a>>::spec_decoded(p, c),
            HostCommand::SendSelfAdvert(c) => <SendSelfAdvert as CompanionSer<'a>>::spec_decoded(p, c),
            HostCommand::SetAdvertName(c) => <SetAdvertName<'a> as CompanionSer<'a>>::spec_decoded(p, c),
            HostCommand::AddUpdateContact(c) => <AddUpdateContact as CompanionSer<'a>>::spec_decoded(p, c),
            HostCommand::SetRadioParams(c) => <SetRadioParams as CompanionSer<'a>>::spec_decoded(p, c),
            HostCommand::SetTxPower(c) => <SetTxPower as CompanionSer<'a>>::spec_decoded(p, c),
            HostCommand::ResetPath(c) => <ResetPath as CompanionSer<'a>>::spec_decoded(p, c),
            HostCommand::SetAdvertLatLon(c) => <SetAdvertLatLon as CompanionSer<'a>>::spec_decoded(p, c),
            HostCommand::RemoveContact(c) => <RemoveContact as CompanionSer<'a>>::spec_decoded(p, c),
            HostCommand::ShareContact(c) => <ShareContact as CompanionSer<'a>>::spec_decoded(p, c),
            HostCommand::ExportContact(c) => <ExportContact as CompanionSer<'a>>::spec_decoded(p, c),
            HostCommand::ImportContact(c) => <ImportContact<'a> as CompanionSer<'a>>::spec_decoded(p, c),
            HostCommand::DeviceQuery(c) => <DeviceQuery as CompanionSer<'a>>::spec_decoded(p, c),
            HostCommand::ImportPrivateKey(c) => <ImportPrivateKey as CompanionSer<'a>>::spec_decoded(p, c),
            HostCommand::SendRawData(c) => <SendRawData<'a> as CompanionSer<'a>>::spec_decoded(p, c),
            HostCommand::SendLogin(c) => <SendLogin<'a> as CompanionSer<'a>>::spec_decoded(p, c),
            HostCommand::SendStatusReq(c) => <SendStatusReq as CompanionSer<'a>>::spec_decoded(p, c),
            HostCommand::GetChannel(c) => <GetChannel as CompanionSer<'a>>::spec_decoded(p, c),
            HostCommand::SetChannel(c) => <SetChannel<'a> as CompanionSer<'a>>::spec_decoded(p, c),
            HostCommand::SignData(c) => <SignData<'a> as CompanionSer<'a>>::spec_decoded(p, c),
            HostCommand::SendTracePath(c) => <SendTracePath as CompanionSer<'a>>::spec_decoded(p, c),
            HostCommand::SendBinaryReq(c) => <SendBinaryReq<'a> as CompanionSer<'a>>::spec_decoded(p, c),
            HostCommand::SetFloodScope(c) => <SetFloodScope<'a> as CompanionSer<'a>>::spec_decoded(p, c),
            HostCommand::SetCustomVar(c) => <SetCustomVar<'a> as CompanionSer<'a>>::spec_decoded(p, c),
            HostCommand::SendControlData(c) => <ControlData<'a> as CompanionSer<'a>>::spec_decoded(p, c),
            HostCommand::GetStats(c) => <GetStats as CompanionSer<'a>>::spec_decoded(p, c),
            HostCommand::SendAnonReq(c) => <SendAnonReq<'a> as CompanionSer<'a>>::spec_decoded(p, c),
            _ => true,
        }
    }

    /// The kind of this command.
    pub fn discriminant(&self) -> (t: HostCommandType)
        ensures
            t == self.spec_discriminant(),
    {
        match self {
            HostCommand::AppStart(_) => HostCommandType::AppStart,
            HostCommand::SendTxtMsg(_) => HostCommandType::SendTxtMsg,
            HostCommand::SendChannelTxtMsg(_) => HostCommandType::SendChannelTxtMsg,
            HostCommand::GetContacts(_) => HostCommandType::GetContacts,
            HostCommand::GetDeviceTime => HostCommandType::GetDeviceTime,
            HostCommand::SetDeviceTime(_) => HostCommandType::SetDeviceTime,
            HostCommand::SendSelfAdvert(_) => HostCommandType::SendSelfAdvert,
            HostCommand::SetAdvertName(_) => HostCommandType::SetAdvertName,
            HostCommand::AddUpdateContact(_) => HostCommandType::AddUpdateContact,
            HostCommand::SyncNextMessage => HostCommandType::SyncNextMessage,
            HostCommand::SetRadioParams(_) => HostCommandType::SetRadioParams,
            HostCommand::SetTxPower(_) => HostCommandType::SetTxPower,
            HostCommand::ResetPath(_) => HostCommandType::ResetPath,
            HostCommand::SetAdvertLatLon(_) => HostCommandType::SetAdvertLatLon,
            HostCommand::RemoveContact(_) => HostCommandType::RemoveContact,
            HostCommand::ShareContact(_) => HostCommandType::ShareContact,
            HostCommand::ExportContact(_) => HostCommandType::ExportContact,
            HostCommand::ImportContact(_) => HostCommandType::ImportContact,
            HostCommand::Reboot => HostCommandType::Reboot,
            HostCommand::GetBatteryVoltage => HostCommandType::GetBatteryVoltage,
            HostCommand::SetTuningParams => HostCommandType::SetTuningParams,
            HostCommand::DeviceQuery(_) => HostCommandType::DeviceQuery,
            HostCommand::ExportPrivateKey => HostCommandType::ExportPrivateKey,
            HostCommand::ImportPrivateKey(_) => HostCommandType::ImportPrivateKey,
            HostCommand::SendRawData(_) => HostCommandType::SendRawData,
            HostCommand::SendLogin(_) => HostCommandType::SendLogin,
            HostCommand::SendStatusReq(_) => HostCommandType::SendStatusReq,
            HostCommand::GetChannel(_) => HostCommandType::GetChannel,
            HostCommand::SetChannel(_) => HostCommandType::SetChannel,
            HostCommand::SignStart => HostCommandType::SignStart,
            HostCommand::SignData(_) => HostCommandType::SignData,
            HostCommand::SignFinish => HostCommandType::SignFinish,
            HostCommand::SendTracePath(_) => HostCommandType::SendTracePath,
            HostCommand::SetOtherParams => HostCommandType::SetOtherParams,
            HostCommand::SendTelemetryReq => HostCommandType::SendTelemetryReq,
            HostCommand::SendBinaryReq(_) => HostCommandType::SendBinaryReq,
            HostCommand::SetFloodScope(_) => HostCommandType::SetFloodScope,
            HostCommand::GetCustomVars => HostCommandType::GetCustomVars,
            HostCommand::SetCustomVar(_) => HostCommandType::SetCustomVar,
            HostCommand::SendControlData(_) => HostCommandType::SendControlData,
            HostCommand::GetStats(_) => HostCommandType::GetStats,
            HostCommand::SendAnonReq(_) => HostCommandType::SendAnonReq,
        }
    }
}

impl<'a> CompanionSer<'a> for HostCommand<'a> {
    open spec fn spec_wire(&self) -> Seq<u8> {
        seq![self.spec_discriminant().spec_code()] + self.spec_payload_wire()
    }

    open spec fn spec_serializable(&self) -> bool {
        match self {
            HostCommand::AppStart(c) => c.spec_serializable(),
            HostCommand::SendTxtMsg(c) => c.spec_serializable(),
            HostCommand::SendChannelTxtMsg(c) => c.spec_serializable(),
            HostCommand::GetContacts(c) => c.spec_serializable(),
            HostCommand::SetDeviceTime(c) => c.spec_serializable(),
            HostCommand::SendSelfAdvert(c) => c.spec_serializable(),
            HostCommand::SetAdvertName(c) => c.spec_serializable(),
            HostCommand::AddUpdateContact(c) => c.spec_serializable(),
            HostCommand::SetRadioParams(c) => c.spec_serializable(),
            HostCommand::SetTxPower(c) => c.spec_serializable(),
            HostCommand::ResetPath(c) => c.spec_serializable(),
            HostCommand::SetAdvertLatLon(c) => c.spec_serializable(),
            HostCommand::RemoveContact(c) => c.spec_serializable(),
            HostCommand::ShareContact(c) => c.spec_serializable(),
            HostCommand::ExportContact(c) => c.spec_serializable(),
            HostCommand::ImportContact(c) => c.spec_serializable(),
            HostCommand::DeviceQuery(c) => c.spec_serializable(),
            HostCommand::ImportPrivateKey(c) => c.spec_serializable(),
            HostCommand::SendRawData(c) => c.spec_serializable(),
            HostCommand::SendLogin(c) => c.spec_serializable(),
            HostCommand::SendStatusReq(c) => c.spec_serializable(),
            HostCommand::GetChannel(c) => c.spec_serializable(),
            HostCommand::SetChannel(c) => c.spec_serializable(),
            HostCommand::SignData(c) => c.spec_serializable(),
            HostCommand::SendTracePath(c) => c.spec_serializable(),
            HostCommand::SendBinaryReq(c) => c.spec_serializable(),
            HostCommand::SetFloodScope(c) => c.spec_serializable(),
            HostCommand::SetCustomVar(c) => c.spec_serializable(),
            HostCommand::SendControlData(c) => c.spec_serializable(),
            HostCommand::GetStats(c) => c.spec_serializable(),
            HostCommand::SendAnonReq(c) => c.spec_serializable(),
            _ => true,
        }
    }

    open spec fn spec_ser_size(&self) -> int {
        1 + match self {
            HostCommand::AppStart(c) => c.spec_ser_size(),
            HostCommand::SendTxtMsg(c) => c.spec_ser_size(),
            HostCommand::SendChannelTxtMsg(c) => c.spec_ser_size(),
            HostCommand::GetContacts(c) => c.spec_ser_size(),
            HostCommand::SetDeviceTime(c) => c.spec_ser_size(),
            HostCommand::SendSelfAdvert(c) => c.spec_ser_size(),
            HostCommand::SetAdvertName(c) => c.spec_ser_size(),
            HostCommand::AddUpdateContact(c) => c.spec_ser_size(),
            HostCommand::SetRadioParams(c) => c.spec_ser_size(),
            HostCommand::SetTxPower(c) => c.spec_ser_size(),
            HostCommand::ResetPath(c) => c.spec_ser_size(),
            HostCommand::SetAdvertLatLon(c) => c.spec_ser_size(),
            HostCommand::RemoveContact(c) => c.spec_ser_size(),
            HostCommand::ShareContact(c) => c.spec_ser_size(),
            HostCommand::ExportContact(c) => c.spec_ser_size(),
            HostCommand::ImportContact(c) => c.spec_ser_size(),
            HostCommand::DeviceQuery(c) => c.spec_ser_size(),
            HostCommand::ImportPrivateKey(c) => c.spec_ser_size(),
            HostCommand::SendRawData(c) => c.spec_ser_size(),
            HostCommand::SendLogin(c) => c.spec_ser_size(),
            HostCommand::SendStatusReq(c) => c.spec_ser_size(),
            HostCommand::GetChannel(c) => c.spec_ser_size(),
            HostCommand::SetChannel(c) => c.spec_ser_size(),
            HostCommand::SignData(c) => c.spec_ser_size(),
            HostCommand::SendTracePath(c) => c.spec_ser_size(),
            HostCommand::SendBinaryReq(c) => c.spec_ser_size(),
            HostCommand::SetFloodScope(c) => c.spec_ser_size(),
            HostCommand::SetCustomVar(c) => c.spec_ser_size(),
            HostCommand::SendControlData(c) => c.spec_ser_size(),
            HostCommand::GetStats(c) => c.spec_ser_size(),
            HostCommand::SendAnonReq(c) => c.spec_ser_size(),
            _ => 0,
        }
    }

    /// The kinds without a frame layout have no size.
    open spec fn spec_sizable(&self) -> bool {
        !self.spec_discriminant().spec_unsupported() && match self {
            HostCommand::AppStart(c) => c.spec_sizable(),
            HostCommand::SendTxtMsg(c) => c.spec_sizable(),
            HostCommand::SendChannelTxtMsg(c) => c.spec_sizable(),
            HostCommand::GetContacts(c) => c.spec_sizable(),
            HostCommand::SetDeviceTime(c) => c.spec_sizable(),
            HostCommand::SendSelfAdvert(c) => c.spec_sizable(),
            HostCommand::SetAdvertName(c) => c.spec_sizable(),
            HostCommand::AddUpdateContact(c) => c.spec_sizable(),
            HostCommand::SetRadioParams(c) => c.spec_sizable(),
            HostCommand::SetTxPower(c) => c.spec_sizable(),
            HostCommand::ResetPath(c) => c.spec_sizable(),
            HostCommand::SetAdvertLatLon(c) => c.spec_sizable(),
            HostCommand::RemoveContact(c) => c.spec_sizable(),
            HostCommand::ShareContact(c) => c.spec_sizable(),
            HostCommand::ExportContact(c) => c.spec_sizable(),
            HostCommand::ImportContact(c) => c.spec_sizable(),
            HostCommand::DeviceQuery(c) => c.spec_sizable(),
            HostCommand::ImportPrivateKey(c) => c.spec_sizable(),
            HostCommand::SendRawData(c) => c.spec_sizable(),
            HostCommand::SendLogin(c) => c.spec_sizable(),
            HostCommand::SendStatusReq(c) => c.spec_sizable(),
            HostCommand::GetChannel(c) => c.spec_sizable(),
            HostCommand::SetChannel(c) => c.spec_sizable(),
            HostCommand::SignData(c) => c.spec_sizable(),
            HostCommand::SendTracePath(c) => c.spec_sizable(),
            HostCommand::SendBinaryReq(c) => c.spec_sizable(),
            HostCommand::SetFloodScope(c) => c.spec_sizable(),
            HostCommand::SetCustomVar(c) => c.spec_sizable(),
            HostCommand::SendControlData(c) => c.spec_sizable(),
            HostCommand::GetStats(c) => c.spec_sizable(),
            HostCommand::SendAnonReq(c) => c.spec_sizable(),
            _ => true,
        }
    }

    open spec fn spec_decode_error(b: Seq<u8>) -> Option<DecodeError> {
        if b.len() < 1 {
            Some(DecodeError::UnexpectedEof)
        } else {
            match HostCommandType::spec_from_repr(b[0]) {
                None => Some(DecodeError::InvalidBitPattern),
                Some(t) => Self::spec_payload_error(t, tail(b, 1)),
            }
        }
    }

    open spec fn spec_decoded(b: Seq<u8>, v: Self) -> bool {
        &&& b[0] == v.spec_discriminant().spec_code()
        &&& Self::spec_payload_decoded(tail(b, 1), v)
    }

    /// Frames of the kinds without a layout, and payloads that their kind
    /// cannot read, cannot be decoded.
    open spec fn spec_deserializable(b: Seq<u8>) -> bool {
        b.len() >= 1 ==> (HostCommandType::spec_from_repr(b[0]) matches Some(t)
            ==> Self::spec_payload_deserializable(t, tail(b, 1)))
    }

    fn ser_size(&self) -> (n: usize) {
        1 + match self {
            HostCommand::AppStart(c) => c.ser_size(),
            HostCommand::SendTxtMsg(c) => c.ser_size(),
            HostCommand::SendChannelTxtMsg(c) => c.ser_size(),
            HostCommand::GetContacts(c) => c.ser_size(),
            HostCommand::GetDeviceTime => 0,
            HostCommand::SetDeviceTime(c) => c.ser_size(),
            HostCommand::SendSelfAdvert(c) => c.ser_size(),
            HostCommand::SetAdvertName(c) => c.ser_size(),
            HostCommand::AddUpdateContact(c) => c.ser_size(),
            HostCommand::SyncNextMessage => 0,
            HostCommand::SetRadioParams(c) => c.ser_size(),
            HostCommand::SetTxPower(c) => c.ser_size(),
            HostCommand::ResetPath(c) => c.ser_size(),
            HostCommand::SetAdvertLatLon(c) => c.ser_size(),
            HostCommand::RemoveContact(c) => c.ser_size(),
            HostCommand::ShareContact(c) => c.ser_size(),
            HostCommand::ExportContact(c) => c.ser_size(),
            HostCommand::ImportContact(c) => c.ser_size(),
            HostCommand::Reboot => 0,
            HostCommand::GetBatteryVoltage => 0,
            HostCommand::SetTuningParams => {
                assert(false);
                0
            },
            HostCommand::DeviceQuery(c) => c.ser_size(),
            HostCommand::ExportPrivateKey => 0,
            HostCommand::ImportPrivateKey(c) => c.ser_size(),
            HostCommand::SendRawData(c) => c.ser_size(),
            HostCommand::SendLogin(c) => c.ser_size(),
            HostCommand::SendStatusReq(c) => c.ser_size(),
            HostCommand::GetChannel(c) => c.ser_size(),
            HostCommand::SetChannel(c) => c.ser_size(),
            HostCommand::SignStart => 0,
            HostCommand::SignData(c) => c.ser_size(),
            HostCommand::SignFinish => 0,
            HostCommand::SendTracePath(c) => c.ser_size(),
            HostCommand::SetOtherParams => {
                assert(false);
                0
            },
            HostCommand::SendTelemetryReq => {
                assert(false);
                0
            },
            HostCommand::SendBinaryReq(c) => c.ser_size(),
            HostCommand::SetFloodScope(c) => c.ser_size(),
            HostCommand::GetCustomVars => 0,
            HostCommand::SetCustomVar(c) => c.ser_size(),
            HostCommand::SendControlData(c) => c.ser_size(),
            HostCommand::GetStats(c) => c.ser_size(),
            HostCommand::SendAnonReq(c) => c.ser_size(),
        }
    }

    fn write_wire(&self, out: &mut Vec<u8>) {
        put_u8(out, self.discriminant().code());
        match self {
            HostCommand::AppStart(c) => c.write_wire(out),
            HostCommand::SendTxtMsg(c) => c.write_wire(out),
            HostCommand::SendChannelTxtMsg(c) => c.write_wire(out),
            HostCommand::GetContacts(c) => c.write_wire(out),
            HostCommand::SetDeviceTime(c) => c.write_wire(out),
            HostCommand::SendSelfAdvert(c) => c.write_wire(out),
            HostCommand::SetAdvertName(c) => c.write_wire(out),
            HostCommand::AddUpdateContact(c) => c.write_wire(out),
            HostCommand::SetRadioParams(c) => c.write_wire(out),
            HostCommand::SetTxPower(c) => c.write_wire(out),
            HostCommand::ResetPath(c) => c.write_wire(out),
            HostCommand::SetAdvertLatLon(c) => c.write_wire(out),
            HostCommand::RemoveContact(c) => c.write_wire(out),
            HostCommand::ShareContact(c) => c.write_wire(out),
            HostCommand::ExportContact(c) => c.write_wire(out),
            HostCommand::ImportContact(c) => c.write_wire(out),
            HostCommand::DeviceQuery(c) => c.write_wire(out),
            HostCommand::ImportPrivateKey(c) => c.write_wire(out),
            HostCommand::SendRawData(c) => c.write_wire(out),
            HostCommand::SendLogin(c) => c.write_wire(out),
            HostCommand::SendStatusReq(c) => c.write_wire(out),
            HostCommand::GetChannel(c) => c.write_wire(out),
            HostCommand::SetChannel(c) => c.write_wire(out),
            HostCommand::SignData(c) => c.write_wire(out),
            HostCommand::SendTracePath(c) => c.write_wire(out),
            HostCommand::SendBinaryReq(c) => c.write_wire(out),
            HostCommand::SetFloodScope(c) => c.write_wire(out),
            HostCommand::SetCustomVar(c) => c.write_wire(out),
            HostCommand::SendControlData(c) => c.write_wire(out),
            HostCommand::GetStats(c) => c.write_wire(out),
            HostCommand::SendAnonReq(c) => c.write_wire(out),
            _ => {
                assert(out@ == out@ + Seq::<u8>::empty());
            },
        }
    }

    fn companion_deserialize(input: &'a [u8]) -> (r: Result<Self, DecodeError>) {
        let mut rd = SliceReader::new(input);
        let t = match HostCommandType::from_repr(rd.read_u8()?) {
            Some(t) => t,
            None => return Err(DecodeError::InvalidBitPattern),
        };
        let rest = rd.read_rest();
        Ok(
            match t {
                HostCommandType::AppStart => HostCommand::AppStart(AppStart::companion_deserialize(rest)?),
                HostCommandType::SendTxtMsg => HostCommand::SendTxtMsg(SendTxtMsg::companion_deserialize(rest)?),
                HostCommandType::SendChannelTxtMsg => HostCommand::SendChannelTxtMsg(SendChannelTxtMsg::companion_deserialize(rest)?),
                HostCommandType::GetContacts => HostCommand::GetContacts(GetContacts::companion_deserialize(rest)?),
                HostCommandType::GetDeviceTime => HostCommand::GetDeviceTime,
                HostCommandType::SetDeviceTime => HostCommand::SetDeviceTime(SetDeviceTime::companion_deserialize(rest)?),
                HostCommandType::SendSelfAdvert => HostCommand::SendSelfAdvert(SendSelfAdvert::companion_deserialize(rest)?),
                HostCommandType::SetAdvertName => HostCommand::SetAdvertName(SetAdvertName::companion_deserialize(rest)?),
                HostCommandType::AddUpdateContact => HostCommand::AddUpdateContact(AddUpdateContact::companion_deserialize(rest)?),
                HostCommandType::SyncNextMessage => HostCommand::SyncNextMessage,
                HostCommandType::SetRadioParams => HostCommand::SetRadioParams(SetRadioParams::companion_deserialize(rest)?),
                HostCommandType::SetTxPower => HostCommand::SetTxPower(SetTxPower::companion_deserialize(rest)?),
                HostCommandType::ResetPath => HostCommand::ResetPath(ResetPath::companion_deserialize(rest)?),
                HostCommandType::SetAdvertLatLon => HostCommand::SetAdvertLatLon(SetAdvertLatLon::companion_deserialize(rest)?),
                HostCommandType::RemoveContact => HostCommand::RemoveContact(RemoveContact::companion_deserialize(rest)?),
                HostCommandType::ShareContact => HostCommand::ShareContact(ShareContact::companion_deserialize(rest)?),
                HostCommandType::ExportContact => HostCommand::ExportContact(ExportContact::companion_deserialize(rest)?),
                HostCommandType::ImportContact => HostCommand::ImportContact(ImportContact::companion_deserialize(rest)?),
                HostCommandType::Reboot => HostCommand::Reboot,
                HostCommandType::GetBatteryVoltage => HostCommand::GetBatteryVoltage,
                HostCommandType::SetTuningParams => {
                    assert(false);
                    return Err(DecodeError::InvalidBitPattern);
                },
                HostCommandType::DeviceQuery => HostCommand::DeviceQuery(DeviceQuery::companion_deserialize(rest)?),
                HostCommandType::ExportPrivateKey => HostCommand::ExportPrivateKey,
                HostCommandType::ImportPrivateKey => HostCommand::ImportPrivateKey(ImportPrivateKey::companion_deserialize(rest)?),
                HostCommandType::SendRawData => HostCommand::SendRawData(SendRawData::companion_deserialize(rest)?),
                HostCommandType::SendLogin => HostCommand::SendLogin(SendLogin::companion_deserialize(rest)?),
                HostCommandType::SendStatusReq => HostCommand::SendStatusReq(SendStatusReq::companion_deserialize(rest)?),
                HostCommandType::GetChannel => HostCommand::GetChannel(GetChannel::companion_deserialize(rest)?),
                HostCommandType::SetChannel => HostCommand::SetChannel(SetChannel::companion_deserialize(rest)?),
                HostCommandType::SignStart => HostCommand::SignStart,
                HostCommandType::SignData => HostCommand::SignData(SignData::companion_deserialize(rest)?),
                HostCommandType::SignFinish => HostCommand::SignFinish,
                HostCommandType::SendTracePath => HostCommand::SendTracePath(SendTracePath::companion_deserialize(rest)?),
                HostCommandType::SetOtherParams => {
                    assert(false);
                    return Err(DecodeError::InvalidBitPattern);
                },
                HostCommandType::SendTelemetryReq => {
                    assert(false);
                    return Err(DecodeError::InvalidBitPattern);
                },
                HostCommandType::SendBinaryReq => HostCommand::SendBinaryReq(SendBinaryReq::companion_deserialize(rest)?),
                HostCommandType::SetFloodScope => HostCommand::SetFloodScope(SetFloodScope::companion_deserialize(rest)?),
                HostCommandType::GetCustomVars => HostCommand::GetCustomVars,
                HostCommandType::SetCustomVar => HostCommand::SetCustomVar(SetCustomVar::companion_deserialize(rest)?),
                HostCommandType::SendControlData => HostCommand::SendControlData(ControlData::companion_deserialize(rest)?),
                HostCommandType::GetStats => HostCommand::GetStats(GetStats::companion_deserialize(rest)?),
                HostCommandType::SendAnonReq => HostCommand::SendAnonReq(SendAnonReq::companion_deserialize(rest)?),
            },
        )
    }
}

impl<'a> HostCommand<'a> {
    /// The commands that decoding their own bytes gives back: every kind with
    /// a frame layout, under the field conditions of that payload's round trip.
    pub open spec fn spec_roundtrips(&self) -> bool {
        match self {
            HostCommand::SendRawData(c) => c.path.spec_whole() && c.path.spec_fits_header(),
            HostCommand::AddUpdateContact(c) => {
                &&& string_bytes(&c.0.name).len() <= 32
                &&& forall|j: int|
                    0 <= j < string_bytes(&c.0.name).len() ==> string_bytes(&c.0.name)[j] != 0
                &&& c.0.path_to matches Some(p) ==> p.spec_whole() && p.spec_fits_header()
                    && p.bytes@.len() > 0
            },
            HostCommand::SetChannel(c) => {
                &&& str_bytes(c.name).len() <= 32
                &&& forall|j: int| 0 <= j < str_bytes(c.name).len() ==> str_bytes(c.name)[j] != 0
            },
            HostCommand::SendTracePath(c) => c.flags & 0x03 == c.path.mode.spec_bits(),
            HostCommand::SetCustomVar(c) => forall|j: int|
                0 <= j < str_bytes(c.key).len() ==> str_bytes(c.key)[j] != 0x3a,
            HostCommand::SetTuningParams => false,
            HostCommand::SetOtherParams => false,
            HostCommand::SendTelemetryReq => false,
            _ => true,
        }
    }

    /// Decoding the bytes of a host command gives it back.
    pub proof fn lemma_roundtrip(self)
        requires
            self.spec_roundtrips(),
        ensures
            <Self as CompanionSer<'a>>::spec_deserializable(self.spec_wire()),
            <Self as CompanionSer<'a>>::spec_decode_error(self.spec_wire()) is None,
            <Self as CompanionSer<'a>>::spec_decoded(self.spec_wire(), self),
    {
        let w = self.spec_wire();
        self.spec_discriminant().lemma_code_roundtrip();
        assert(tail(w, 1) == self.spec_payload_wire());
        match self {
            HostCommand::AppStart(c) => c.lemma_roundtrip(),
            HostCommand::SendTxtMsg(c) => c.lemma_roundtrip(),
            HostCommand::SendChannelTxtMsg(c) => c.lemma_roundtrip(),
            HostCommand::GetContacts(c) => c.lemma_roundtrip(),
            HostCommand::SetDeviceTime(c) => c.lemma_roundtrip(),
            HostCommand::SendSelfAdvert(c) => c.lemma_roundtrip(),
            HostCommand::SetAdvertName(c) => c.lemma_roundtrip(),
            HostCommand::AddUpdateContact(c) => c.lemma_roundtrip(),
            HostCommand::SetRadioParams(c) => c.lemma_roundtrip(),
            HostCommand::SetTxPower(c) => c.lemma_roundtrip(),
            HostCommand::ResetPath(c) => c.lemma_roundtrip(),
            HostCommand::SetAdvertLatLon(c) => c.lemma_roundtrip(),
            HostCommand::RemoveContact(c) => c.lemma_roundtrip(),
            HostCommand::ShareContact(c) => c.lemma_roundtrip(),
            HostCommand::ExportContact(c) => c.lemma_roundtrip(),
            HostCommand::ImportContact(c) => c.lemma_roundtrip(),
            HostCommand::DeviceQuery(c) => c.lemma_roundtrip(),
            HostCommand::ImportPrivateKey(c) => c.lemma_roundtrip(),
            HostCommand::SendRawData(c) => c.lemma_roundtrip(),
            HostCommand::SendLogin(c) => c.lemma_roundtrip(),
            HostCommand::SendStatusReq(c) => c.lemma_roundtrip(),
            HostCommand::GetChannel(c) => c.lemma_roundtrip(),
            HostCommand::SetChannel(c) => c.lemma_roundtrip(),
            HostCommand::SignData(c) => c.lemma_roundtrip(),
            HostCommand::SendTracePath(c) => c.lemma_roundtrip(),
            HostCommand::SendBinaryReq(c) => c.lemma_roundtrip(),
            HostCommand::SetFloodScope(c) => c.lemma_roundtrip(),
            HostCommand::SetCustomVar(c) => c.lemma_roundtrip(),
            HostCommand::SendControlData(c) => c.lemma_roundtrip(),
            HostCommand::GetStats(c) => c.lemma_roundtrip(),
            HostCommand::SendAnonReq(c) => c.lemma_roundtrip(),
            _ => {},
        }
    }

    /// A host command's frame starts with the protocol's number for its kind,
    /// and a frame read as a command of some kind starts with that kind's
    /// number.
    pub proof fn lemma_leading_byte(self, b: Seq<u8>, v: Self)
        ensures
            self.spec_wire()[0] == (match self {
                HostCommand::AppStart(_) => 1u8,
                HostCommand::SendTxtMsg(_) => 2u8,
                HostCommand::SendChannelTxtMsg(_) => 3u8,
                HostCommand::GetContacts(_) => 4u8,
                HostCommand::GetDeviceTime => 5u8,
                HostCommand::SetDeviceTime(_) => 6u8,
                HostCommand::SendSelfAdvert(_) => 7u8,
                HostCommand::SetAdvertName(_) => 8u8,
                HostCommand::AddUpdateContact(_) => 9u8,
                HostCommand::SyncNextMessage => 10u8,
                HostCommand::SetRadioParams(_) => 11u8,
                HostCommand::SetTxPower(_) => 12u8,
                HostCommand::ResetPath(_) => 13u8,
                HostCommand::SetAdvertLatLon(_) => 14u8,
                HostCommand::RemoveContact(_) => 15u8,
                HostCommand::ShareContact(_) => 16u8,
                HostCommand::ExportContact(_) => 17u8,
                HostCommand::ImportContact(_) => 18u8,
                HostCommand::Reboot => 19u8,
                HostCommand::GetBatteryVoltage => 20u8,
                HostCommand::SetTuningParams => 21u8,
                HostCommand::DeviceQuery(_) => 22u8,
                HostCommand::ExportPrivateKey => 23u8,
                HostCommand::ImportPrivateKey(_) => 24u8,
                HostCommand::SendRawData(_) => 25u8,
                HostCommand::SendLogin(_) => 26u8,
                HostCommand::SendStatusReq(_) => 27u8,
                HostCommand::GetChannel(_) => 31u8,
                HostCommand::SetChannel(_) => 32u8,
                HostCommand::SignStart => 33u8,
                HostCommand::SignData(_) => 34u8,
                HostCommand::SignFinish => 35u8,
                HostCommand::SendTracePath(_) => 36u8,
                HostCommand::SetOtherParams => 38u8,
                HostCommand::SendTelemetryReq => 39u8,
                HostCommand::SendBinaryReq(_) => 50u8,
                HostCommand::SetFloodScope(_) => 54u8,
                HostCommand::GetCustomVars => 40u8,
                HostCommand::SetCustomVar(_) => 41u8,
                HostCommand::SendControlData(_) => 55u8,
                HostCommand::GetStats(_) => 56u8,
                HostCommand::SendAnonReq(_) => 57u8,
            }),
            <Self as CompanionSer<'a>>::spec_decode_error(b) is None
                && <Self as CompanionSer<'a>>::spec_decoded(b, v) ==> b[0] == (match v {
                HostCommand::AppStart(_) => 1u8,
                HostCommand::SendTxtMsg(_) => 2u8,
                HostCommand::SendChannelTxtMsg(_) => 3u8,
                HostCommand::GetContacts(_) => 4u8,
                HostCommand::GetDeviceTime => 5u8,
                HostCommand::SetDeviceTime(_) => 6u8,
                HostCommand::SendSelfAdvert(_) => 7u8,
                HostCommand::SetAdvertName(_) => 8u8,
                HostCommand::AddUpdateContact(_) => 9u8,
                HostCommand::SyncNextMessage => 10u8,
                HostCommand::SetRadioParams(_) => 11u8,
                HostCommand::SetTxPower(_) => 12u8,
                HostCommand::ResetPath(_) => 13u8,
                HostCommand::SetAdvertLatLon(_) => 14u8,
                HostCommand::RemoveContact(_) => 15u8,
                HostCommand::ShareContact(_) => 16u8,
                HostCommand::ExportContact(_) => 17u8,
                HostCommand::ImportContact(_) => 18u8,
                HostCommand::Reboot => 19u8,
                HostCommand::GetBatteryVoltage => 20u8,
                HostCommand::SetTuningParams => 21u8,
                HostCommand::DeviceQuery(_) => 22u8,
                HostCommand::ExportPrivateKey => 23u8,
                HostCommand::ImportPrivateKey(_) => 24u8,
                HostCommand::SendRawData(_) => 25u8,
                HostCommand::SendLogin(_) => 26u8,
                HostCommand::SendStatusReq(_) => 27u8,
                HostCommand::GetChannel(_) => 31u8,
                HostCommand::SetChannel(_) => 32u8,
                HostCommand::SignStart => 33u8,
                HostCommand::SignData(_) => 34u8,
                HostCommand::SignFinish => 35u8,
                HostCommand::SendTracePath(_) => 36u8,
                HostCommand::SetOtherParams => 38u8,
                HostCommand::SendTelemetryReq => 39u8,
                HostCommand::SendBinaryReq(_) => 50u8,
                HostCommand::SetFloodScope(_) => 54u8,
                HostCommand::GetCustomVars => 40u8,
                HostCommand::SetCustomVar(_) => 41u8,
                HostCommand::SendControlData(_) => 55u8,
                HostCommand::GetStats(_) => 56u8,
                HostCommand::SendAnonReq(_) => 57u8,
            }),
    {
        HostCommandType::lemma_protocol_codes(0);
    }

    /// The size a host command reports is the number of bytes it is written
    /// as, except for a trace whose path hashes take more than one byte.
    pub proof fn lemma_ser_size_is_wire_len(self)
        requires
            self.spec_serializable(),
            self matches HostCommand::SendTracePath(c) ==> c.path.mode == PathHashMode::OneByte,
        ensures
            self.spec_ser_size() == self.spec_wire().len(),
    {
    }
}

} // verus!
