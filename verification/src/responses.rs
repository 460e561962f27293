//! Responses and pushes that the companion radio sends to the host. Each
//! frame starts with its response code.
use vstd::prelude::*;
use vstd::utf8::{decode_utf8, decode_utf8_encode_utf8, valid_utf8, valid_utf8_concat};

use crate::mesh::{
    adv_type, known_flags, spec_adv_type, spec_known_flags, DecodeError, Path, PathHashMode,
    PathLen, Permissions, TextType,
};
use crate::wire::{
    byte_i8, i16_at, i16_le, i8_byte, lemma_i16_roundtrip, lemma_u16_roundtrip,
    lemma_u32_roundtrip, lemma_utf8_roundtrip, put_array, put_i16_le, put_i8, put_repeated,
    put_slice, put_str, put_u16_le, put_u32_le, put_u8, read_utf8, repeated, str_bytes, string_bytes,
    tail, u16_at, u16_le, u32_at, u32_le, SliceReader, find_byte, lemma_index_of, lemma_index_of_props,
    lemma_utf8_ascii_byte, lemma_utf8_split_at_ascii, spec_index_of,
};
use crate::commands::read_text_type;
use crate::{lemma_trim_padded, spec_trim_nils, CompanionSer, NullPaddedSlice, NullPaddedString};

verus! {

broadcast use {vstd::seq::group_seq_axioms, vstd::slice::group_slice_axioms};

/// The code that starts each response frame.
#[derive(Clone, Copy, Debug, PartialEq, Eq, Structural)]
pub enum ResponseCodes {
    OkResponse,
    ErrResponse,
    ContactsStart,
    Contact,
    EndOfContacts,
    SelfInfo,
    MsgSent,
    ContactMsgRecv,
    ChannelMsgRecv,
    ContactMsgRecvV3,
    ChannelMsgRecvV3,
    CurrTime,
    NoMoreMessages,
    Battery,
    DeviceInfo,
    ChannelInfo,
    Advertisement,
    Ack,
    MessagesWaiting,
    LogData,
    LoginSuccess,
    SignStart,
    Signature,
    ExportPrivateKey,
    CustomVars,
    TraceData,
    ControlData,
    BinaryResponse,
}

impl ResponseCodes {
    /// The byte of each response code.
    pub open spec fn spec_code(self) -> u8 {
        match self {
            ResponseCodes::OkResponse => 0x00,
            ResponseCodes::ErrResponse => 0x01,
            ResponseCodes::ContactsStart => 0x02,
            ResponseCodes::Contact => 0x03,
            ResponseCodes::EndOfContacts => 0x04,
            ResponseCodes::SelfInfo => 0x05,
            ResponseCodes::MsgSent => 0x06,
            ResponseCodes::ContactMsgRecv => 0x07,
            ResponseCodes::ChannelMsgRecv => 0x08,
            ResponseCodes::ContactMsgRecvV3 => 0x10,
            ResponseCodes::ChannelMsgRecvV3 => 0x11,
            ResponseCodes::CurrTime => 0x09,
            ResponseCodes::NoMoreMessages => 0x0A,
            ResponseCodes::Battery => 0x0C,
            ResponseCodes::DeviceInfo => 0x0D,
            ResponseCodes::ChannelInfo => 0x12,
            ResponseCodes::Advertisement => 0x80,
            ResponseCodes::Ack => 0x82,
            ResponseCodes::MessagesWaiting => 0x83,
            ResponseCodes::LogData => 0x88,
            ResponseCodes::LoginSuccess => 0x85,
            ResponseCodes::SignStart => 0x13,
            ResponseCodes::Signature => 0x14,
            ResponseCodes::ExportPrivateKey => 0x0E,
            ResponseCodes::CustomVars => 0x15,
            ResponseCodes::TraceData => 0x89,
            ResponseCodes::ControlData => 0x8E,
            ResponseCodes::BinaryResponse => 0x8C,
        }
    }

    /// The byte of this response code.
    pub fn code(self) -> (b: u8)
        ensures
            b == self.spec_code(),
    {
        match self {
            ResponseCodes::OkResponse => 0x00,
            ResponseCodes::ErrResponse => 0x01,
            ResponseCodes::ContactsStart => 0x02,
            ResponseCodes::Contact => 0x03,
            ResponseCodes::EndOfContacts => 0x04,
            ResponseCodes::SelfInfo => 0x05,
            ResponseCodes::MsgSent => 0x06,
            ResponseCodes::ContactMsgRecv => 0x07,
            ResponseCodes::ChannelMsgRecv => 0x08,
            ResponseCodes::ContactMsgRecvV3 => 0x10,
            ResponseCodes::ChannelMsgRecvV3 => 0x11,
            ResponseCodes::CurrTime => 0x09,
            ResponseCodes::NoMoreMessages => 0x0A,
            ResponseCodes::Battery => 0x0C,
            ResponseCodes::DeviceInfo => 0x0D,
            ResponseCodes::ChannelInfo => 0x12,
            ResponseCodes::Advertisement => 0x80,
            ResponseCodes::Ack => 0x82,
            ResponseCodes::MessagesWaiting => 0x83,
            ResponseCodes::LogData => 0x88,
            ResponseCodes::LoginSuccess => 0x85,
            ResponseCodes::SignStart => 0x13,
            ResponseCodes::Signature => 0x14,
            ResponseCodes::ExportPrivateKey => 0x0E,
            ResponseCodes::CustomVars => 0x15,
            ResponseCodes::TraceData => 0x89,
            ResponseCodes::ControlData => 0x8E,
            ResponseCodes::BinaryResponse => 0x8C,
        }
    }

    /// The protocol's byte for every response code.
    pub proof fn lemma_protocol_codes()
        ensures
            ResponseCodes::OkResponse.spec_code() == 0x00,
            ResponseCodes::ErrResponse.spec_code() == 0x01,
            ResponseCodes::ContactsStart.spec_code() == 0x02,
            ResponseCodes::Contact.spec_code() == 0x03,
            ResponseCodes::EndOfContacts.spec_code() == 0x04,
            ResponseCodes::SelfInfo.spec_code() == 0x05,
            ResponseCodes::MsgSent.spec_code() == 0x06,
            ResponseCodes::ContactMsgRecv.spec_code() == 0x07,
            ResponseCodes::ChannelMsgRecv.spec_code() == 0x08,
            ResponseCodes::ContactMsgRecvV3.spec_code() == 0x10,
            ResponseCodes::ChannelMsgRecvV3.spec_code() == 0x11,
            ResponseCodes::CurrTime.spec_code() == 0x09,
            ResponseCodes::NoMoreMessages.spec_code() == 0x0A,
            ResponseCodes::Battery.spec_code() == 0x0C,
            ResponseCodes::DeviceInfo.spec_code() == 0x0D,
            ResponseCodes::ChannelInfo.spec_code() == 0x12,
            ResponseCodes::Advertisement.spec_code() == 0x80,
            ResponseCodes::Ack.spec_code() == 0x82,
            ResponseCodes::MessagesWaiting.spec_code() == 0x83,
            ResponseCodes::LogData.spec_code() == 0x88,
            ResponseCodes::LoginSuccess.spec_code() == 0x85,
            ResponseCodes::SignStart.spec_code() == 0x13,
            ResponseCodes::Signature.spec_code() == 0x14,
            ResponseCodes::ExportPrivateKey.spec_code() == 0xe,
            ResponseCodes::CustomVars.spec_code() == 0x15,
            ResponseCodes::TraceData.spec_code() == 0x89,
            ResponseCodes::ControlData.spec_code() == 0x8E,
            ResponseCodes::BinaryResponse.spec_code() == 0x8C,
    {
    }

    /// No two response codes share a byte, so a byte names at most one.
    pub proof fn lemma_code_injective(self, other: ResponseCodes)
        ensures
            self.spec_code() == other.spec_code() ==> self == other,
    {
    }

    /// The response code whose byte is `b`, if any.
    pub fn from_repr(b: u8) -> (r: Option<ResponseCodes>)
        ensures
            r matches Some(c) ==> c.spec_code() == b,
            r is None ==> forall|c: ResponseCodes| c.spec_code() != b,
    {
        if b == 0x00 {
            Some(ResponseCodes::OkResponse)
        } else if b == 0x01 {
            Some(ResponseCodes::ErrResponse)
        } else if b == 0x02 {
            Some(ResponseCodes::ContactsStart)
        } else if b == 0x03 {
            Some(ResponseCodes::Contact)
        } else if b == 0x04 {
            Some(ResponseCodes::EndOfContacts)
        } else if b == 0x05 {
            Some(ResponseCodes::SelfInfo)
        } else if b == 0x06 {
            Some(ResponseCodes::MsgSent)
        } else if b == 0x07 {
            Some(ResponseCodes::ContactMsgRecv)
        } else if b == 0x08 {
            Some(ResponseCodes::ChannelMsgRecv)
        } else if b == 0x10 {
            Some(ResponseCodes::ContactMsgRecvV3)
        } else if b == 0x11 {
            Some(ResponseCodes::ChannelMsgRecvV3)
        } else if b == 0x09 {
            Some(ResponseCodes::CurrTime)
        } else if b == 0x0A {
            Some(ResponseCodes::NoMoreMessages)
        } else if b == 0x0C {
            Some(ResponseCodes::Battery)
        } else if b == 0x0D {
            Some(ResponseCodes::DeviceInfo)
        } else if b == 0x12 {
            Some(ResponseCodes::ChannelInfo)
        } else if b == 0x80 {
            Some(ResponseCodes::Advertisement)
        } else if b == 0x82 {
            Some(ResponseCodes::Ack)
        } else if b == 0x83 {
            Some(ResponseCodes::MessagesWaiting)
        } else if b == 0x88 {
            Some(ResponseCodes::LogData)
        } else if b == 0x85 {
            Some(ResponseCodes::LoginSuccess)
        } else if b == 0x13 {
            Some(ResponseCodes::SignStart)
        } else if b == 0x14 {
            Some(ResponseCodes::Signature)
        } else if b == 0x0E {
            Some(ResponseCodes::ExportPrivateKey)
        } else if b == 0x15 {
            Some(ResponseCodes::CustomVars)
        } else if b == 0x89 {
            Some(ResponseCodes::TraceData)
        } else if b == 0x8E {
            Some(ResponseCodes::ControlData)
        } else if b == 0x8C {
            Some(ResponseCodes::BinaryResponse)
        } else {
            None
        }
    }
}

/// Which statistics a stats request or response is about.
#[derive(Clone, Copy, Debug, PartialEq, Eq, Structural)]
pub enum StatTypes {
    Core,
    Radio,
    Packets,
}

impl StatTypes {
    /// The byte of each statistics kind.
    pub open spec fn spec_code(self) -> u8 {
        match self {
            StatTypes::Core => 0,
            StatTypes::Radio => 1,
            StatTypes::Packets => 2,
        }
    }

    /// The protocol's byte for every statistics kind, and the kind each byte
    /// is read as.
    pub proof fn lemma_protocol_codes(b: u8)
        ensures
            StatTypes::Core.spec_code() == 0,
            StatTypes::Radio.spec_code() == 1,
            StatTypes::Packets.spec_code() == 2,
            StatTypes::spec_from_repr(0) == Some(StatTypes::Core),
            StatTypes::spec_from_repr(1) == Some(StatTypes::Radio),
            StatTypes::spec_from_repr(2) == Some(StatTypes::Packets),
            b > 2 ==> StatTypes::spec_from_repr(b) is None,
    {
    }

    /// The statistics kind whose byte is `b`, if any.
    pub open spec fn spec_from_repr(b: u8) -> Option<StatTypes> {
        if b == 0 {
            Some(StatTypes::Core)
        } else if b == 1 {
            Some(StatTypes::Radio)
        } else if b == 2 {
            Some(StatTypes::Packets)
        } else {
            None
        }
    }

    /// The byte of this statistics kind.
    pub fn code(self) -> (b: u8)
        ensures
            b == self.spec_code(),
    {
        match self {
            StatTypes::Core => 0,
            StatTypes::Radio => 1,
            StatTypes::Packets => 2,
        }
    }

    /// The statistics kind whose byte is `b`, if any.
    pub fn from_repr(b: u8) -> (r: Option<StatTypes>)
        ensures
            r == Self::spec_from_repr(b),
    {
        if b == 0 {
            Some(StatTypes::Core)
        } else if b == 1 {
            Some(StatTypes::Radio)
        } else if b == 2 {
            Some(StatTypes::Packets)
        } else {
            None
        }
    }
}

/// Why reading response code `code` from the front of `b` fails, or `None`.
pub open spec fn spec_code_error(b: Seq<u8>, code: u8) -> Option<DecodeError> {
    if b.len() < 1 {
        Some(DecodeError::UnexpectedEof)
    } else if b[0] != code {
        Some(DecodeError::InvalidBitPattern)
    } else {
        None
    }
}

/// Takes the response code byte, which must be `code`.
pub fn expect_code(rd: &mut SliceReader, code: u8) -> (r: Result<(), DecodeError>)
    requires
        old(rd).spec_wf(),
        old(rd).pos == 0,
    ensures
        final(rd).spec_wf(),
        final(rd).data == old(rd).data,
        r is Ok <==> spec_code_error(old(rd).data@, code) is None,
        r matches Err(e) ==> spec_code_error(old(rd).data@, code) == Some(e),
        r is Ok ==> final(rd).pos == 1,
{
    if rd.read_u8()? != code {
        return Err(DecodeError::InvalidBitPattern);
    }
    Ok(())
}

// ---------------------------------------------------------------------------

/// Battery voltage in millivolts and storage use in kilobytes.
pub struct Battery {
    pub battery_voltage: u16,
    pub used_storage: u32,
    pub total_storage: u32,
}

impl<'a> CompanionSer<'a> for Battery {
    open spec fn spec_wire(&self) -> Seq<u8> {
        seq![ResponseCodes::Battery.spec_code()] + u16_le(self.battery_voltage) + u32_le(self.used_storage) + u32_le(self.total_storage)
    }

    open spec fn spec_decode_error(b: Seq<u8>) -> Option<DecodeError> {
        if spec_code_error(b, ResponseCodes::Battery.spec_code()) is Some {
            spec_code_error(b, ResponseCodes::Battery.spec_code())
        } else if b.len() < 11 {
            Some(DecodeError::UnexpectedEof)
        } else {
            None
        }
    }

    open spec fn spec_decoded(b: Seq<u8>, v: Self) -> bool {
        &&& v.battery_voltage == u16_at(b, 1)
        &&& v.used_storage == u32_at(b, 3)
        &&& v.total_storage == u32_at(b, 7)
    }

    fn ser_size(&self) -> (n: usize) {
        11
    }

    fn write_wire(&self, out: &mut Vec<u8>) {
        put_u8(out, ResponseCodes::Battery.code());
        put_u16_le(out, self.battery_voltage);
        put_u32_le(out, self.used_storage);
        put_u32_le(out, self.total_storage);
    }

    fn companion_deserialize(input: &'a [u8]) -> (r: Result<Self, DecodeError>) {
        let mut rd = SliceReader::new(input);
        expect_code(&mut rd, ResponseCodes::Battery.code())?;
        let battery_voltage = rd.read_u16_le()?;
        let used_storage = rd.read_u32_le()?;
        let total_storage = rd.read_u32_le()?;
        Ok(Battery { battery_voltage, used_storage, total_storage })
    }
}

impl Battery {
    /// Decoding the bytes of a `Battery` gives it back.
    pub proof fn lemma_roundtrip(self)
        ensures
            <Self as CompanionSer<'static>>::spec_decode_error(self.spec_wire()) is None,
            <Self as CompanionSer<'static>>::spec_decoded(self.spec_wire(), self),
    {
        let w = self.spec_wire();
        lemma_u16_roundtrip(self.battery_voltage, tail(w, 3));
        assert(tail(w, 1) == u16_le(self.battery_voltage) + tail(w, 3));
        lemma_u32_roundtrip(self.used_storage, tail(w, 7));
        assert(tail(w, 3) == u32_le(self.used_storage) + tail(w, 7));
        lemma_u32_roundtrip(self.total_storage, tail(w, 11));
        assert(tail(w, 7) == u32_le(self.total_storage) + tail(w, 11));
    }

    /// Where each field of a decoded `Battery` is read from in its frame: the
    /// frame layout, byte by byte.
    pub proof fn lemma_decoded_fields(b: Seq<u8>, v: Self)
        requires
            <Self as CompanionSer<'static>>::spec_decode_error(b) is None,
            <Self as CompanionSer<'static>>::spec_decoded(b, v),
        ensures
            v.battery_voltage == u16_at(b, 1),
            v.used_storage == u32_at(b, 3),
            v.total_storage == u32_at(b, 7) ,
    {
    }
}

// ---------------------------------------------------------------------------

/// A message went out: how it was routed, the ack to expect and how long to wait for it.
pub struct MsgSent {
    pub is_flood: bool,
    pub expected_ack: [u8; 4],
    pub suggested_timeout: u32,
}

impl<'a> CompanionSer<'a> for MsgSent {
    open spec fn spec_wire(&self) -> Seq<u8> {
        seq![ResponseCodes::MsgSent.spec_code()] + seq![if self.is_flood { 1u8 } else { 0u8 }] + self.expected_ack@ + u32_le(self.suggested_timeout)
    }

    open spec fn spec_decode_error(b: Seq<u8>) -> Option<DecodeError> {
        if spec_code_error(b, ResponseCodes::MsgSent.spec_code()) is Some {
            spec_code_error(b, ResponseCodes::MsgSent.spec_code())
        } else if b.len() < 10 {
            Some(DecodeError::UnexpectedEof)
        } else {
            None
        }
    }

    open spec fn spec_decoded(b: Seq<u8>, v: Self) -> bool {
        &&& v.is_flood == (b[1] > 0)
        &&& v.expected_ack@ == b.subrange(2, 6)
        &&& v.suggested_timeout == u32_at(b, 6)
    }

    fn ser_size(&self) -> (n: usize) {
        10
    }

    fn write_wire(&self, out: &mut Vec<u8>) {
        put_u8(out, ResponseCodes::MsgSent.code());
        put_u8(out, if self.is_flood { 1 } else { 0 });
        put_array(out, &self.expected_ack);
        put_u32_le(out, self.suggested_timeout);
    }

    fn companion_deserialize(input: &'a [u8]) -> (r: Result<Self, DecodeError>) {
        let mut rd = SliceReader::new(input);
        expect_code(&mut rd, ResponseCodes::MsgSent.code())?;
        let is_flood = rd.read_u8()? > 0;
        let expected_ack = rd.read_chunk::<4>()?;
        let suggested_timeout = rd.read_u32_le()?;
        Ok(MsgSent { is_flood, expected_ack, suggested_timeout })
    }
}

impl MsgSent {
    /// Decoding the bytes of a `MsgSent` gives it back.
    pub proof fn lemma_roundtrip(self)
        ensures
            <Self as CompanionSer<'static>>::spec_decode_error(self.spec_wire()) is None,
            <Self as CompanionSer<'static>>::spec_decoded(self.spec_wire(), self),
    {
        let w = self.spec_wire();
        assert(w.subrange(2, 6) == self.expected_ack@);
        lemma_u32_roundtrip(self.suggested_timeout, tail(w, 10));
        assert(tail(w, 6) == u32_le(self.suggested_timeout) + tail(w, 10));
    }

    /// Where each field of a decoded `MsgSent` is read from in its frame: the
    /// frame layout, byte by byte.
    pub proof fn lemma_decoded_fields(b: Seq<u8>, v: Self)
        requires
            <Self as CompanionSer<'static>>::spec_decode_error(b) is None,
            <Self as CompanionSer<'static>>::spec_decoded(b, v),
        ensures
            v.is_flood == (b[1] > 0),
            v.expected_ack@ == b.subrange(2, 6),
            v.suggested_timeout == u32_at(b, 6) ,
    {
    }
}

// ---------------------------------------------------------------------------

/// The contact list follows, with this many contacts.
pub struct ContactStart {
    pub contacts: u32,
}

impl<'a> CompanionSer<'a> for ContactStart {
    open spec fn spec_wire(&self) -> Seq<u8> {
        seq![ResponseCodes::ContactsStart.spec_code()] + u32_le(self.contacts)
    }

    open spec fn spec_decode_error(b: Seq<u8>) -> Option<DecodeError> {
        if spec_code_error(b, ResponseCodes::ContactsStart.spec_code()) is Some {
            spec_code_error(b, ResponseCodes::ContactsStart.spec_code())
        } else if b.len() < 5 {
            Some(DecodeError::UnexpectedEof)
        } else {
            None
        }
    }

    open spec fn spec_decoded(b: Seq<u8>, v: Self) -> bool {
        &&& v.contacts == u32_at(b, 1)
    }

    fn ser_size(&self) -> (n: usize) {
        5
    }

    fn write_wire(&self, out: &mut Vec<u8>) {
        put_u8(out, ResponseCodes::ContactsStart.code());
        put_u32_le(out, self.contacts);
    }

    fn companion_deserialize(input: &'a [u8]) -> (r: Result<Self, DecodeError>) {
        let mut rd = SliceReader::new(input);
        expect_code(&mut rd, ResponseCodes::ContactsStart.code())?;
        let contacts = rd.read_u32_le()?;
        Ok(ContactStart { contacts })
    }
}

impl ContactStart {
    /// Decoding the bytes of a `ContactStart` gives it back.
    pub proof fn lemma_roundtrip(self)
        ensures
            <Self as CompanionSer<'static>>::spec_decode_error(self.spec_wire()) is None,
            <Self as CompanionSer<'static>>::spec_decoded(self.spec_wire(), self),
    {
        let w = self.spec_wire();
        lemma_u32_roundtrip(self.contacts, tail(w, 5));
        assert(tail(w, 1) == u32_le(self.contacts) + tail(w, 5));
    }

    /// Where each field of a decoded `ContactStart` is read from in its frame: the
    /// frame layout, byte by byte.
    pub proof fn lemma_decoded_fields(b: Seq<u8>, v: Self)
        requires
            <Self as CompanionSer<'static>>::spec_decode_error(b) is None,
            <Self as CompanionSer<'static>>::spec_decoded(b, v),
        ensures
            v.contacts == u32_at(b, 1) ,
    {
    }
}

// ---------------------------------------------------------------------------

/// The contact list is complete; the time of its last change.
pub struct ContactEnd {
    pub last_mod: u32,
}

impl<'a> CompanionSer<'a> for ContactEnd {
    open spec fn spec_wire(&self) -> Seq<u8> {
        seq![ResponseCodes::EndOfContacts.spec_code()] + u32_le(self.last_mod)
    }

    open spec fn spec_decode_error(b: Seq<u8>) -> Option<DecodeError> {
        if spec_code_error(b, ResponseCodes::EndOfContacts.spec_code()) is Some {
            spec_code_error(b, ResponseCodes::EndOfContacts.spec_code())
        } else if b.len() < 5 {
            Some(DecodeError::UnexpectedEof)
        } else {
            None
        }
    }

    open spec fn spec_decoded(b: Seq<u8>, v: Self) -> bool {
        &&& v.last_mod == u32_at(b, 1)
    }

    fn ser_size(&self) -> (n: usize) {
        5
    }

    fn write_wire(&self, out: &mut Vec<u8>) {
        put_u8(out, ResponseCodes::EndOfContacts.code());
        put_u32_le(out, self.last_mod);
    }

    fn companion_deserialize(input: &'a [u8]) -> (r: Result<Self, DecodeError>) {
        let mut rd = SliceReader::new(input);
        expect_code(&mut rd, ResponseCodes::EndOfContacts.code())?;
        let last_mod = rd.read_u32_le()?;
        Ok(ContactEnd { last_mod })
    }
}

impl ContactEnd {
    /// Decoding the bytes of a `ContactEnd` gives it back.
    pub proof fn lemma_roundtrip(self)
        ensures
            <Self as CompanionSer<'static>>::spec_decode_error(self.spec_wire()) is None,
            <Self as CompanionSer<'static>>::spec_decoded(self.spec_wire(), self),
    {
        let w = self.spec_wire();
        lemma_u32_roundtrip(self.last_mod, tail(w, 5));
        assert(tail(w, 1) == u32_le(self.last_mod) + tail(w, 5));
    }

    /// Where each field of a decoded `ContactEnd` is read from in its frame: the
    /// frame layout, byte by byte.
    pub proof fn lemma_decoded_fields(b: Seq<u8>, v: Self)
        requires
            <Self as CompanionSer<'static>>::spec_decode_error(b) is None,
            <Self as CompanionSer<'static>>::spec_decoded(b, v),
        ensures
            v.last_mod == u32_at(b, 1) ,
    {
    }
}

// ---------------------------------------------------------------------------

/// A sent message was acknowledged.
pub struct Ack {
    pub code: [u8; 4],
}

impl<'a> CompanionSer<'a> for Ack {
    open spec fn spec_wire(&self) -> Seq<u8> {
        seq![ResponseCodes::Ack.spec_code()] + self.code@
    }

    open spec fn spec_decode_error(b: Seq<u8>) -> Option<DecodeError> {
        if spec_code_error(b, ResponseCodes::Ack.spec_code()) is Some {
            spec_code_error(b, ResponseCodes::Ack.spec_code())
        } else if b.len() < 5 {
            Some(DecodeError::UnexpectedEof)
        } else {
            None
        }
    }

    open spec fn spec_decoded(b: Seq<u8>, v: Self) -> bool {
        &&& v.code@ == b.subrange(1, 5)
    }

    fn ser_size(&self) -> (n: usize) {
        5
    }

    fn write_wire(&self, out: &mut Vec<u8>) {
        put_u8(out, ResponseCodes::Ack.code());
        put_array(out, &self.code);
    }

    fn companion_deserialize(input: &'a [u8]) -> (r: Result<Self, DecodeError>) {
        let mut rd = SliceReader::new(input);
        expect_code(&mut rd, ResponseCodes::Ack.code())?;
        let code = rd.read_chunk::<4>()?;
        Ok(Ack { code })
    }
}

impl Ack {
    /// Decoding the bytes of an `Ack` gives it back.
    pub proof fn lemma_roundtrip(self)
        ensures
            <Self as CompanionSer<'static>>::spec_decode_error(self.spec_wire()) is None,
            <Self as CompanionSer<'static>>::spec_decoded(self.spec_wire(), self),
    {
        let w = self.spec_wire();
        assert(w.subrange(1, 5) == self.code@);
    }

    /// Where each field of a decoded `Ack` is read from in its frame: the
    /// frame layout, byte by byte.
    pub proof fn lemma_decoded_fields(b: Seq<u8>, v: Self)
        requires
            <Self as CompanionSer<'static>>::spec_decode_error(b) is None,
            <Self as CompanionSer<'static>>::spec_decoded(b, v),
        ensures
            v.code@ == b.subrange(1, 5) ,
    {
    }
}

// ---------------------------------------------------------------------------

/// The device clock.
pub struct CurrentTime {
    pub time: u32,
}

impl<'a> CompanionSer<'a> for CurrentTime {
    open spec fn spec_wire(&self) -> Seq<u8> {
        seq![ResponseCodes::CurrTime.spec_code()] + u32_le(self.time)
    }

    open spec fn spec_decode_error(b: Seq<u8>) -> Option<DecodeError> {
        if spec_code_error(b, ResponseCodes::CurrTime.spec_code()) is Some {
            spec_code_error(b, ResponseCodes::CurrTime.spec_code())
        } else if b.len() < 5 {
            Some(DecodeError::UnexpectedEof)
        } else {
            None
        }
    }

    open spec fn spec_decoded(b: Seq<u8>, v: Self) -> bool {
        &&& v.time == u32_at(b, 1)
    }

    fn ser_size(&self) -> (n: usize) {
        5
    }

    fn write_wire(&self, out: &mut Vec<u8>) {
        put_u8(out, ResponseCodes::CurrTime.code());
        put_u32_le(out, self.time);
    }

    fn companion_deserialize(input: &'a [u8]) -> (r: Result<Self, DecodeError>) {
        let mut rd = SliceReader::new(input);
        expect_code(&mut rd, ResponseCodes::CurrTime.code())?;
        let time = rd.read_u32_le()?;
        Ok(CurrentTime { time })
    }
}

impl CurrentTime {
    /// Decoding the bytes of a `CurrentTime` gives it back.
    pub proof fn lemma_roundtrip(self)
        ensures
            <Self as CompanionSer<'static>>::spec_decode_error(self.spec_wire()) is None,
            <Self as CompanionSer<'static>>::spec_decoded(self.spec_wire(), self),
    {
        let w = self.spec_wire();
        lemma_u32_roundtrip(self.time, tail(w, 5));
        assert(tail(w, 1) == u32_le(self.time) + tail(w, 5));
    }

    /// Where each field of a decoded `CurrentTime` is read from in its frame: the
    /// frame layout, byte by byte.
    pub proof fn lemma_decoded_fields(b: Seq<u8>, v: Self)
        requires
            <Self as CompanionSer<'static>>::spec_decode_error(b) is None,
            <Self as CompanionSer<'static>>::spec_decoded(b, v),
        ensures
            v.time == u32_at(b, 1) ,
    {
    }
}

// ---------------------------------------------------------------------------

/// A login to a repeater or room server succeeded, with these permissions.
pub struct LoginSuccess {
    pub permissions: Permissions,
    pub prefix: [u8; 6],
}

impl<'a> CompanionSer<'a> for LoginSuccess {
    open spec fn spec_wire(&self) -> Seq<u8> {
        seq![ResponseCodes::LoginSuccess.spec_code(), self.permissions.0] + self.prefix@
    }

    open spec fn spec_decode_error(b: Seq<u8>) -> Option<DecodeError> {
        if spec_code_error(b, ResponseCodes::LoginSuccess.spec_code()) is Some {
            spec_code_error(b, ResponseCodes::LoginSuccess.spec_code())
        } else if b.len() < 8 {
            Some(DecodeError::UnexpectedEof)
        } else {
            None
        }
    }

    open spec fn spec_decoded(b: Seq<u8>, v: Self) -> bool {
        &&& v.permissions.0 == b[1]
        &&& v.prefix@ == b.subrange(2, 8)
    }

    fn ser_size(&self) -> (n: usize) {
        8
    }

    fn write_wire(&self, out: &mut Vec<u8>) {
        put_u8(out, ResponseCodes::LoginSuccess.code());
        put_u8(out, self.permissions.into_byte());
        put_array(out, &self.prefix);
    }

    fn companion_deserialize(input: &'a [u8]) -> (r: Result<Self, DecodeError>) {
        let mut rd = SliceReader::new(input);
        expect_code(&mut rd, ResponseCodes::LoginSuccess.code())?;
        let permissions = Permissions::from_byte(rd.read_u8()?);
        let prefix = rd.read_chunk::<6>()?;
        Ok(LoginSuccess { permissions, prefix })
    }
}

impl LoginSuccess {
    /// Decoding the bytes of a `LoginSuccess` gives it back.
    pub proof fn lemma_roundtrip(self)
        ensures
            <Self as CompanionSer<'static>>::spec_decode_error(self.spec_wire()) is None,
            <Self as CompanionSer<'static>>::spec_decoded(self.spec_wire(), self),
    {
        assert(self.spec_wire().subrange(2, 8) == self.prefix@);
    }

    /// Where each field of a decoded `LoginSuccess` is read from in its frame: the
    /// frame layout, byte by byte.
    pub proof fn lemma_decoded_fields(b: Seq<u8>, v: Self)
        requires
            <Self as CompanionSer<'static>>::spec_decode_error(b) is None,
            <Self as CompanionSer<'static>>::spec_decoded(b, v),
        ensures
            v.permissions.0 == b[1],
            v.prefix@ == b.subrange(2, 8) ,
    {
    }
}

// ---------------------------------------------------------------------------

/// Signing has started; at most this many bytes can be signed.
pub struct SignStart {
    pub reserved: u8,
    pub max_len: u32,
}

impl<'a> CompanionSer<'a> for SignStart {
    open spec fn spec_wire(&self) -> Seq<u8> {
        seq![ResponseCodes::SignStart.spec_code()] + seq![self.reserved] + u32_le(self.max_len)
    }

    open spec fn spec_decode_error(b: Seq<u8>) -> Option<DecodeError> {
        if spec_code_error(b, ResponseCodes::SignStart.spec_code()) is Some {
            spec_code_error(b, ResponseCodes::SignStart.spec_code())
        } else if b.len() < 6 {
            Some(DecodeError::UnexpectedEof)
        } else {
            None
        }
    }

    open spec fn spec_decoded(b: Seq<u8>, v: Self) -> bool {
        &&& v.reserved == b[1]
        &&& v.max_len == u32_at(b, 2)
    }

    fn ser_size(&self) -> (n: usize) {
        6
    }

    fn write_wire(&self, out: &mut Vec<u8>) {
        put_u8(out, ResponseCodes::SignStart.code());
        put_u8(out, self.reserved);
        put_u32_le(out, self.max_len);
    }

    fn companion_deserialize(input: &'a [u8]) -> (r: Result<Self, DecodeError>) {
        let mut rd = SliceReader::new(input);
        expect_code(&mut rd, ResponseCodes::SignStart.code())?;
        let reserved = rd.read_u8()?;
        let max_len = rd.read_u32_le()?;
        Ok(SignStart { reserved, max_len })
    }
}

impl SignStart {
    /// Decoding the bytes of a `SignStart` gives it back.
    pub proof fn lemma_roundtrip(self)
        ensures
            <Self as CompanionSer<'static>>::spec_decode_error(self.spec_wire()) is None,
            <Self as CompanionSer<'static>>::spec_decoded(self.spec_wire(), self),
    {
        let w = self.spec_wire();
        lemma_u32_roundtrip(self.max_len, tail(w, 6));
        assert(tail(w, 2) == u32_le(self.max_len) + tail(w, 6));
    }

    /// Where each field of a decoded `SignStart` is read from in its frame: the
    /// frame layout, byte by byte.
    pub proof fn lemma_decoded_fields(b: Seq<u8>, v: Self)
        requires
            <Self as CompanionSer<'static>>::spec_decode_error(b) is None,
            <Self as CompanionSer<'static>>::spec_decoded(b, v),
        ensures
            v.reserved == b[1],
            v.max_len == u32_at(b, 2) ,
    {
    }
}

// ---------------------------------------------------------------------------

/// The signature over the data sent since sign start.
pub struct SignatureResponse {
    pub signature: [u8; 64],
}

impl<'a> CompanionSer<'a> for SignatureResponse {
    open spec fn spec_wire(&self) -> Seq<u8> {
        seq![ResponseCodes::Signature.spec_code()] + self.signature@
    }

    open spec fn spec_decode_error(b: Seq<u8>) -> Option<DecodeError> {
        if spec_code_error(b, ResponseCodes::Signature.spec_code()) is Some {
            spec_code_error(b, ResponseCodes::Signature.spec_code())
        } else if b.len() < 65 {
            Some(DecodeError::UnexpectedEof)
        } else {
            None
        }
    }

    open spec fn spec_decoded(b: Seq<u8>, v: Self) -> bool {
        &&& v.signature@ == b.subrange(1, 65)
    }

    fn ser_size(&self) -> (n: usize) {
        65
    }

    fn write_wire(&self, out: &mut Vec<u8>) {
        put_u8(out, ResponseCodes::Signature.code());
        put_array(out, &self.signature);
    }

    fn companion_deserialize(input: &'a [u8]) -> (r: Result<Self, DecodeError>) {
        let mut rd = SliceReader::new(input);
        expect_code(&mut rd, ResponseCodes::Signature.code())?;
        let signature = rd.read_chunk::<64>()?;
        Ok(SignatureResponse { signature })
    }
}

impl SignatureResponse {
    /// Decoding the bytes of a `SignatureResponse` gives it back.
    pub proof fn lemma_roundtrip(self)
        ensures
            <Self as CompanionSer<'static>>::spec_decode_error(self.spec_wire()) is None,
            <Self as CompanionSer<'static>>::spec_decoded(self.spec_wire(), self),
    {
        let w = self.spec_wire();
        assert(w.subrange(1, 65) == self.signature@);
    }

    /// Where each field of a decoded `SignatureResponse` is read from in its frame: the
    /// frame layout, byte by byte.
    pub proof fn lemma_decoded_fields(b: Seq<u8>, v: Self)
        requires
            <Self as CompanionSer<'static>>::spec_decode_error(b) is None,
            <Self as CompanionSer<'static>>::spec_decoded(b, v),
        ensures
            v.signature@ == b.subrange(1, 65) ,
    {
    }
}

// ---------------------------------------------------------------------------

/// The node's exported private key.
pub struct PrivateKeyResponse {
    pub key: [u8; 64],
}

impl<'a> CompanionSer<'a> for PrivateKeyResponse {
    open spec fn spec_wire(&self) -> Seq<u8> {
        seq![ResponseCodes::ExportPrivateKey.spec_code()] + self.key@
    }

    open spec fn spec_decode_error(b: Seq<u8>) -> Option<DecodeError> {
        if spec_code_error(b, ResponseCodes::ExportPrivateKey.spec_code()) is Some {
            spec_code_error(b, ResponseCodes::ExportPrivateKey.spec_code())
        } else if b.len() < 65 {
            Some(DecodeError::UnexpectedEof)
        } else {
            None
        }
    }

    open spec fn spec_decoded(b: Seq<u8>, v: Self) -> bool {
        &&& v.key@ == b.subrange(1, 65)
    }

    fn ser_size(&self) -> (n: usize) {
        65
    }

    fn write_wire(&self, out: &mut Vec<u8>) {
        put_u8(out, ResponseCodes::ExportPrivateKey.code());
        put_array(out, &self.key);
    }

    fn companion_deserialize(input: &'a [u8]) -> (r: Result<Self, DecodeError>) {
        let mut rd = SliceReader::new(input);
        expect_code(&mut rd, ResponseCodes::ExportPrivateKey.code())?;
        let key = rd.read_chunk::<64>()?;
        Ok(PrivateKeyResponse { key })
    }
}

impl PrivateKeyResponse {
    /// Decoding the bytes of a `PrivateKeyResponse` gives it back.
    pub proof fn lemma_roundtrip(self)
        ensures
            <Self as CompanionSer<'static>>::spec_decode_error(self.spec_wire()) is None,
            <Self as CompanionSer<'static>>::spec_decoded(self.spec_wire(), self),
    {
        let w = self.spec_wire();
        assert(w.subrange(1, 65) == self.key@);
    }

    /// Where each field of a decoded `PrivateKeyResponse` is read from in its frame: the
    /// frame layout, byte by byte.
    pub proof fn lemma_decoded_fields(b: Seq<u8>, v: Self)
        requires
            <Self as CompanionSer<'static>>::spec_decode_error(b) is None,
            <Self as CompanionSer<'static>>::spec_decoded(b, v),
        ensures
            v.key@ == b.subrange(1, 65) ,
    {
    }
}

// ---------------------------------------------------------------------------

/// A command succeeded, optionally with a result code.
pub struct OkResponse {
    pub code: Option<u32>,
}

impl<'a> CompanionSer<'a> for OkResponse {
    open spec fn spec_wire(&self) -> Seq<u8> {
        seq![ResponseCodes::OkResponse.spec_code()] + match self.code {
            Some(c) => u32_le(c),
            None => Seq::empty(),
        }
    }

    open spec fn spec_decode_error(b: Seq<u8>) -> Option<DecodeError> {
        spec_code_error(b, ResponseCodes::OkResponse.spec_code())
    }

    open spec fn spec_decoded(b: Seq<u8>, v: Self) -> bool {
        v.code == if b.len() >= 5 {
            Some(u32_at(b, 1))
        } else {
            None
        }
    }

    fn ser_size(&self) -> (n: usize) {
        1 + if self.code.is_some() {
            4
        } else {
            0
        }
    }

    fn write_wire(&self, out: &mut Vec<u8>) {
        put_u8(out, ResponseCodes::OkResponse.code());
        match self.code {
            Some(code) => put_u32_le(out, code),
            None => {
                assert(out@ == out@ + Seq::<u8>::empty());
            },
        }
    }

    fn companion_deserialize(input: &'a [u8]) -> (r: Result<Self, DecodeError>) {
        let mut rd = SliceReader::new(input);
        expect_code(&mut rd, ResponseCodes::OkResponse.code())?;
        match rd.read_u32_le() {
            Result::Ok(c) => Result::Ok(OkResponse { code: Some(c) }),
            Result::Err(_) => Result::Ok(OkResponse { code: None }),
        }
    }
}

impl OkResponse {
    /// Decoding the bytes of an `OkResponse` gives it back.
    pub proof fn lemma_roundtrip(self)
        ensures
            <Self as CompanionSer<'static>>::spec_decode_error(self.spec_wire()) is None,
            <Self as CompanionSer<'static>>::spec_decoded(self.spec_wire(), self),
    {
        let w = self.spec_wire();
        if let Some(c) = self.code {
            lemma_u32_roundtrip(c, Seq::empty());
            assert(tail(w, 1) == u32_le(c) + Seq::<u8>::empty());
        }
    }

    /// Where each field of a decoded `OkResponse` is read from in its frame: the
    /// frame layout, byte by byte.
    pub proof fn lemma_decoded_fields(b: Seq<u8>, v: Self)
        requires
            <Self as CompanionSer<'static>>::spec_decode_error(b) is None,
            <Self as CompanionSer<'static>>::spec_decoded(b, v),
        ensures
            v.code == if b.len() >= 5 { Some(u32_at(b, 1)) } else { None } ,
    {
    }
}

// ---------------------------------------------------------------------------

/// A command failed, optionally with an error code. It is written with the
/// `OkResponse` code, while reading expects the `ErrResponse` code.
pub struct ErrResponse {
    pub code: Option<u8>,
}

impl<'a> CompanionSer<'a> for ErrResponse {
    open spec fn spec_wire(&self) -> Seq<u8> {
        seq![ResponseCodes::OkResponse.spec_code()] + match self.code {
            Some(c) => seq![c],
            None => Seq::empty(),
        }
    }

    open spec fn spec_decode_error(b: Seq<u8>) -> Option<DecodeError> {
        spec_code_error(b, ResponseCodes::ErrResponse.spec_code())
    }

    open spec fn spec_decoded(b: Seq<u8>, v: Self) -> bool {
        v.code == if b.len() >= 2 {
            Some(b[1])
        } else {
            None
        }
    }

    fn ser_size(&self) -> (n: usize) {
        1 + if self.code.is_some() {
            1
        } else {
            0
        }
    }

    fn write_wire(&self, out: &mut Vec<u8>) {
        put_u8(out, ResponseCodes::OkResponse.code());
        match self.code {
            Some(code) => put_u8(out, code),
            None => {
                assert(out@ == out@ + Seq::<u8>::empty());
            },
        }
    }

    fn companion_deserialize(input: &'a [u8]) -> (r: Result<Self, DecodeError>) {
        let mut rd = SliceReader::new(input);
        expect_code(&mut rd, ResponseCodes::ErrResponse.code())?;
        match rd.read_chunk::<1>() {
            Result::Ok(rem) => Result::Ok(ErrResponse { code: Some(rem[0]) }),
            Result::Err(_) => Result::Ok(ErrResponse { code: None }),
        }
    }
}

impl ErrResponse {
    /// Its own reader refuses its bytes, which start with the `OkResponse`
    /// code; behind the `ErrResponse` code the rest of them reads back as it.
    pub proof fn lemma_read_behind_err_code(self)
        ensures
            <Self as CompanionSer<'static>>::spec_decode_error(self.spec_wire()) == Some(
                DecodeError::InvalidBitPattern,
            ),
            <Self as CompanionSer<'static>>::spec_decode_error(
                seq![ResponseCodes::ErrResponse.spec_code()] + tail(self.spec_wire(), 1),
            ) is None,
            <Self as CompanionSer<'static>>::spec_decoded(
                seq![ResponseCodes::ErrResponse.spec_code()] + tail(self.spec_wire(), 1),
                self,
            ),
    {
    }

    /// Where each field of a decoded `ErrResponse` is read from in its frame: the
    /// frame layout, byte by byte.
    pub proof fn lemma_decoded_fields(b: Seq<u8>, v: Self)
        requires
            <Self as CompanionSer<'static>>::spec_decode_error(b) is None,
            <Self as CompanionSer<'static>>::spec_decoded(b, v),
        ensures
            v.code == if b.len() >= 2 { Some(b[1]) } else { None } ,
    {
    }
}

/// A command's answer: its result, or the device's error.
pub type CompanionProtoResult<T> = Result<T, ErrResponse>;

impl<'a, T: CompanionSer<'a>> CompanionSer<'a> for CompanionProtoResult<T> {
    open spec fn spec_wire(&self) -> Seq<u8> {
        match self {
            Result::Ok(r) => r.spec_wire(),
            Result::Err(e) => e.spec_wire(),
        }
    }

    open spec fn spec_serializable(&self) -> bool {
        match self {
            Result::Ok(r) => r.spec_serializable(),
            Result::Err(e) => e.spec_serializable(),
        }
    }

    open spec fn spec_ser_size(&self) -> int {
        match self {
            Result::Ok(r) => r.spec_ser_size(),
            Result::Err(e) => e.spec_ser_size(),
        }
    }

    open spec fn spec_sizable(&self) -> bool {
        match self {
            Result::Ok(r) => r.spec_sizable(),
            Result::Err(e) => e.spec_sizable(),
        }
    }

    open spec fn spec_decode_error(b: Seq<u8>) -> Option<DecodeError> {
        if b.len() < 1 {
            Some(DecodeError::UnexpectedEof)
        } else if b[0] == ResponseCodes::ErrResponse.spec_code() {
            <ErrResponse as CompanionSer<'a>>::spec_decode_error(b)
        } else {
            T::spec_decode_error(b)
        }
    }

    open spec fn spec_decoded(b: Seq<u8>, v: Self) -> bool {
        if b[0] == ResponseCodes::ErrResponse.spec_code() {
            v matches Result::Err(e) && <ErrResponse as CompanionSer<'a>>::spec_decoded(b, e)
        } else {
            v matches Result::Ok(r) && T::spec_decoded(b, r)
        }
    }

    open spec fn spec_deserializable(b: Seq<u8>) -> bool {
        b.len() >= 1 && b[0] != ResponseCodes::ErrResponse.spec_code() ==> T::spec_deserializable(b)
    }

    fn ser_size(&self) -> (n: usize) {
        match self {
            Result::Ok(r) => r.ser_size(),
            Result::Err(e) => e.ser_size(),
        }
    }

    fn write_wire(&self, out: &mut Vec<u8>) {
        match self {
            Result::Ok(r) => r.write_wire(out),
            Result::Err(e) => e.write_wire(out),
        }
    }

    fn companion_deserialize(input: &'a [u8]) -> (r: Result<Self, DecodeError>) {
        if input.len() < 1 {
            return Result::Err(DecodeError::UnexpectedEof);
        }
        if input[0] == ResponseCodes::ErrResponse.code() {
            Result::Ok(Result::Err(ErrResponse::companion_deserialize(input)?))
        } else {
            Result::Ok(Result::Ok(T::companion_deserialize(input)?))
        }
    }
}

/// A result frame that does not start with the `ErrResponse` code is read as
/// a success: it fails or decodes exactly as the result type's own frame does.
pub proof fn lemma_result_passes_through<'a, T: CompanionSer<'a>>(b: Seq<u8>, v: T)
    requires
        b.len() >= 1,
        b[0] != ResponseCodes::ErrResponse.spec_code(),
    ensures
        <CompanionProtoResult<T> as CompanionSer<'a>>::spec_decode_error(b) == T::spec_decode_error(
            b,
        ),
        <CompanionProtoResult<T> as CompanionSer<'a>>::spec_decoded(b, Result::Ok(v))
            <==> T::spec_decoded(b, v),
{
}

// ---------------------------------------------------------------------------

/// The node's own settings and identity, answered to `AppStart`.
pub struct SelfInfo<'a> {
    pub advertisement_type: u8,
    pub tx_power: u8,
    pub max_tx_power: u8,
    pub public_key: [u8; 32],
    pub lat: u32,
    pub long: u32,
    pub multi_acks: u8,
    pub adv_loc_policy: u8,
    pub telemetry_mode: u8,
    pub manual_add_contacts: bool,
    pub radio_freq: u32,
    pub radio_bandwidth: u32,
    pub radio_sf: u8,
    pub radio_cr: u8,
    pub device_name: &'a str,
}

impl<'a> CompanionSer<'a> for SelfInfo<'a> {
    open spec fn spec_wire(&self) -> Seq<u8> {
        seq![
            ResponseCodes::SelfInfo.spec_code(),
            self.advertisement_type,
            self.tx_power,
            self.max_tx_power,
        ] + self.public_key@ + u32_le(self.lat) + u32_le(self.long) + seq![
            self.multi_acks,
            self.adv_loc_policy,
            self.telemetry_mode,
            if self.manual_add_contacts {
                1u8
            } else {
                0u8
            },
        ] + u32_le(self.radio_freq) + u32_le(self.radio_bandwidth) + seq![
            self.radio_sf,
            self.radio_cr,
        ] + str_bytes(self.device_name)
    }

    open spec fn spec_decode_error(b: Seq<u8>) -> Option<DecodeError> {
        if spec_code_error(b, ResponseCodes::SelfInfo.spec_code()) is Some {
            spec_code_error(b, ResponseCodes::SelfInfo.spec_code())
        } else if b.len() < 58 {
            Some(DecodeError::UnexpectedEof)
        } else if !valid_utf8(tail(b, 58)) {
            Some(DecodeError::InvalidUtf8)
        } else {
            None
        }
    }

    open spec fn spec_decoded(b: Seq<u8>, v: Self) -> bool {
        &&& v.advertisement_type == b[1]
        &&& v.tx_power == b[2]
        &&& v.max_tx_power == b[3]
        &&& v.public_key@ == b.subrange(4, 36)
        &&& v.lat == u32_at(b, 36)
        &&& v.long == u32_at(b, 40)
        &&& v.multi_acks == b[44]
        &&& v.adv_loc_policy == b[45]
        &&& v.telemetry_mode == b[46]
        &&& v.manual_add_contacts == (b[47] > 0)
        &&& v.radio_freq == u32_at(b, 48)
        &&& v.radio_bandwidth == u32_at(b, 52)
        &&& v.radio_sf == b[56]
        &&& v.radio_cr == b[57]
        &&& v.device_name@ == decode_utf8(tail(b, 58))
    }

    fn ser_size(&self) -> (n: usize) {
        4 + 32 + 4 * 2 + 4 + 4 * 2 + 2 + self.device_name.len()
    }

    fn write_wire(&self, out: &mut Vec<u8>) {
        put_u8(out, ResponseCodes::SelfInfo.code());
        put_u8(out, self.advertisement_type);
        put_u8(out, self.tx_power);
        put_u8(out, self.max_tx_power);
        put_array(out, &self.public_key);
        put_u32_le(out, self.lat);
        put_u32_le(out, self.long);
        put_u8(out, self.multi_acks);
        put_u8(out, self.adv_loc_policy);
        put_u8(out, self.telemetry_mode);
        put_u8(
            out,
            if self.manual_add_contacts {
                1
            } else {
                0
            },
        );
        put_u32_le(out, self.radio_freq);
        put_u32_le(out, self.radio_bandwidth);
        put_u8(out, self.radio_sf);
        put_u8(out, self.radio_cr);
        put_str(out, self.device_name);
    }

    fn companion_deserialize(input: &'a [u8]) -> (r: Result<Self, DecodeError>) {
        let mut rd = SliceReader::new(input);
        expect_code(&mut rd, ResponseCodes::SelfInfo.code())?;
        let advertisement_type = rd.read_u8()?;
        let tx_power = rd.read_u8()?;
        let max_tx_power = rd.read_u8()?;
        let public_key = rd.read_chunk::<32>()?;
        let lat = rd.read_u32_le()?;
        let long = rd.read_u32_le()?;
        let multi_acks = rd.read_u8()?;
        let adv_loc_policy = rd.read_u8()?;
        let telemetry_mode = rd.read_u8()?;
        let manual_add_contacts = rd.read_u8()? > 0;
        let radio_freq = rd.read_u32_le()?;
        let radio_bandwidth = rd.read_u32_le()?;
        let radio_sf = rd.read_u8()?;
        let radio_cr = rd.read_u8()?;
        let device_name = read_utf8(rd.read_rest())?;
        Ok(SelfInfo {
            advertisement_type,
            tx_power,
            max_tx_power,
            public_key,
            lat,
            long,
            multi_acks,
            adv_loc_policy,
            telemetry_mode,
            manual_add_contacts,
            radio_freq,
            radio_bandwidth,
            radio_sf,
            radio_cr,
            device_name,
        })
    }
}

impl<'a> SelfInfo<'a> {
    /// Decoding the bytes of a `SelfInfo` gives it back.
    pub proof fn lemma_roundtrip(self)
        ensures
            <Self as CompanionSer<'a>>::spec_decode_error(self.spec_wire()) is None,
            <Self as CompanionSer<'a>>::spec_decoded(self.spec_wire(), self),
    {
        let w = self.spec_wire();
        lemma_utf8_roundtrip(self.device_name@);
        assert(w.subrange(4, 36) == self.public_key@);
        lemma_u32_roundtrip(self.lat, tail(w, 40));
        assert(tail(w, 36) == u32_le(self.lat) + tail(w, 40));
        lemma_u32_roundtrip(self.long, tail(w, 44));
        assert(tail(w, 40) == u32_le(self.long) + tail(w, 44));
        lemma_u32_roundtrip(self.radio_freq, tail(w, 52));
        assert(tail(w, 48) == u32_le(self.radio_freq) + tail(w, 52));
        lemma_u32_roundtrip(self.radio_bandwidth, tail(w, 56));
        assert(tail(w, 52) == u32_le(self.radio_bandwidth) + tail(w, 56));
        assert(tail(w, 58) == str_bytes(self.device_name));
    }

    /// Where each field of a decoded `SelfInfo` is read from in its frame: the
    /// frame layout, byte by byte.
    pub proof fn lemma_decoded_fields(b: Seq<u8>, v: Self)
        requires
            <Self as CompanionSer<'a>>::spec_decode_error(b) is None,
            <Self as CompanionSer<'a>>::spec_decoded(b, v),
        ensures
            v.advertisement_type == b[1],
            v.tx_power == b[2],
            v.max_tx_power == b[3],
            v.public_key@ == b.subrange(4, 36),
            v.lat == u32_at(b, 36),
            v.long == u32_at(b, 40),
            v.multi_acks == b[44],
            v.adv_loc_policy == b[45],
            v.telemetry_mode == b[46],
            v.manual_add_contacts == (b[47] > 0),
            v.radio_freq == u32_at(b, 48),
            v.radio_bandwidth == u32_at(b, 52),
            v.radio_sf == b[56],
            v.radio_cr == b[57],
            v.device_name@ == decode_utf8(tail(b, 58)) ,
    {
    }

    /// Where each field is written: code 5, advert type, power and maximum
    /// power at 1..4, the public key at 4..36, latitude and longitude at 36
    /// and 40, the four setting bytes at 44..48, the radio frequency at 48,
    /// the bandwidth at 52, spreading factor and coding rate at 56 and 57,
    /// then the name.
    pub proof fn lemma_written_fields(self)
        ensures
            self.spec_wire()[0] == 5,
            self.spec_wire()[1] == self.advertisement_type,
            self.spec_wire()[2] == self.tx_power,
            self.spec_wire()[3] == self.max_tx_power,
            self.spec_wire().subrange(4, 36) == self.public_key@,
            u32_at(self.spec_wire(), 36) == self.lat,
            u32_at(self.spec_wire(), 40) == self.long,
            self.spec_wire()[44] == self.multi_acks,
            self.spec_wire()[45] == self.adv_loc_policy,
            self.spec_wire()[46] == self.telemetry_mode,
            self.spec_wire()[47] == (if self.manual_add_contacts {
                1u8
            } else {
                0u8
            }),
            u32_at(self.spec_wire(), 48) == self.radio_freq,
            u32_at(self.spec_wire(), 52) == self.radio_bandwidth,
            self.spec_wire()[56] == self.radio_sf,
            self.spec_wire()[57] == self.radio_cr,
            tail(self.spec_wire(), 58) == str_bytes(self.device_name),
    {
        self.lemma_roundtrip();
        Self::lemma_decoded_fields(self.spec_wire(), self);
        assert(tail(self.spec_wire(), 58) == str_bytes(self.device_name));
    }
}

// ---------------------------------------------------------------------------

/// The device's firmware and hardware, answered to `DeviceQuery`. The three
/// text fields are written into 12, 40 and 20 bytes but read back from 32
/// bytes each.
pub struct DeviceInfo<'a> {
    pub fw_version: u8,
    pub max_contacts: u8,
    pub max_channels: u8,
    pub ble_pin: u32,
    pub firmware_build: NullPaddedSlice<'a, 12>,
    pub model: NullPaddedSlice<'a, 40>,
    pub version: NullPaddedSlice<'a, 20>,
    pub client_repeat_enabled: bool,
    pub path_hash_mode: u8,
}

impl<'a> CompanionSer<'a> for DeviceInfo<'a> {
    open spec fn spec_wire(&self) -> Seq<u8> {
        seq![
            ResponseCodes::DeviceInfo.spec_code(),
            self.fw_version,
            self.max_contacts,
            self.max_channels,
        ] + u32_le(self.ble_pin) + self.firmware_build.spec_encoded() + self.model.spec_encoded()
            + self.version.spec_encoded() + seq![
            if self.client_repeat_enabled {
                1u8
            } else {
                0u8
            },
            self.path_hash_mode,
        ]
    }

    open spec fn spec_serializable(&self) -> bool {
        &&& self.firmware_build.spec_fits()
        &&& self.model.spec_fits()
        &&& self.version.spec_fits()
    }

    open spec fn spec_ser_size(&self) -> int {
        82
    }

    open spec fn spec_decode_error(b: Seq<u8>) -> Option<DecodeError> {
        if spec_code_error(b, ResponseCodes::DeviceInfo.spec_code()) is Some {
            spec_code_error(b, ResponseCodes::DeviceInfo.spec_code())
        } else if b.len() < 106 {
            Some(DecodeError::UnexpectedEof)
        } else {
            None
        }
    }

    open spec fn spec_decoded(b: Seq<u8>, v: Self) -> bool {
        &&& v.fw_version == b[1]
        &&& v.max_contacts == b[2]
        &&& v.max_channels == b[3]
        &&& v.ble_pin == u32_at(b, 4)
        &&& v.firmware_build.0@ == spec_trim_nils(b.subrange(8, 40))
        &&& v.model.0@ == spec_trim_nils(b.subrange(40, 72))
        &&& v.version.0@ == spec_trim_nils(b.subrange(72, 104))
        &&& v.client_repeat_enabled == (b[104] > 0)
        &&& v.path_hash_mode == b[105]
    }

    fn ser_size(&self) -> (n: usize) {
        4 + 4 + 12 + 40 + 20 + 1 + 1
    }

    fn write_wire(&self, out: &mut Vec<u8>) {
        put_u8(out, ResponseCodes::DeviceInfo.code());
        put_u8(out, self.fw_version);
        put_u8(out, self.max_contacts);
        put_u8(out, self.max_channels);
        put_u32_le(out, self.ble_pin);
        self.firmware_build.encode_to(out);
        self.model.encode_to(out);
        self.version.encode_to(out);
        put_u8(
            out,
            if self.client_repeat_enabled {
                1
            } else {
                0
            },
        );
        put_u8(out, self.path_hash_mode);
    }

    fn companion_deserialize(input: &'a [u8]) -> (r: Result<Self, DecodeError>) {
        let mut rd = SliceReader::new(input);
        expect_code(&mut rd, ResponseCodes::DeviceInfo.code())?;
        let fw_version = rd.read_u8()?;
        let max_contacts = rd.read_u8()?;
        let max_channels = rd.read_u8()?;
        let ble_pin = rd.read_u32_le()?;
        let firmware_build = NullPaddedSlice::<'a, 12>::read(&mut rd)?;
        let model = NullPaddedSlice::<'a, 40>::read(&mut rd)?;
        let version = NullPaddedSlice::<'a, 20>::read(&mut rd)?;
        let client_repeat_enabled = rd.read_u8()? > 0;
        let path_hash_mode = rd.read_u8()?;
        Ok(DeviceInfo {
            fw_version,
            max_contacts,
            max_channels,
            ble_pin,
            firmware_build,
            model,
            version,
            client_repeat_enabled,
            path_hash_mode,
        })
    }
}

impl<'a> DeviceInfo<'a> {
    /// Where each field is written: code `0x0d`, firmware version, maximum
    /// contacts and channels at 1..4, the BLE pin at 4..8, the firmware build,
    /// model and version padded to 12, 40 and 20 bytes at 8, 20 and 60, then
    /// the client-repeat flag and path hash mode at 80 and 81.
    pub proof fn lemma_written_fields(self)
        requires
            self.spec_serializable(),
        ensures
            self.spec_wire().len() == 82,
            self.spec_wire()[0] == 0x0d,
            self.spec_wire()[1] == self.fw_version,
            self.spec_wire()[2] == self.max_contacts,
            self.spec_wire()[3] == self.max_channels,
            u32_at(self.spec_wire(), 4) == self.ble_pin,
            self.spec_wire().subrange(8, 20) == self.firmware_build.0@ + repeated(
                0,
                (12 - self.firmware_build.0@.len()) as nat,
            ),
            self.spec_wire().subrange(20, 60) == self.model.0@ + repeated(
                0,
                (40 - self.model.0@.len()) as nat,
            ),
            self.spec_wire().subrange(60, 80) == self.version.0@ + repeated(
                0,
                (20 - self.version.0@.len()) as nat,
            ),
            self.spec_wire()[80] == (if self.client_repeat_enabled {
                1u8
            } else {
                0u8
            }),
            self.spec_wire()[81] == self.path_hash_mode,
    {
        let w = self.spec_wire();
        lemma_u32_roundtrip(self.ble_pin, tail(w, 8));
        assert(tail(w, 4) == u32_le(self.ble_pin) + tail(w, 8));
        assert(w.subrange(8, 20) == self.firmware_build.spec_encoded());
        assert(w.subrange(20, 60) == self.model.spec_encoded());
        assert(w.subrange(60, 80) == self.version.spec_encoded());
    }

    /// Its bytes are 82 long while its reader takes 106, each padded field
    /// being read as 32 bytes: decoding them always runs out of input.
    pub proof fn lemma_own_bytes_too_short(self)
        requires
            self.spec_serializable(),
        ensures
            self.spec_wire().len() == 82,
            <Self as CompanionSer<'a>>::spec_decode_error(self.spec_wire()) == Some(
                DecodeError::UnexpectedEof,
            ),
    {
    }

    /// Where each field of a decoded `DeviceInfo` is read from in its frame: the
    /// frame layout, byte by byte.
    pub proof fn lemma_decoded_fields(b: Seq<u8>, v: Self)
        requires
            <Self as CompanionSer<'a>>::spec_decode_error(b) is None,
            <Self as CompanionSer<'a>>::spec_decoded(b, v),
        ensures
            v.fw_version == b[1],
            v.max_contacts == b[2],
            v.max_channels == b[3],
            v.ble_pin == u32_at(b, 4),
            v.firmware_build.0@ == spec_trim_nils(b.subrange(8, 40)),
            v.model.0@ == spec_trim_nils(b.subrange(40, 72)),
            v.version.0@ == spec_trim_nils(b.subrange(72, 104)),
            v.client_repeat_enabled == (b[104] > 0),
            v.path_hash_mode == b[105] ,
    {
    }
}

// ---------------------------------------------------------------------------

/// A channel's settings, answered to `GetChannel`.
pub struct ChannelInfo<'a> {
    pub idx: u8,
    pub name: NullPaddedString<'a, 32>,
    pub secret: [u8; 16],
}

impl<'a> CompanionSer<'a> for ChannelInfo<'a> {
    open spec fn spec_wire(&self) -> Seq<u8> {
        seq![ResponseCodes::ChannelInfo.spec_code(), self.idx] + self.name.spec_encoded()
            + self.secret@
    }

    open spec fn spec_serializable(&self) -> bool {
        self.name.spec_fits()
    }

    open spec fn spec_ser_size(&self) -> int {
        50
    }

    open spec fn spec_decode_error(b: Seq<u8>) -> Option<DecodeError> {
        if spec_code_error(b, ResponseCodes::ChannelInfo.spec_code()) is Some {
            spec_code_error(b, ResponseCodes::ChannelInfo.spec_code())
        } else if b.len() < 2 {
            Some(DecodeError::UnexpectedEof)
        } else if NullPaddedString::<'a, 32>::spec_read_error(b, 2) is Some {
            NullPaddedString::<'a, 32>::spec_read_error(b, 2)
        } else if b.len() < 50 {
            Some(DecodeError::UnexpectedEof)
        } else {
            None
        }
    }

    open spec fn spec_decoded(b: Seq<u8>, v: Self) -> bool {
        &&& v.idx == b[1]
        &&& v.name.0@ == NullPaddedString::<'a, 32>::spec_read_text(b, 2)
        &&& v.secret@ == b.subrange(34, 50)
    }

    fn ser_size(&self) -> (n: usize) {
        2 + 32 + 16
    }

    fn write_wire(&self, out: &mut Vec<u8>) {
        put_u8(out, ResponseCodes::ChannelInfo.code());
        put_u8(out, self.idx);
        self.name.encode_to(out);
        put_array(out, &self.secret);
    }

    fn companion_deserialize(input: &'a [u8]) -> (r: Result<Self, DecodeError>) {
        let mut rd = SliceReader::new(input);
        expect_code(&mut rd, ResponseCodes::ChannelInfo.code())?;
        let idx = rd.read_u8()?;
        let name = NullPaddedString::<'a, 32>::read(&mut rd)?;
        let secret = rd.read_chunk::<16>()?;
        Ok(ChannelInfo { idx, name, secret })
    }
}

impl<'a> ChannelInfo<'a> {
    /// Decoding the bytes of a `ChannelInfo` gives it back when its name fits
    /// the 32-byte field and holds no nil.
    pub proof fn lemma_roundtrip(self)
        requires
            self.name.spec_fits(),
            forall|j: int|
                0 <= j < str_bytes(self.name.0).len() ==> str_bytes(self.name.0)[j] != 0,
        ensures
            <Self as CompanionSer<'a>>::spec_decode_error(self.spec_wire()) is None,
            <Self as CompanionSer<'a>>::spec_decoded(self.spec_wire(), self),
    {
        let w = self.spec_wire();
        let n = str_bytes(self.name.0);
        let pad = repeated(0, (32 - n.len()) as nat);
        lemma_trim_padded(n, (32 - n.len()) as nat);
        lemma_utf8_roundtrip(self.name.0@);
        assert(w.subrange(2, 34) == n + pad);
        assert(w.subrange(34, 50) == self.secret@);
    }

    /// The size it reports is the number of bytes it is written as when its
    /// name fits the field.
    pub proof fn lemma_ser_size_is_wire_len(self)
        requires
            self.name.spec_fits(),
        ensures
            self.spec_ser_size() == self.spec_wire().len(),
    {
    }

    /// Where each field of a decoded `ChannelInfo` is read from in its frame: the
    /// frame layout, byte by byte.
    pub proof fn lemma_decoded_fields(b: Seq<u8>, v: Self)
        requires
            <Self as CompanionSer<'a>>::spec_decode_error(b) is None,
            <Self as CompanionSer<'a>>::spec_decoded(b, v),
        ensures
            v.idx == b[1],
            v.name.0@ == NullPaddedString::<'a, 32>::spec_read_text(b, 2),
            v.secret@ == b.subrange(34, 50) ,
    {
    }
}

// ---------------------------------------------------------------------------

/// A raw packet the radio heard, with its signal quality.
pub struct RfLogData<'a> {
    pub snr: i8,
    pub rssi: i8,
    pub data: &'a [u8],
}

impl<'a> CompanionSer<'a> for RfLogData<'a> {
    open spec fn spec_wire(&self) -> Seq<u8> {
        seq![ResponseCodes::LogData.spec_code(), i8_byte(self.snr), i8_byte(self.rssi)]
            + self.data@
    }

    open spec fn spec_decode_error(b: Seq<u8>) -> Option<DecodeError> {
        if spec_code_error(b, ResponseCodes::LogData.spec_code()) is Some {
            spec_code_error(b, ResponseCodes::LogData.spec_code())
        } else if b.len() < 3 {
            Some(DecodeError::UnexpectedEof)
        } else {
            None
        }
    }

    open spec fn spec_decoded(b: Seq<u8>, v: Self) -> bool {
        &&& v.snr == byte_i8(b[1])
        &&& v.rssi == byte_i8(b[2])
        &&& v.data@ == tail(b, 3)
    }

    fn ser_size(&self) -> (n: usize) {
        3 + self.data.len()
    }

    fn write_wire(&self, out: &mut Vec<u8>) {
        put_u8(out, ResponseCodes::LogData.code());
        put_i8(out, self.snr);
        put_i8(out, self.rssi);
        put_slice(out, self.data);
    }

    fn companion_deserialize(input: &'a [u8]) -> (r: Result<Self, DecodeError>) {
        let mut rd = SliceReader::new(input);
        expect_code(&mut rd, ResponseCodes::LogData.code())?;
        let snr = rd.read_i8()?;
        let rssi = rd.read_i8()?;
        Ok(RfLogData { snr, rssi, data: rd.read_rest() })
    }
}

impl<'a> RfLogData<'a> {
    /// Decoding the bytes of an `RfLogData` gives it back.
    pub proof fn lemma_roundtrip(self)
        ensures
            <Self as CompanionSer<'a>>::spec_decode_error(self.spec_wire()) is None,
            <Self as CompanionSer<'a>>::spec_decoded(self.spec_wire(), self),
    {
        assert(tail(self.spec_wire(), 3) == self.data@);
    }

    /// Where each field of a decoded `RfLogData` is read from in its frame: the
    /// frame layout, byte by byte.
    pub proof fn lemma_decoded_fields(b: Seq<u8>, v: Self)
        requires
            <Self as CompanionSer<'a>>::spec_decode_error(b) is None,
            <Self as CompanionSer<'a>>::spec_decoded(b, v),
        ensures
            v.snr == byte_i8(b[1]),
            v.rssi == byte_i8(b[2]),
            v.data@ == tail(b, 3) ,
    {
    }
}

// ---------------------------------------------------------------------------

/// A control packet the radio heard, with its signal quality and path length.
pub struct ControlData<'a> {
    pub snr: i8,
    pub rssi: i8,
    pub path_len: u8,
    pub payload: &'a [u8],
}

impl<'a> CompanionSer<'a> for ControlData<'a> {
    open spec fn spec_wire(&self) -> Seq<u8> {
        seq![
            ResponseCodes::ControlData.spec_code(),
            i8_byte(self.snr),
            i8_byte(self.rssi),
            self.path_len,
        ] + self.payload@
    }

    open spec fn spec_decode_error(b: Seq<u8>) -> Option<DecodeError> {
        if spec_code_error(b, ResponseCodes::ControlData.spec_code()) is Some {
            spec_code_error(b, ResponseCodes::ControlData.spec_code())
        } else if b.len() < 4 {
            Some(DecodeError::UnexpectedEof)
        } else {
            None
        }
    }

    open spec fn spec_decoded(b: Seq<u8>, v: Self) -> bool {
        &&& v.snr == byte_i8(b[1])
        &&& v.rssi == byte_i8(b[2])
        &&& v.path_len == b[3]
        &&& v.payload@ == tail(b, 4)
    }

    open spec fn spec_ser_size(&self) -> int {
        4 + self.payload@.len() as int
    }

    fn ser_size(&self) -> (n: usize) {
        1 + 1 + 1 + 1 + self.payload.len()
    }

    fn write_wire(&self, out: &mut Vec<u8>) {
        put_u8(out, ResponseCodes::ControlData.code());
        put_i8(out, self.snr);
        put_i8(out, self.rssi);
        put_u8(out, self.path_len);
        put_slice(out, self.payload);
    }

    fn companion_deserialize(input: &'a [u8]) -> (r: Result<Self, DecodeError>) {
        let mut rd = SliceReader::new(input);
        expect_code(&mut rd, ResponseCodes::ControlData.code())?;
        let snr = rd.read_i8()?;
        let rssi = rd.read_i8()?;
        let path_len = rd.read_u8()?;
        Ok(ControlData { snr, rssi, path_len, payload: rd.read_rest() })
    }
}

impl<'a> ControlData<'a> {
    /// Decoding the bytes of a `ControlData` gives it back.
    pub proof fn lemma_roundtrip(self)
        ensures
            <Self as CompanionSer<'a>>::spec_decode_error(self.spec_wire()) is None,
            <Self as CompanionSer<'a>>::spec_decoded(self.spec_wire(), self),
    {
        assert(tail(self.spec_wire(), 4) == self.payload@);
    }

    /// Where each field of a decoded `ControlData` is read from in its frame: the
    /// frame layout, byte by byte.
    pub proof fn lemma_decoded_fields(b: Seq<u8>, v: Self)
        requires
            <Self as CompanionSer<'a>>::spec_decode_error(b) is None,
            <Self as CompanionSer<'a>>::spec_decoded(b, v),
        ensures
            v.snr == byte_i8(b[1]),
            v.rssi == byte_i8(b[2]),
            v.path_len == b[3],
            v.payload@ == tail(b, 4) ,
    {
    }
}

// ---------------------------------------------------------------------------

/// The answer to a binary request.
pub struct BinaryResponse<'a> {
    pub data: &'a [u8],
}

impl<'a> CompanionSer<'a> for BinaryResponse<'a> {
    open spec fn spec_wire(&self) -> Seq<u8> {
        seq![ResponseCodes::BinaryResponse.spec_code(), 0u8] + self.data@
    }

    open spec fn spec_decode_error(b: Seq<u8>) -> Option<DecodeError> {
        if spec_code_error(b, ResponseCodes::BinaryResponse.spec_code()) is Some {
            spec_code_error(b, ResponseCodes::BinaryResponse.spec_code())
        } else if b.len() < 2 {
            Some(DecodeError::UnexpectedEof)
        } else {
            None
        }
    }

    open spec fn spec_decoded(b: Seq<u8>, v: Self) -> bool {
        v.data@ == tail(b, 2)
    }

    fn ser_size(&self) -> (n: usize) {
        1 + 1 + self.data.len()
    }

    fn write_wire(&self, out: &mut Vec<u8>) {
        put_u8(out, ResponseCodes::BinaryResponse.code());
        put_u8(out, 0);
        put_slice(out, self.data);
    }

    fn companion_deserialize(input: &'a [u8]) -> (r: Result<Self, DecodeError>) {
        let mut rd = SliceReader::new(input);
        expect_code(&mut rd, ResponseCodes::BinaryResponse.code())?;
        let _reserved = rd.read_u8()?;
        Ok(BinaryResponse { data: rd.read_rest() })
    }
}

impl<'a> BinaryResponse<'a> {
    /// Decoding the bytes of a `BinaryResponse` gives it back.
    pub proof fn lemma_roundtrip(self)
        ensures
            <Self as CompanionSer<'a>>::spec_decode_error(self.spec_wire()) is None,
            <Self as CompanionSer<'a>>::spec_decoded(self.spec_wire(), self),
    {
        assert(tail(self.spec_wire(), 2) == self.data@);
    }

    /// Where each field of a decoded `BinaryResponse` is read from in its frame: the
    /// frame layout, byte by byte.
    pub proof fn lemma_decoded_fields(b: Seq<u8>, v: Self)
        requires
            <Self as CompanionSer<'a>>::spec_decode_error(b) is None,
            <Self as CompanionSer<'a>>::spec_decoded(b, v),
        ensures
            v.data@ == tail(b, 2) ,
    {
    }
}

// ---------------------------------------------------------------------------

/// A channel message that arrived.
#[derive(Debug, Clone)]
pub struct ChannelMsgRecv<'a> {
    pub snr: i8,
    pub reserved: [u8; 2],
    pub idx: u8,
    pub path_len: u8,
    pub text_ty: TextType,
    pub timestamp: u32,
    pub data: &'a [u8],
}

impl<'a> CompanionSer<'a> for ChannelMsgRecv<'a> {
    open spec fn spec_wire(&self) -> Seq<u8> {
        seq![ResponseCodes::ChannelMsgRecvV3.spec_code(), i8_byte(self.snr)] + self.reserved@
            + seq![self.idx, self.path_len, self.text_ty.spec_code()] + u32_le(self.timestamp)
            + self.data@
    }

    open spec fn spec_decode_error(b: Seq<u8>) -> Option<DecodeError> {
        if spec_code_error(b, ResponseCodes::ChannelMsgRecvV3.spec_code()) is Some {
            spec_code_error(b, ResponseCodes::ChannelMsgRecvV3.spec_code())
        } else if b.len() < 7 {
            Some(DecodeError::UnexpectedEof)
        } else if TextType::spec_from_code(b[6]) is None {
            Some(DecodeError::InvalidBitPattern)
        } else if b.len() < 11 {
            Some(DecodeError::UnexpectedEof)
        } else {
            None
        }
    }

    open spec fn spec_decoded(b: Seq<u8>, v: Self) -> bool {
        &&& v.snr == byte_i8(b[1])
        &&& v.reserved@ == b.subrange(2, 4)
        &&& v.idx == b[4]
        &&& v.path_len == b[5]
        &&& TextType::spec_from_code(b[6]) == Some(v.text_ty)
        &&& v.timestamp == u32_at(b, 7)
        &&& v.data@ == tail(b, 11)
    }

    fn ser_size(&self) -> (n: usize) {
        1 + 1 + 2 + 1 + 1 + 1 + 4 + self.data.len()
    }

    fn write_wire(&self, out: &mut Vec<u8>) {
        put_u8(out, ResponseCodes::ChannelMsgRecvV3.code());
        put_i8(out, self.snr);
        put_array(out, &self.reserved);
        put_u8(out, self.idx);
        put_u8(out, self.path_len);
        put_u8(out, self.text_ty.code());
        put_u32_le(out, self.timestamp);
        put_slice(out, self.data);
    }

    fn companion_deserialize(input: &'a [u8]) -> (r: Result<Self, DecodeError>) {
        let mut rd = SliceReader::new(input);
        expect_code(&mut rd, ResponseCodes::ChannelMsgRecvV3.code())?;
        let snr = rd.read_i8()?;
        let reserved = rd.read_chunk::<2>()?;
        let idx = rd.read_u8()?;
        let path_len = rd.read_u8()?;
        let text_ty = read_text_type(&mut rd)?;
        let timestamp = rd.read_u32_le()?;
        Ok(ChannelMsgRecv { snr, reserved, idx, path_len, text_ty, timestamp, data: rd.read_rest() })
    }
}

impl<'a> ChannelMsgRecv<'a> {
    /// Decoding the bytes of a `ChannelMsgRecv` gives it back.
    pub proof fn lemma_roundtrip(self)
        ensures
            <Self as CompanionSer<'a>>::spec_decode_error(self.spec_wire()) is None,
            <Self as CompanionSer<'a>>::spec_decoded(self.spec_wire(), self),
    {
        let w = self.spec_wire();
        assert(w.subrange(2, 4) == self.reserved@);
        lemma_u32_roundtrip(self.timestamp, tail(w, 11));
        assert(tail(w, 7) == u32_le(self.timestamp) + tail(w, 11));
        assert(tail(w, 11) == self.data@);
    }

    /// Where each field of a decoded `ChannelMsgRecv` is read from in its frame: the
    /// frame layout, byte by byte.
    pub proof fn lemma_decoded_fields(b: Seq<u8>, v: Self)
        requires
            <Self as CompanionSer<'a>>::spec_decode_error(b) is None,
            <Self as CompanionSer<'a>>::spec_decoded(b, v),
        ensures
            v.snr == byte_i8(b[1]),
            v.reserved@ == b.subrange(2, 4),
            v.idx == b[4],
            v.path_len == b[5],
            TextType::spec_from_code(b[6]) == Some(v.text_ty),
            v.timestamp == u32_at(b, 7),
            v.data@ == tail(b, 11) ,
    {
    }
}

// ---------------------------------------------------------------------------

/// A direct message that arrived; signed messages carry a signature.
#[derive(Debug, Clone)]
pub struct ContactMsgRecv<'a> {
    pub snr: i8,
    pub reserved: [u8; 2],
    pub pk_prefix: [u8; 6],
    pub path_len: u8,
    pub text_ty: TextType,
    pub timestamp: u32,
    pub signature: Option<[u8; 4]>,
    pub data: &'a [u8],
}

impl<'a> CompanionSer<'a> for ContactMsgRecv<'a> {
    open spec fn spec_wire(&self) -> Seq<u8> {
        seq![ResponseCodes::ContactMsgRecvV3.spec_code(), i8_byte(self.snr)] + self.reserved@
            + self.pk_prefix@ + seq![self.path_len, self.text_ty.spec_code()] + u32_le(
            self.timestamp,
        ) + match self.signature {
            Some(sig) => sig@,
            None => Seq::empty(),
        } + self.data@
    }

    open spec fn spec_decode_error(b: Seq<u8>) -> Option<DecodeError> {
        if spec_code_error(b, ResponseCodes::ContactMsgRecvV3.spec_code()) is Some {
            spec_code_error(b, ResponseCodes::ContactMsgRecvV3.spec_code())
        } else if b.len() < 12 {
            Some(DecodeError::UnexpectedEof)
        } else if TextType::spec_from_code(b[11]) is None {
            Some(DecodeError::InvalidBitPattern)
        } else if b.len() < 16 {
            Some(DecodeError::UnexpectedEof)
        } else if b[11] == TextType::SignedPlainText.spec_code() && b.len() < 20 {
            Some(DecodeError::UnexpectedEof)
        } else {
            None
        }
    }

    open spec fn spec_decoded(b: Seq<u8>, v: Self) -> bool {
        &&& v.snr == byte_i8(b[1])
        &&& v.reserved@ == b.subrange(2, 4)
        &&& v.pk_prefix@ == b.subrange(4, 10)
        &&& v.path_len == b[10]
        &&& TextType::spec_from_code(b[11]) == Some(v.text_ty)
        &&& v.timestamp == u32_at(b, 12)
        &&& if v.text_ty == TextType::SignedPlainText {
            &&& v.signature matches Some(sig) && sig@ == b.subrange(16, 20)
            &&& v.data@ == tail(b, 20)
        } else {
            &&& v.signature is None
            &&& v.data@ == tail(b, 16)
        }
    }

    fn ser_size(&self) -> (n: usize) {
        1 + 1 + 2 + 6 + 1 + 1 + 4 + if self.signature.is_some() {
            4
        } else {
            0
        } + self.data.len()
    }

    fn write_wire(&self, out: &mut Vec<u8>) {
        put_u8(out, ResponseCodes::ContactMsgRecvV3.code());
        put_i8(out, self.snr);
        put_array(out, &self.reserved);
        put_array(out, &self.pk_prefix);
        put_u8(out, self.path_len);
        put_u8(out, self.text_ty.code());
        put_u32_le(out, self.timestamp);
        match &self.signature {
            Some(signature) => put_array(out, signature),
            None => {
                assert(out@ == out@ + Seq::<u8>::empty());
            },
        }
        put_slice(out, self.data);
    }

    fn companion_deserialize(input: &'a [u8]) -> (r: Result<Self, DecodeError>) {
        let mut rd = SliceReader::new(input);
        expect_code(&mut rd, ResponseCodes::ContactMsgRecvV3.code())?;
        let snr = rd.read_i8()?;
        let reserved = rd.read_chunk::<2>()?;
        let pk_prefix = rd.read_chunk::<6>()?;
        let path_len = rd.read_u8()?;
        let text_ty = read_text_type(&mut rd)?;
        let timestamp = rd.read_u32_le()?;
        let signature = if text_ty == TextType::SignedPlainText {
            Some(rd.read_chunk::<4>()?)
        } else {
            None
        };
        Ok(ContactMsgRecv {
            snr,
            reserved,
            pk_prefix,
            path_len,
            text_ty,
            timestamp,
            signature,
            data: rd.read_rest(),
        })
    }
}

impl<'a> ContactMsgRecv<'a> {
    /// Decoding the bytes of a `ContactMsgRecv` gives it back when it carries
    /// a signature exactly if it is signed text.
    pub proof fn lemma_roundtrip(self)
        requires
            self.signature is Some <==> self.text_ty == TextType::SignedPlainText,
        ensures
            <Self as CompanionSer<'a>>::spec_decode_error(self.spec_wire()) is None,
            <Self as CompanionSer<'a>>::spec_decoded(self.spec_wire(), self),
    {
        let w = self.spec_wire();
        assert(w.subrange(2, 4) == self.reserved@);
        assert(w.subrange(4, 10) == self.pk_prefix@);
        lemma_u32_roundtrip(self.timestamp, tail(w, 16));
        assert(tail(w, 12) == u32_le(self.timestamp) + tail(w, 16));
        match self.signature {
            Some(sig) => {
                assert(w.subrange(16, 20) == sig@);
                assert(tail(w, 20) == self.data@);
            },
            None => {
                assert(tail(w, 16) == self.data@);
            },
        }
    }

    /// Where each field of a decoded `ContactMsgRecv` is read from in its frame: the
    /// frame layout, byte by byte.
    pub proof fn lemma_decoded_fields(b: Seq<u8>, v: Self)
        requires
            <Self as CompanionSer<'a>>::spec_decode_error(b) is None,
            <Self as CompanionSer<'a>>::spec_decoded(b, v),
        ensures
            v.snr == byte_i8(b[1]),
            v.reserved@ == b.subrange(2, 4),
            v.pk_prefix@ == b.subrange(4, 10),
            v.path_len == b[10],
            TextType::spec_from_code(b[11]) == Some(v.text_ty),
            v.timestamp == u32_at(b, 12),
            v.text_ty == TextType::SignedPlainText ==> (v.signature matches Some(sig) && sig@
                == b.subrange(16, 20)) && v.data@ == tail(b, 20),
            v.text_ty != TextType::SignedPlainText ==> v.signature is None && v.data@ == tail(b, 16),
    {
    }

    /// Where each field is written: code `0x10`, the SNR at 1, the two
    /// reserved bytes at 2..4, the sender's key prefix at 4..10, the path
    /// length at 10, the text type at 11, the timestamp at 12..16, then the
    /// signature (for signed text) and the text.
    pub proof fn lemma_written_fields(self)
        requires
            self.signature is Some <==> self.text_ty == TextType::SignedPlainText,
        ensures
            self.spec_wire()[0] == 0x10,
            self.spec_wire()[1] == i8_byte(self.snr),
            self.spec_wire().subrange(2, 4) == self.reserved@,
            self.spec_wire().subrange(4, 10) == self.pk_prefix@,
            self.spec_wire()[10] == self.path_len,
            TextType::spec_from_code(self.spec_wire()[11]) == Some(self.text_ty),
            u32_at(self.spec_wire(), 12) == self.timestamp,
            self.signature matches Some(sig) ==> self.spec_wire().subrange(16, 20) == sig@
                && tail(self.spec_wire(), 20) == self.data@,
            self.signature is None ==> tail(self.spec_wire(), 16) == self.data@,
    {
        self.lemma_roundtrip();
        Self::lemma_decoded_fields(self.spec_wire(), self);
    }
}

// ---------------------------------------------------------------------------

/// The answer to `SyncNextMessage`: the next waiting message, or none.
#[derive(Clone)]
pub enum GetMessageRes<'a> {
    Contact(ContactMsgRecv<'a>),
    Channel(ChannelMsgRecv<'a>),
    NoMoreMessages,
}

impl<'a> CompanionSer<'a> for GetMessageRes<'a> {
    open spec fn spec_wire(&self) -> Seq<u8> {
        match self {
            GetMessageRes::Contact(m) => m.spec_wire(),
            GetMessageRes::Channel(m) => m.spec_wire(),
            GetMessageRes::NoMoreMessages => seq![ResponseCodes::NoMoreMessages.spec_code()],
        }
    }

    open spec fn spec_decode_error(b: Seq<u8>) -> Option<DecodeError> {
        if b.len() < 1 {
            Some(DecodeError::UnexpectedEof)
        } else if b[0] == ResponseCodes::ContactMsgRecvV3.spec_code() {
            <ContactMsgRecv<'a> as CompanionSer<'a>>::spec_decode_error(b)
        } else if b[0] == ResponseCodes::ChannelMsgRecvV3.spec_code() {
            <ChannelMsgRecv<'a> as CompanionSer<'a>>::spec_decode_error(b)
        } else if b[0] == ResponseCodes::NoMoreMessages.spec_code() {
            None
        } else {
            Some(DecodeError::InvalidBitPattern)
        }
    }

    open spec fn spec_decoded(b: Seq<u8>, v: Self) -> bool {
        if b[0] == ResponseCodes::ContactMsgRecvV3.spec_code() {
            v matches GetMessageRes::Contact(m) && <ContactMsgRecv<'a> as CompanionSer<
                'a,
            >>::spec_decoded(b, m)
        } else if b[0] == ResponseCodes::ChannelMsgRecvV3.spec_code() {
            v matches GetMessageRes::Channel(m) && <ChannelMsgRecv<'a> as CompanionSer<
                'a,
            >>::spec_decoded(b, m)
        } else {
            v is NoMoreMessages
        }
    }

    fn ser_size(&self) -> (n: usize) {
        match self {
            GetMessageRes::Contact(m) => m.ser_size(),
            GetMessageRes::Channel(m) => m.ser_size(),
            GetMessageRes::NoMoreMessages => 1,
        }
    }

    fn write_wire(&self, out: &mut Vec<u8>) {
        match self {
            GetMessageRes::Contact(m) => m.write_wire(out),
            GetMessageRes::Channel(m) => m.write_wire(out),
            GetMessageRes::NoMoreMessages => put_u8(out, ResponseCodes::NoMoreMessages.code()),
        }
    }

    fn companion_deserialize(input: &'a [u8]) -> (r: Result<Self, DecodeError>) {
        if input.len() < 1 {
            return Err(DecodeError::UnexpectedEof);
        }
        match ResponseCodes::from_repr(input[0]) {
            Some(ResponseCodes::ContactMsgRecvV3) => {
                Ok(GetMessageRes::Contact(ContactMsgRecv::companion_deserialize(input)?))
            },
            Some(ResponseCodes::ChannelMsgRecvV3) => {
                Ok(GetMessageRes::Channel(ChannelMsgRecv::companion_deserialize(input)?))
            },
            Some(ResponseCodes::NoMoreMessages) => Ok(GetMessageRes::NoMoreMessages),
            _ => Err(DecodeError::InvalidBitPattern),
        }
    }
}

impl<'a> GetMessageRes<'a> {
    /// Decoding the bytes of a `GetMessageRes` gives it back when a contact
    /// message in it carries a signature exactly if it is signed text.
    pub proof fn lemma_roundtrip(self)
        requires
            self matches GetMessageRes::Contact(m) ==> (m.signature is Some <==> m.text_ty
                == TextType::SignedPlainText),
        ensures
            <Self as CompanionSer<'a>>::spec_decode_error(self.spec_wire()) is None,
            <Self as CompanionSer<'a>>::spec_decoded(self.spec_wire(), self),
    {
        match self {
            GetMessageRes::Contact(m) => m.lemma_roundtrip(),
            GetMessageRes::Channel(m) => m.lemma_roundtrip(),
            GetMessageRes::NoMoreMessages => {},
        }
    }

    /// Which message a frame is read as: byte `0x10` starts a contact message,
    /// `0x11` a channel message, `0x0a` says there are none, and any other
    /// first byte is refused. Each message keeps its own layout, and a
    /// message is written as exactly its own frame.
    pub proof fn lemma_decoded_kind(b: Seq<u8>, v: Self)
        ensures
            b.len() >= 1 && b[0] != 0x10 && b[0] != 0x11 && b[0] != 0x0a ==> <Self as CompanionSer<
                'a,
            >>::spec_decode_error(b) == Some(DecodeError::InvalidBitPattern),
            <Self as CompanionSer<'a>>::spec_decode_error(b) is None && <Self as CompanionSer<
                'a,
            >>::spec_decoded(b, v) ==> {
                &&& b[0] == 0x10 ==> (v matches GetMessageRes::Contact(m) && <ContactMsgRecv<
                    'a,
                > as CompanionSer<'a>>::spec_decoded(b, m))
                &&& b[0] == 0x11 ==> (v matches GetMessageRes::Channel(m) && <ChannelMsgRecv<
                    'a,
                > as CompanionSer<'a>>::spec_decoded(b, m))
                &&& b[0] == 0x0a ==> v is NoMoreMessages
            },
            v matches GetMessageRes::Contact(m) ==> v.spec_wire() == m.spec_wire(),
            v matches GetMessageRes::Channel(m) ==> v.spec_wire() == m.spec_wire(),
            v is NoMoreMessages ==> v.spec_wire() == seq![0x0au8],
    {
    }
}

// ---------------------------------------------------------------------------

/// The bytes of one variable: its name, `:`, its value.
pub open spec fn spec_var_bytes(e: (String, String)) -> Seq<u8> {
    string_bytes(&e.0) + seq![0x3au8] + string_bytes(&e.1)
}

/// The bytes of the variables, separated by `,`.
pub open spec fn spec_vars_joined(vars: Seq<(String, String)>) -> Seq<u8>
    decreases vars.len(),
{
    if vars.len() == 0 {
        Seq::empty()
    } else if vars.len() == 1 {
        spec_var_bytes(vars[0])
    } else {
        spec_vars_joined(vars.drop_last()) + seq![0x2cu8] + spec_var_bytes(vars.last())
    }
}

/// The name and value bytes of each variable.
pub open spec fn spec_vars_bytes(vars: Seq<(String, String)>) -> Seq<(Seq<u8>, Seq<u8>)> {
    vars.map_values(|e: (String, String)| (string_bytes(&e.0), string_bytes(&e.1)))
}

/// A segment split at its first `:` into name and value bytes, or nothing
/// when it holds no `:`.
pub open spec fn spec_segment_var(seg: Seq<u8>) -> Seq<(Seq<u8>, Seq<u8>)> {
    let j = spec_index_of(seg, 0x3a) as int;
    if j < seg.len() {
        seq![(seg.subrange(0, j), tail(seg, j + 1))]
    } else {
        Seq::empty()
    }
}

/// The name and value bytes of each `,`-separated segment of `t` that holds
/// a `:`, in order.
pub open spec fn spec_parse_vars(t: Seq<u8>) -> Seq<(Seq<u8>, Seq<u8>)>
    decreases t.len(),
{
    let i = spec_index_of(t, 0x2c) as int;
    if i < t.len() {
        spec_segment_var(t.subrange(0, i)) + spec_parse_vars(tail(t, i + 1))
    } else {
        spec_segment_var(t)
    }
}

/// The bytes of the first `i + 1` variables are those of the first `i`, a
/// `,` unless there are none, and those of variable `i`.
proof fn lemma_vars_joined_step(vars: Seq<(String, String)>, i: int)
    requires
        0 <= i < vars.len(),
    ensures
        spec_vars_joined(vars.take(i + 1)) == if i == 0 {
            spec_var_bytes(vars[0])
        } else {
            spec_vars_joined(vars.take(i)) + seq![0x2cu8] + spec_var_bytes(vars[i])
        },
{
    let t = vars.take(i + 1);
    assert(t.drop_last() == vars.take(i));
    assert(t.last() == vars[i]);
}

/// The bytes of fewer leading variables are no longer.
proof fn lemma_vars_joined_mono(vars: Seq<(String, String)>, i: int, j: int)
    requires
        0 <= i <= j <= vars.len(),
    ensures
        spec_vars_joined(vars.take(i)).len() <= spec_vars_joined(vars.take(j)).len(),
    decreases j - i,
{
    if i < j {
        lemma_vars_joined_mono(vars, i, j - 1);
        lemma_vars_joined_step(vars, j - 1);
    }
}

/// Segments end at every `,`: the variables of `x`, `,`, `y` are those of
/// `x`, then those of `y`.
proof fn lemma_parse_vars_comma(x: Seq<u8>, y: Seq<u8>)
    ensures
        spec_parse_vars(x + seq![0x2cu8] + y) == spec_parse_vars(x) + spec_parse_vars(y),
    decreases x.len(),
{
    let w = x + seq![0x2cu8] + y;
    lemma_index_of_props(x, 0x2c);
    let i = spec_index_of(x, 0x2c) as int;
    if i < x.len() {
        lemma_index_of(w, 0x2c, i);
        assert(w.subrange(0, i) == x.subrange(0, i));
        assert(tail(w, i + 1) == tail(x, i + 1) + seq![0x2cu8] + y);
        lemma_parse_vars_comma(tail(x, i + 1), y);
        assert(spec_parse_vars(w) == spec_segment_var(x.subrange(0, i)) + (spec_parse_vars(
            tail(x, i + 1),
        ) + spec_parse_vars(y)));
    } else {
        lemma_index_of(w, 0x2c, x.len() as int);
        assert(w.subrange(0, x.len() as int) == x);
        assert(tail(w, x.len() as int + 1) == y);
    }
}

/// A variable whose name holds no `:` or `,` and whose value holds no `,`
/// reads back as its name and value bytes.
proof fn lemma_parse_one_var(e: (String, String))
    requires
        forall|j: int|
            0 <= j < string_bytes(&e.0).len() ==> string_bytes(&e.0)[j] != 0x3a
                && string_bytes(&e.0)[j] != 0x2c,
        forall|j: int| 0 <= j < string_bytes(&e.1).len() ==> string_bytes(&e.1)[j] != 0x2c,
    ensures
        spec_parse_vars(spec_var_bytes(e)) == seq![(string_bytes(&e.0), string_bytes(&e.1))],
{
    let k = string_bytes(&e.0);
    let v = string_bytes(&e.1);
    let w = spec_var_bytes(e);
    assert forall|j: int| 0 <= j < w.len() implies w[j] != 0x2c by {
        if j < k.len() {
            assert(w[j] == k[j]);
        } else if j > k.len() {
            assert(w[j] == v[j - k.len() - 1]);
        }
    }
    lemma_index_of(w, 0x2c, w.len() as int);
    lemma_index_of(w, 0x3a, k.len() as int);
    assert(w.subrange(0, k.len() as int) == k);
    assert(tail(w, k.len() as int + 1) == v);
}

/// Reading the joined bytes of variables whose names hold no `:` or `,` and
/// whose values hold no `,` gives back their name and value bytes.
proof fn lemma_parse_vars_joined(vars: Seq<(String, String)>)
    requires
        spec_vars_separable(vars),
    ensures
        spec_parse_vars(spec_vars_joined(vars)) == spec_vars_bytes(vars),
    decreases vars.len(),
{
    if vars.len() == 0 {
        assert(spec_parse_vars(Seq::empty()) == Seq::<(Seq<u8>, Seq<u8>)>::empty());
        assert(spec_vars_bytes(vars) == Seq::<(Seq<u8>, Seq<u8>)>::empty());
    } else if vars.len() == 1 {
        assert(spec_var_separable(vars[0]));
        lemma_parse_one_var(vars[0]);
        assert(spec_vars_bytes(vars) == seq![(string_bytes(&vars[0].0), string_bytes(&vars[0].1))]);
    } else {
        let front = vars.drop_last();
        assert(spec_vars_separable(front)) by {
            assert forall|i: int| 0 <= i < front.len() implies #[trigger] spec_var_separable(
                front[i],
            ) by {
                assert(front[i] == vars[i]);
            }
        }
        assert(spec_var_separable(vars.last()));
        lemma_parse_vars_joined(front);
        lemma_parse_one_var(vars.last());
        lemma_parse_vars_comma(spec_vars_joined(front), spec_var_bytes(vars.last()));
        assert(spec_vars_bytes(vars) == spec_vars_bytes(front) + seq![
            (string_bytes(&vars.last().0), string_bytes(&vars.last().1)),
        ]);
    }
}

/// The joined bytes of variables are valid UTF-8.
proof fn lemma_vars_joined_utf8(vars: Seq<(String, String)>)
    ensures
        valid_utf8(spec_vars_joined(vars)),
    decreases vars.len(),
{
    lemma_utf8_ascii_byte(0x3a);
    lemma_utf8_ascii_byte(0x2c);
    if vars.len() > 0 {
        let e = vars.last();
        lemma_utf8_roundtrip(e.0@);
        lemma_utf8_roundtrip(e.1@);
        valid_utf8_concat(string_bytes(&e.0), seq![0x3au8]);
        valid_utf8_concat(string_bytes(&e.0) + seq![0x3au8], string_bytes(&e.1));
        if vars.len() == 1 {
            assert(vars[0] == e);
        } else {
            lemma_vars_joined_utf8(vars.drop_last());
            valid_utf8_concat(spec_vars_joined(vars.drop_last()), seq![0x2cu8]);
            valid_utf8_concat(
                spec_vars_joined(vars.drop_last()) + seq![0x2cu8],
                spec_var_bytes(e),
            );
        }
    } else {
        assert(valid_utf8(Seq::<u8>::empty()));
    }
}

/// A variable's name holds no `:` or `,` and its value holds no `,`, so that
/// it can be told apart from its neighbours on the wire.
pub open spec fn spec_var_separable(e: (String, String)) -> bool {
    &&& forall|j: int|
        0 <= j < string_bytes(&e.0).len() ==> string_bytes(&e.0)[j] != 0x3a
            && string_bytes(&e.0)[j] != 0x2c
    &&& forall|j: int| 0 <= j < string_bytes(&e.1).len() ==> string_bytes(&e.1)[j] != 0x2c
}

/// Every variable can be told apart from its neighbours on the wire.
pub open spec fn spec_vars_separable(vars: Seq<(String, String)>) -> bool {
    forall|i: int| 0 <= i < vars.len() ==> #[trigger] spec_var_separable(vars[i])
}

/// A name and value as read from valid text: both valid UTF-8, the name
/// without `:` or `,`, the value without `,`.
pub open spec fn spec_var_piece_ok(e: (Seq<u8>, Seq<u8>)) -> bool {
    &&& valid_utf8(e.0)
    &&& valid_utf8(e.1)
    &&& forall|k: int| 0 <= k < e.0.len() ==> e.0[k] != 0x3a && e.0[k] != 0x2c
    &&& forall|k: int| 0 <= k < e.1.len() ==> e.1[k] != 0x2c
}

/// Every name and value read from valid UTF-8 text is valid UTF-8; a name
/// holds no `:` or `,` and a value no `,`.
proof fn lemma_parse_vars_pieces(t: Seq<u8>)
    requires
        valid_utf8(t),
    ensures
        forall|j: int|
            0 <= j < spec_parse_vars(t).len() ==> spec_var_piece_ok(#[trigger] spec_parse_vars(t)[j]),
    decreases t.len(),
{
    lemma_index_of_props(t, 0x2c);
    let i = spec_index_of(t, 0x2c) as int;
    let seg = if i < t.len() {
        t.subrange(0, i)
    } else {
        t
    };
    let rest = if i < t.len() {
        spec_parse_vars(tail(t, i + 1))
    } else {
        Seq::<(Seq<u8>, Seq<u8>)>::empty()
    };
    if i < t.len() {
        lemma_utf8_split_at_ascii(t, i);
        lemma_parse_vars_pieces(tail(t, i + 1));
    }
    assert(valid_utf8(seg));
    assert forall|k: int| 0 <= k < seg.len() implies seg[k] != 0x2c by {
        assert(seg[k] == t[k]);
    }
    lemma_index_of_props(seg, 0x3a);
    let c = spec_index_of(seg, 0x3a) as int;
    if c < seg.len() {
        lemma_utf8_split_at_ascii(seg, c);
        let e = (seg.subrange(0, c), tail(seg, c + 1));
        assert forall|k: int| 0 <= k < e.0.len() implies e.0[k] != 0x3a && e.0[k] != 0x2c by {
            assert(e.0[k] == seg[k]);
        }
        assert forall|k: int| 0 <= k < e.1.len() implies e.1[k] != 0x2c by {
            assert(e.1[k] == seg[c + 1 + k]);
        }
        assert(spec_var_piece_ok(e));
    }
    let first = spec_segment_var(seg);
    assert(spec_parse_vars(t) == first + rest);
    assert forall|j: int| 0 <= j < spec_parse_vars(t).len() implies spec_var_piece_ok(
        #[trigger] spec_parse_vars(t)[j],
    ) by {
        if j < first.len() {
            assert(spec_parse_vars(t)[j] == first[j]);
        } else {
            assert(spec_parse_vars(t)[j] == rest[j - first.len()]);
        }
    }
}

/// The device's custom variables, as name and value pairs, sent as
/// `name:value` entries separated by `,`.
pub struct CustomVars(pub Vec<(String, String)>);

impl<'a> CompanionSer<'a> for CustomVars {
    open spec fn spec_wire(&self) -> Seq<u8> {
        seq![ResponseCodes::CustomVars.spec_code()] + spec_vars_joined(self.0@)
    }

    open spec fn spec_decode_error(b: Seq<u8>) -> Option<DecodeError> {
        if spec_code_error(b, ResponseCodes::CustomVars.spec_code()) is Some {
            spec_code_error(b, ResponseCodes::CustomVars.spec_code())
        } else if !valid_utf8(tail(b, 1)) {
            Some(DecodeError::InvalidUtf8)
        } else {
            None
        }
    }

    open spec fn spec_decoded(b: Seq<u8>, v: Self) -> bool {
        let p = spec_parse_vars(tail(b, 1));
        &&& v.0@.len() == p.len()
        &&& forall|j: int|
            0 <= j < p.len() ==> v.0@[j].0@ == decode_utf8(p[j].0) && v.0@[j].1@ == decode_utf8(
                p[j].1,
            )
    }

    fn ser_size(&self) -> (n: usize) {
        let mut total: usize = 1;
        let mut i: usize = 0;
        while i < self.0.len()
            invariant
                i <= self.0@.len(),
                total == 1 + spec_vars_joined(self.0@.take(i as int)).len(),
                1 + spec_vars_joined(self.0@).len() <= usize::MAX,
            decreases self.0@.len() - i,
        {
            let e = &self.0[i];
            proof {
                lemma_vars_joined_step(self.0@, i as int);
                lemma_vars_joined_mono(self.0@, i + 1, self.0@.len() as int);
                assert(self.0@.take(self.0@.len() as int) == self.0@);
            }
            let comma: usize = if i > 0 {
                1
            } else {
                0
            };
            total = total + comma + e.0.as_str().len() + 1 + e.1.as_str().len();
            i = i + 1;
        }
        assert(self.0@.take(self.0@.len() as int) == self.0@);
        total
    }

    fn write_wire(&self, out: &mut Vec<u8>) {
        put_u8(out, ResponseCodes::CustomVars.code());
        let ghost start = out@;
        let mut i: usize = 0;
        while i < self.0.len()
            invariant
                i <= self.0@.len(),
                out@ == start + spec_vars_joined(self.0@.take(i as int)),
            decreases self.0@.len() - i,
        {
            let e = &self.0[i];
            proof {
                lemma_vars_joined_step(self.0@, i as int);
            }
            if i > 0 {
                put_u8(out, 0x2c);
            }
            put_str(out, e.0.as_str());
            put_u8(out, 0x3a);
            put_str(out, e.1.as_str());
            i = i + 1;
        }
        assert(self.0@.take(self.0@.len() as int) == self.0@);
    }

    fn companion_deserialize(input: &'a [u8]) -> (r: Result<Self, DecodeError>) {
        let mut rd = SliceReader::new(input);
        expect_code(&mut rd, ResponseCodes::CustomVars.code())?;
        let rest = rd.read_rest();
        let _text = read_utf8(rest)?;
        let n = rest.len();
        let mut vars: Vec<(String, String)> = Vec::new();
        let ghost mut done: Seq<(Seq<u8>, Seq<u8>)> = Seq::empty();
        let mut pos: usize = 0;
        assert(tail(rest@, 0) == rest@);
        while pos < n
            invariant
                n == rest@.len(),
                pos <= n,
                valid_utf8(tail(rest@, pos as int)),
                spec_parse_vars(rest@) == done + spec_parse_vars(tail(rest@, pos as int)),
                vars@.len() == done.len(),
                forall|j: int|
                    0 <= j < done.len() ==> vars@[j].0@ == decode_utf8(done[j].0)
                        && vars@[j].1@ == decode_utf8(done[j].1),
            decreases n - pos,
        {
            let t = &rest[pos..n];
            assert(t@ == tail(rest@, pos as int));
            proof {
                lemma_index_of_props(t@, 0x2c);
            }
            let (seg_end, next) = match find_byte(0x2c, t) {
                Some(i) => {
                    proof {
                        lemma_utf8_split_at_ascii(t@, i as int);
                        assert(tail(t@, i + 1) == tail(rest@, pos + i + 1));
                    }
                    (i, pos + i + 1)
                },
                None => {
                    assert(t@.subrange(0, t@.len() as int) == t@);
                    assert(tail(rest@, n as int) == Seq::<u8>::empty());
                    assert(spec_parse_vars(Seq::<u8>::empty()) == Seq::<
                        (Seq<u8>, Seq<u8>),
                    >::empty());
                    assert(valid_utf8(Seq::<u8>::empty()));
                    (t.len(), n)
                },
            };
            let seg = &t[0..seg_end];
            assert(seg@ == t@.subrange(0, seg_end as int));
            assert(spec_parse_vars(t@) == spec_segment_var(seg@) + spec_parse_vars(
                tail(rest@, next as int),
            ));
            proof {
                lemma_index_of_props(seg@, 0x3a);
            }
            match find_byte(0x3a, seg) {
                Some(j) => {
                    proof {
                        lemma_utf8_split_at_ascii(seg@, j as int);
                    }
                    let name = read_utf8(&seg[0..j])?;
                    let value = read_utf8(&seg[j + 1..seg_end])?;
                    vars.push((name.to_owned(), value.to_owned()));
                    proof {
                        done = done.push((seg@.subrange(0, j as int), tail(seg@, j + 1)));
                    }
                },
                None => {},
            }
            pos = next;
        }
        assert(tail(rest@, pos as int) == Seq::<u8>::empty());
        assert(done + spec_parse_vars(Seq::<u8>::empty()) == done);
        Ok(CustomVars(vars))
    }
}

impl CustomVars {
    /// Decoding the bytes of `CustomVars` gives back each name and value when
    /// no name holds `:` or `,` and no value holds `,`.
    pub proof fn lemma_roundtrip(self)
        requires
            spec_vars_separable(self.0@),
        ensures
            <Self as CompanionSer<'static>>::spec_decode_error(self.spec_wire()) is None,
            <Self as CompanionSer<'static>>::spec_decoded(self.spec_wire(), self),
    {
        let w = self.spec_wire();
        assert(tail(w, 1) == spec_vars_joined(self.0@));
        lemma_vars_joined_utf8(self.0@);
        lemma_parse_vars_joined(self.0@);
        assert forall|j: int| 0 <= j < self.0@.len() implies self.0@[j].0@ == decode_utf8(
            spec_vars_bytes(self.0@)[j].0,
        ) && self.0@[j].1@ == decode_utf8(spec_vars_bytes(self.0@)[j].1) by {
            lemma_utf8_roundtrip(self.0@[j].0@);
            lemma_utf8_roundtrip(self.0@[j].1@);
        }
    }

    /// Every variable read from a frame splits its `name:value` segment at
    /// its first `:`: no name holds a `:`, and, the frame being split at every
    /// `,`, no name or value holds a `,`.
    pub proof fn lemma_decoded_vars_separated(b: Seq<u8>, v: Self)
        requires
            <Self as CompanionSer<'static>>::spec_decode_error(b) is None,
            <Self as CompanionSer<'static>>::spec_decoded(b, v),
        ensures
            forall|j: int, k: int|
                0 <= j < v.0@.len() && 0 <= k < string_bytes(&v.0@[j].0).len() ==> string_bytes(
                    &v.0@[j].0,
                )[k] != 0x3a && string_bytes(&v.0@[j].0)[k] != 0x2c,
            forall|j: int, k: int|
                0 <= j < v.0@.len() && 0 <= k < string_bytes(&v.0@[j].1).len() ==> string_bytes(
                    &v.0@[j].1,
                )[k] != 0x2c,
    {
        let p = spec_parse_vars(tail(b, 1));
        lemma_parse_vars_pieces(tail(b, 1));
        assert forall|j: int, k: int|
            0 <= j < v.0@.len() && 0 <= k < string_bytes(&v.0@[j].0).len() implies #[trigger] string_bytes(
                &v.0@[j].0,
            )[k] != 0x3a && string_bytes(&v.0@[j].0)[k] != 0x2c by {
            assert(spec_var_piece_ok(p[j]));
            decode_utf8_encode_utf8(p[j].0);
        }
        assert forall|j: int, k: int|
            0 <= j < v.0@.len() && 0 <= k < string_bytes(&v.0@[j].1).len() implies #[trigger] string_bytes(
                &v.0@[j].1,
            )[k] != 0x2c by {
            assert(spec_var_piece_ok(p[j]));
            decode_utf8_encode_utf8(p[j].1);
        }
    }
}

// ---------------------------------------------------------------------------

/// Why reading the two-byte header of a statistics frame of kind `kind` from
/// the front of `b` fails, or `None`. The first byte may be anything.
pub open spec fn spec_stats_header_error(b: Seq<u8>, kind: u8) -> Option<DecodeError> {
    if b.len() < 2 {
        Some(DecodeError::UnexpectedEof)
    } else if b[1] != kind {
        Some(DecodeError::InvalidBitPattern)
    } else {
        None
    }
}

/// Takes the two-byte header of a statistics frame of kind `kind`.
pub fn expect_stats_header(rd: &mut SliceReader, kind: u8) -> (r: Result<(), DecodeError>)
    requires
        old(rd).spec_wf(),
        old(rd).pos == 0,
    ensures
        final(rd).spec_wf(),
        final(rd).data == old(rd).data,
        r is Ok <==> spec_stats_header_error(old(rd).data@, kind) is None,
        r matches Err(e) ==> spec_stats_header_error(old(rd).data@, kind) == Some(e),
        r is Ok ==> final(rd).pos == 2,
{
    rd.read_u8()?;
    if rd.read_u8()? != kind {
        return Err(DecodeError::InvalidBitPattern);
    }
    Ok(())
}

/// Core statistics: battery, uptime, error count and queue length.
#[derive(Clone, Copy, Debug)]
pub struct CoreStats {
    pub battery_mv: u16,
    pub uptime_secs: u32,
    pub errors: u16,
    pub queue_len: u8,
}

impl Default for CoreStats {
    fn default() -> (r: Self)
        ensures
            r.battery_mv == 0 && r.uptime_secs == 0 && r.errors == 0 && r.queue_len == 0,
    {
        CoreStats { battery_mv: 0, uptime_secs: 0, errors: 0, queue_len: 0 }
    }
}

impl<'a> CompanionSer<'a> for CoreStats {
    open spec fn spec_wire(&self) -> Seq<u8> {
        seq![0u8, StatTypes::Core.spec_code()] + u16_le(self.battery_mv) + u32_le(self.uptime_secs)
            + u16_le(self.errors) + seq![self.queue_len]
    }

    open spec fn spec_decode_error(b: Seq<u8>) -> Option<DecodeError> {
        if spec_stats_header_error(b, StatTypes::Core.spec_code()) is Some {
            spec_stats_header_error(b, StatTypes::Core.spec_code())
        } else if b.len() < 11 {
            Some(DecodeError::UnexpectedEof)
        } else {
            None
        }
    }

    open spec fn spec_decoded(b: Seq<u8>, v: Self) -> bool {
        &&& v.battery_mv == u16_at(b, 2)
        &&& v.uptime_secs == u32_at(b, 4)
        &&& v.errors == u16_at(b, 8)
        &&& v.queue_len == b[10]
    }

    fn ser_size(&self) -> (n: usize) {
        2 + 2 + 4 + 2 + 1
    }

    fn write_wire(&self, out: &mut Vec<u8>) {
        put_u8(out, 0);
        put_u8(out, StatTypes::Core.code());
        put_u16_le(out, self.battery_mv);
        put_u32_le(out, self.uptime_secs);
        put_u16_le(out, self.errors);
        put_u8(out, self.queue_len);
    }

    fn companion_deserialize(input: &'a [u8]) -> (r: Result<Self, DecodeError>) {
        let mut rd = SliceReader::new(input);
        expect_stats_header(&mut rd, StatTypes::Core.code())?;
        let battery_mv = rd.read_u16_le()?;
        let uptime_secs = rd.read_u32_le()?;
        let errors = rd.read_u16_le()?;
        let queue_len = rd.read_u8()?;
        Ok(CoreStats { battery_mv, uptime_secs, errors, queue_len })
    }
}

impl CoreStats {
    /// Decoding the bytes of a `CoreStats` gives it back.
    pub proof fn lemma_roundtrip(self)
        ensures
            <Self as CompanionSer<'static>>::spec_decode_error(self.spec_wire()) is None,
            <Self as CompanionSer<'static>>::spec_decoded(self.spec_wire(), self),
    {
        let w = self.spec_wire();
        lemma_u16_roundtrip(self.battery_mv, tail(w, 4));
        assert(tail(w, 2) == u16_le(self.battery_mv) + tail(w, 4));
        lemma_u32_roundtrip(self.uptime_secs, tail(w, 8));
        assert(tail(w, 4) == u32_le(self.uptime_secs) + tail(w, 8));
        lemma_u16_roundtrip(self.errors, tail(w, 10));
        assert(tail(w, 8) == u16_le(self.errors) + tail(w, 10));
    }

    /// Where each field of a decoded `CoreStats` is read from in its frame: the
    /// frame layout, byte by byte.
    pub proof fn lemma_decoded_fields(b: Seq<u8>, v: Self)
        requires
            <Self as CompanionSer<'static>>::spec_decode_error(b) is None,
            <Self as CompanionSer<'static>>::spec_decoded(b, v),
        ensures
            v.battery_mv == u16_at(b, 2),
            v.uptime_secs == u32_at(b, 4),
            v.errors == u16_at(b, 8),
            v.queue_len == b[10] ,
    {
    }
}

/// Rust's `/` on integers: the quotient of `x / 4`, rounded toward zero.
pub open spec fn spec_div4_toward_zero(x: i8) -> i8 {
    if x >= 0 {
        (x / 4) as i8
    } else {
        (-((-x) / 4)) as i8
    }
}

/// Dividing by four toward zero: the quotient times four lies within three of
/// `x` on the side of zero.
pub proof fn lemma_div4_toward_zero(x: i8)
    ensures
        x >= 0 ==> 0 <= x - 4 * spec_div4_toward_zero(x) < 4,
        x < 0 ==> 0 <= 4 * spec_div4_toward_zero(x) - x < 4,
{
}

/// Radio statistics: noise floor, last signal readings and air time. The
/// last SNR is sent in quarter-decibel units.
#[derive(Clone, Copy, Debug)]
pub struct RadioStats {
    pub noise_floor: i16,
    pub last_rssi: i8,
    pub last_snr: i8,
    pub tx_air_secs: u32,
    pub rx_air_secs: u32,
}

impl Default for RadioStats {
    fn default() -> (r: Self)
        ensures
            r.noise_floor == 0 && r.last_rssi == 0 && r.last_snr == 0 && r.tx_air_secs == 0
                && r.rx_air_secs == 0,
    {
        RadioStats { noise_floor: 0, last_rssi: 0, last_snr: 0, tx_air_secs: 0, rx_air_secs: 0 }
    }
}

impl<'a> CompanionSer<'a> for RadioStats {
    open spec fn spec_wire(&self) -> Seq<u8> {
        seq![0u8, StatTypes::Radio.spec_code()] + i16_le(self.noise_floor) + seq![
            i8_byte(self.last_rssi),
            i8_byte((self.last_snr * 4) as i8),
        ] + u32_le(self.tx_air_secs) + u32_le(self.rx_air_secs)
    }

    /// Four times the last SNR fits an `i8`.
    open spec fn spec_serializable(&self) -> bool {
        -32 <= self.last_snr <= 31
    }

    open spec fn spec_decode_error(b: Seq<u8>) -> Option<DecodeError> {
        if spec_stats_header_error(b, StatTypes::Radio.spec_code()) is Some {
            spec_stats_header_error(b, StatTypes::Radio.spec_code())
        } else if b.len() < 14 {
            Some(DecodeError::UnexpectedEof)
        } else {
            None
        }
    }

    open spec fn spec_decoded(b: Seq<u8>, v: Self) -> bool {
        &&& v.noise_floor == i16_at(b, 2)
        &&& v.last_rssi == byte_i8(b[4])
        &&& v.last_snr == spec_div4_toward_zero(byte_i8(b[5]))
        &&& v.tx_air_secs == u32_at(b, 6)
        &&& v.rx_air_secs == u32_at(b, 10)
    }

    fn ser_size(&self) -> (n: usize) {
        2 + 2 + 1 + 1 + 4 + 4
    }

    fn write_wire(&self, out: &mut Vec<u8>) {
        put_u8(out, 0);
        put_u8(out, StatTypes::Radio.code());
        put_i16_le(out, self.noise_floor);
        put_i8(out, self.last_rssi);
        put_i8(out, self.last_snr * 4);
        put_u32_le(out, self.tx_air_secs);
        put_u32_le(out, self.rx_air_secs);
    }

    fn companion_deserialize(input: &'a [u8]) -> (r: Result<Self, DecodeError>) {
        let mut rd = SliceReader::new(input);
        expect_stats_header(&mut rd, StatTypes::Radio.code())?;
        let noise_floor = rd.read_i16_le()?;
        let last_rssi = rd.read_i8()?;
        let snr4 = rd.read_i8()?;
        let last_snr: i8 = if snr4 >= 0 {
            snr4 / 4
        } else {
            -((-(snr4 as i16)) / 4) as i8
        };
        let tx_air_secs = rd.read_u32_le()?;
        let rx_air_secs = rd.read_u32_le()?;
        Ok(RadioStats { noise_floor, last_rssi, last_snr, tx_air_secs, rx_air_secs })
    }
}

impl RadioStats {
    /// Decoding the bytes of a `RadioStats` gives it back.
    pub proof fn lemma_roundtrip(self)
        requires
            -32 <= self.last_snr <= 31,
        ensures
            <Self as CompanionSer<'static>>::spec_decode_error(self.spec_wire()) is None,
            <Self as CompanionSer<'static>>::spec_decoded(self.spec_wire(), self),
    {
        let w = self.spec_wire();
        lemma_i16_roundtrip(self.noise_floor, tail(w, 4));
        assert(tail(w, 2) == i16_le(self.noise_floor) + tail(w, 4));
        lemma_u32_roundtrip(self.tx_air_secs, tail(w, 10));
        assert(tail(w, 6) == u32_le(self.tx_air_secs) + tail(w, 10));
        lemma_u32_roundtrip(self.rx_air_secs, Seq::empty());
        assert(tail(w, 10) == u32_le(self.rx_air_secs) + Seq::<u8>::empty());
    }

    /// Where each field of a decoded `RadioStats` is read from in its frame: the
    /// frame layout, byte by byte.
    pub proof fn lemma_decoded_fields(b: Seq<u8>, v: Self)
        requires
            <Self as CompanionSer<'static>>::spec_decode_error(b) is None,
            <Self as CompanionSer<'static>>::spec_decoded(b, v),
        ensures
            v.noise_floor == i16_at(b, 2),
            v.last_rssi == byte_i8(b[4]),
            v.last_snr == spec_div4_toward_zero(byte_i8(b[5])),
            v.tx_air_secs == u32_at(b, 6),
            v.rx_air_secs == u32_at(b, 10) ,
    {
    }

    /// Where each field is written: the two header bytes 0 and 1, the noise
    /// floor at 2..4, the last RSSI at 4, four times the last SNR at 5, the
    /// transmit air time at 6..10 and the receive air time at 10..14.
    pub proof fn lemma_written_fields(self)
        requires
            -32 <= self.last_snr <= 31,
        ensures
            self.spec_wire().len() == 14,
            self.spec_wire()[0] == 0,
            self.spec_wire()[1] == 1,
            i16_at(self.spec_wire(), 2) == self.noise_floor,
            self.spec_wire()[4] == i8_byte(self.last_rssi),
            self.spec_wire()[5] == i8_byte((self.last_snr * 4) as i8),
            u32_at(self.spec_wire(), 6) == self.tx_air_secs,
            u32_at(self.spec_wire(), 10) == self.rx_air_secs,
    {
        self.lemma_roundtrip();
        Self::lemma_decoded_fields(self.spec_wire(), self);
    }
}

/// Packet statistics: counts of packets received, sent, flooded and direct.
/// They are written with the packets kind byte, while reading expects the
/// radio kind byte.
#[derive(Clone, Copy, Debug)]
pub struct PacketStats {
    pub recv: u32,
    pub sent: u32,
    pub flood_tx: u32,
    pub direct_tx: u32,
    pub flood_rx: u32,
    pub direct_rx: u32,
    pub recv_errors: u32,
}

impl Default for PacketStats {
    fn default() -> (r: Self)
        ensures
            r.recv == 0 && r.sent == 0 && r.flood_tx == 0 && r.direct_tx == 0 && r.flood_rx == 0
                && r.direct_rx == 0 && r.recv_errors == 0,
    {
        PacketStats {
            recv: 0,
            sent: 0,
            flood_tx: 0,
            direct_tx: 0,
            flood_rx: 0,
            direct_rx: 0,
            recv_errors: 0,
        }
    }
}

impl<'a> CompanionSer<'a> for PacketStats {
    open spec fn spec_wire(&self) -> Seq<u8> {
        seq![0u8, StatTypes::Packets.spec_code()] + u32_le(self.recv) + u32_le(self.sent) + u32_le(
            self.flood_tx,
        ) + u32_le(self.direct_tx) + u32_le(self.flood_rx) + u32_le(self.direct_rx) + u32_le(
            self.recv_errors,
        )
    }

    open spec fn spec_decode_error(b: Seq<u8>) -> Option<DecodeError> {
        if spec_stats_header_error(b, StatTypes::Radio.spec_code()) is Some {
            spec_stats_header_error(b, StatTypes::Radio.spec_code())
        } else if b.len() < 30 {
            Some(DecodeError::UnexpectedEof)
        } else {
            None
        }
    }

    open spec fn spec_decoded(b: Seq<u8>, v: Self) -> bool {
        &&& v.recv == u32_at(b, 2)
        &&& v.sent == u32_at(b, 6)
        &&& v.flood_tx == u32_at(b, 10)
        &&& v.direct_tx == u32_at(b, 14)
        &&& v.flood_rx == u32_at(b, 18)
        &&& v.direct_rx == u32_at(b, 22)
        &&& v.recv_errors == u32_at(b, 26)
    }

    fn ser_size(&self) -> (n: usize) {
        2 + 4 * 7
    }

    fn write_wire(&self, out: &mut Vec<u8>) {
        put_u8(out, 0);
        put_u8(out, StatTypes::Packets.code());
        put_u32_le(out, self.recv);
        put_u32_le(out, self.sent);
        put_u32_le(out, self.flood_tx);
        put_u32_le(out, self.direct_tx);
        put_u32_le(out, self.flood_rx);
        put_u32_le(out, self.direct_rx);
        put_u32_le(out, self.recv_errors);
    }

    fn companion_deserialize(input: &'a [u8]) -> (r: Result<Self, DecodeError>) {
        let mut rd = SliceReader::new(input);
        expect_stats_header(&mut rd, StatTypes::Radio.code())?;
        let recv = rd.read_u32_le()?;
        let sent = rd.read_u32_le()?;
        let flood_tx = rd.read_u32_le()?;
        let direct_tx = rd.read_u32_le()?;
        let flood_rx = rd.read_u32_le()?;
        let direct_rx = rd.read_u32_le()?;
        let recv_errors = rd.read_u32_le()?;
        Ok(PacketStats { recv, sent, flood_tx, direct_tx, flood_rx, direct_rx, recv_errors })
    }
}

impl PacketStats {
    /// Its own reader refuses its bytes, whose kind byte is that of packet
    /// statistics while the reader expects that of radio statistics; with
    /// that byte changed, the bytes read back as it.
    pub proof fn lemma_read_with_radio_kind(self)
        ensures
            <Self as CompanionSer<'static>>::spec_decode_error(self.spec_wire()) == Some(
                DecodeError::InvalidBitPattern,
            ),
            <Self as CompanionSer<'static>>::spec_decode_error(
                self.spec_wire().update(1, StatTypes::Radio.spec_code()),
            ) is None,
            <Self as CompanionSer<'static>>::spec_decoded(
                self.spec_wire().update(1, StatTypes::Radio.spec_code()),
                self,
            ),
    {
        let w = self.spec_wire().update(1, StatTypes::Radio.spec_code());
        lemma_u32_roundtrip(self.recv, tail(w, 6));
        assert(tail(w, 2) == u32_le(self.recv) + tail(w, 6));
        lemma_u32_roundtrip(self.sent, tail(w, 10));
        assert(tail(w, 6) == u32_le(self.sent) + tail(w, 10));
        lemma_u32_roundtrip(self.flood_tx, tail(w, 14));
        assert(tail(w, 10) == u32_le(self.flood_tx) + tail(w, 14));
        lemma_u32_roundtrip(self.direct_tx, tail(w, 18));
        assert(tail(w, 14) == u32_le(self.direct_tx) + tail(w, 18));
        lemma_u32_roundtrip(self.flood_rx, tail(w, 22));
        assert(tail(w, 18) == u32_le(self.flood_rx) + tail(w, 22));
        lemma_u32_roundtrip(self.direct_rx, tail(w, 26));
        assert(tail(w, 22) == u32_le(self.direct_rx) + tail(w, 26));
        lemma_u32_roundtrip(self.recv_errors, tail(w, 30));
        assert(tail(w, 26) == u32_le(self.recv_errors) + tail(w, 30));
    }

    /// Where each field of a decoded `PacketStats` is read from in its frame: the
    /// frame layout, byte by byte.
    pub proof fn lemma_decoded_fields(b: Seq<u8>, v: Self)
        requires
            <Self as CompanionSer<'static>>::spec_decode_error(b) is None,
            <Self as CompanionSer<'static>>::spec_decoded(b, v),
        ensures
            v.recv == u32_at(b, 2),
            v.sent == u32_at(b, 6),
            v.flood_tx == u32_at(b, 10),
            v.direct_tx == u32_at(b, 14),
            v.flood_rx == u32_at(b, 18),
            v.direct_rx == u32_at(b, 22),
            v.recv_errors == u32_at(b, 26) ,
    {
    }
}

// ---------------------------------------------------------------------------

/// Appends signed bytes in two's complement.
pub fn put_i8_slice(out: &mut Vec<u8>, s: &[i8])
    ensures
        final(out)@ == old(out)@ + s@.map_values(|x: i8| i8_byte(x)),
{
    let ghost start = out@;
    let mut i: usize = 0;
    while i < s.len()
        invariant
            i <= s@.len(),
            out@ == start + s@.subrange(0, i as int).map_values(|x: i8| i8_byte(x)),
        decreases s.len() - i,
    {
        put_i8(out, s[i]);
        i = i + 1;
        assert(s@.subrange(0, i as int).map_values(|x: i8| i8_byte(x)) =~= s@.subrange(
            0,
            i - 1,
        ).map_values(|x: i8| i8_byte(x)).push(i8_byte(s@[i - 1])));
    }
    assert(s@.subrange(0, s@.len() as int) == s@);
}

/// The signed values of bytes read in two's complement.
pub fn bytes_to_i8s(s: &[u8]) -> (v: Vec<i8>)
    ensures
        v@ == s@.map_values(|b: u8| byte_i8(b)),
{
    let mut v: Vec<i8> = Vec::new();
    let mut i: usize = 0;
    while i < s.len()
        invariant
            i <= s@.len(),
            v@ == s@.subrange(0, i as int).map_values(|b: u8| byte_i8(b)),
        decreases s.len() - i,
    {
        let b = s[i];
        let x: i8 = if b >= 128 {
            (b as i16 - 256) as i8
        } else {
            b as i8
        };
        v.push(x);
        i = i + 1;
        assert(s@.subrange(0, i as int).map_values(|b: u8| byte_i8(b)) =~= s@.subrange(
            0,
            i - 1,
        ).map_values(|b: u8| byte_i8(b)).push(byte_i8(s@[i - 1])));
    }
    assert(s@.subrange(0, s@.len() as int) == s@);
    v
}

/// The result of a trace: the path it took and the SNR seen at each hop.
/// Reading takes the path as one byte per hop.
pub struct TraceData {
    pub reserved: u8,
    pub flags: u8,
    pub tag: [u8; 4],
    pub auth_code: [u8; 4],
    pub path: Path,
    pub snrs: Vec<i8>,
    pub last_snr: i8,
}

impl<'a> CompanionSer<'a> for TraceData {
    open spec fn spec_wire(&self) -> Seq<u8> {
        seq![
            ResponseCodes::TraceData.spec_code(),
            self.reserved,
            self.path.spec_len() as u8,
            self.flags | (self.path.mode.spec_bits() & 0x03),
        ] + self.tag@ + self.auth_code@ + self.path.bytes@ + self.snrs@.map_values(
            |x: i8| i8_byte(x),
        ) + seq![i8_byte(self.last_snr)]
    }

    open spec fn spec_decode_error(b: Seq<u8>) -> Option<DecodeError> {
        if spec_code_error(b, ResponseCodes::TraceData.spec_code()) is Some {
            spec_code_error(b, ResponseCodes::TraceData.spec_code())
        } else if b.len() < 12 {
            Some(DecodeError::UnexpectedEof)
        } else if b.len() < 13 + 2 * b[2] {
            Some(DecodeError::UnexpectedEof)
        } else {
            None
        }
    }

    open spec fn spec_decoded(b: Seq<u8>, v: Self) -> bool {
        let n = b[2] as int;
        &&& v.reserved == b[1]
        &&& v.flags == b[3]
        &&& v.tag@ == b.subrange(4, 8)
        &&& v.auth_code@ == b.subrange(8, 12)
        &&& v.path.mode == PathHashMode::OneByte
        &&& v.path.bytes@ == b.subrange(12, 12 + n)
        &&& v.snrs@ == b.subrange(12 + n, 12 + 2 * n).map_values(|x: u8| byte_i8(x))
        &&& v.last_snr == byte_i8(b[12 + 2 * n])
    }

    fn ser_size(&self) -> (n: usize) {
        1 + 1 + 1 + 1 + 4 + 4 + self.path.raw_bytes().len() + self.snrs.len() + 1
    }

    fn write_wire(&self, out: &mut Vec<u8>) {
        put_u8(out, ResponseCodes::TraceData.code());
        put_u8(out, self.reserved);
        put_u8(out, self.path.len() as u8);
        put_u8(out, self.flags | (self.path.mode.bits() & 0x03));
        put_array(out, &self.tag);
        put_array(out, &self.auth_code);
        put_slice(out, self.path.raw_bytes());
        put_i8_slice(out, self.snrs.as_slice());
        put_i8(out, self.last_snr);
    }

    fn companion_deserialize(input: &'a [u8]) -> (r: Result<Self, DecodeError>) {
        let mut rd = SliceReader::new(input);
        expect_code(&mut rd, ResponseCodes::TraceData.code())?;
        let reserved = rd.read_u8()?;
        let path_len = rd.read_u8()?;
        let flags = rd.read_u8()?;
        let tag = rd.read_chunk::<4>()?;
        let auth_code = rd.read_chunk::<4>()?;
        let path = Path::from_bytes(PathHashMode::OneByte, rd.read_slice(path_len as usize)?);
        let snrs = bytes_to_i8s(rd.read_slice(path_len as usize)?);
        let last_snr = rd.read_i8()?;
        Ok(TraceData { reserved, flags, tag, auth_code, path, snrs, last_snr })
    }
}

impl TraceData {
    /// Decoding the bytes of a `TraceData` gives it back when its path takes
    /// one byte per hop, has fewer than 256 hops, and has one SNR per hop.
    pub proof fn lemma_roundtrip(self)
        requires
            self.path.mode == PathHashMode::OneByte,
            self.path.bytes@.len() < 256,
            self.snrs@.len() == self.path.bytes@.len(),
        ensures
            <Self as CompanionSer<'static>>::spec_decode_error(self.spec_wire()) is None,
            <Self as CompanionSer<'static>>::spec_decoded(self.spec_wire(), self),
    {
        let w = self.spec_wire();
        let n = self.path.bytes@.len() as int;
        let f = self.flags;
        assert(f | (0u8 & 0x03) == f) by (bit_vector);
        assert(self.path.spec_len() == n);
        assert(w[2] == n);
        assert(w.subrange(4, 8) == self.tag@);
        assert(w.subrange(8, 12) == self.auth_code@);
        assert(w.subrange(12, 12 + n) == self.path.bytes@);
        assert(w.subrange(12 + n, 12 + 2 * n).map_values(|x: u8| byte_i8(x)) =~= self.snrs@);
    }

    /// Where each field of a decoded `TraceData` is read from in its frame: the
    /// frame layout, byte by byte.
    pub proof fn lemma_decoded_fields(b: Seq<u8>, v: Self)
        requires
            <Self as CompanionSer<'static>>::spec_decode_error(b) is None,
            <Self as CompanionSer<'static>>::spec_decoded(b, v),
        ensures
            ({
                let n = b[2] as int;
                &&& v.reserved == b[1]
                &&& v.flags == b[3]
                &&& v.tag@ == b.subrange(4, 8)
                &&& v.auth_code@ == b.subrange(8, 12)
                &&& v.path.mode == PathHashMode::OneByte
                &&& v.path.bytes@ == b.subrange(12, 12 + n)
                &&& v.snrs@ == b.subrange(12 + n, 12 + 2 * n).map_values(|x: u8| byte_i8(x))
                &&& v.last_snr == byte_i8(b[12 + 2 * n])
                
            }),
    {
    }
}

// ---------------------------------------------------------------------------

/// A stored contact: its key, name, known path (or none, meaning flood),
/// advert flags, location and when it was last heard.
pub struct Contact {
    pub key: [u8; 32],
    pub name: String,
    pub path_to: Option<Path>,
    pub flags: u8,
    pub latitude: u32,
    pub longitude: u32,
    pub last_heard: u32,
}

/// The name field of a contact frame: the name, then nils up to 32 bytes.
pub open spec fn spec_name_field(name: &String) -> Seq<u8> {
    string_bytes(name) + repeated(0, (32 - string_bytes(name).len()) as nat)
}

impl<'a> CompanionSer<'a> for Contact {
    open spec fn spec_wire(&self) -> Seq<u8> {
        seq![ResponseCodes::Contact.spec_code()] + self.key@ + seq![
            spec_adv_type(self.flags),
            self.flags,
        ] + match self.path_to {
            Some(p) => seq![p.spec_header().spec_byte()] + p.bytes@ + repeated(
                0,
                (64 - p.bytes@.len()) as nat,
            ),
            None => seq![0xFFu8] + repeated(0, 64),
        } + spec_name_field(&self.name) + u32_le(self.last_heard) + u32_le(self.latitude) + u32_le(
            self.longitude,
        ) + u32_le(0)
    }

    /// The flags are all known, the name fits 32 bytes and a path fits 64
    /// bytes and its header.
    open spec fn spec_serializable(&self) -> bool {
        &&& spec_known_flags(self.flags)
        &&& string_bytes(&self.name).len() <= 32
        &&& self.path_to matches Some(p) ==> p.spec_fits_header() && p.bytes@.len() <= 64
    }

    open spec fn spec_ser_size(&self) -> int {
        148
    }

    /// A path header other than the flood marker `0xFF` with selector 3 has
    /// no defined reading once the path field is there to be read.
    open spec fn spec_deserializable(b: Seq<u8>) -> bool {
        b.len() >= 68 && b[0] == ResponseCodes::Contact.spec_code() && b[35] != 0xFF
            ==> PathLen::spec_from_byte(b[35]) is Some
    }

    open spec fn spec_decode_error(b: Seq<u8>) -> Option<DecodeError> {
        let at = if b[35] == 0xFF {
            100
        } else {
            68
        };
        if spec_code_error(b, ResponseCodes::Contact.spec_code()) is Some {
            spec_code_error(b, ResponseCodes::Contact.spec_code())
        } else if b.len() < 36 {
            Some(DecodeError::UnexpectedEof)
        } else if b.len() < at {
            Some(DecodeError::UnexpectedEof)
        } else if b[35] != 0xFF && PathLen::spec_from_byte(b[35]) is None {
            Some(DecodeError::InvalidBitPattern)
        } else if NullPaddedString::<'a, 32>::spec_read_error(b, at) is Some {
            NullPaddedString::<'a, 32>::spec_read_error(b, at)
        } else if b.len() < at + 45 {
            Some(DecodeError::UnexpectedEof)
        } else {
            None
        }
    }

    open spec fn spec_decoded(b: Seq<u8>, v: Self) -> bool {
        let at = if b[35] == 0xFF {
            100
        } else {
            68
        };
        &&& v.key@ == b.subrange(1, 33)
        &&& v.flags == b[34]
        &&& if b[35] == 0xFF {
            v.path_to is None
        } else {
            v.path_to matches Some(p) && p.mode == PathLen::spec_from_byte(b[35])->Some_0.mode
                && p.bytes@ == spec_trim_nils(b.subrange(36, 68))
        }
        &&& v.name@ == NullPaddedString::<'a, 32>::spec_read_text(b, at)
        &&& v.last_heard == u32_at(b, at + 32)
        &&& v.latitude == u32_at(b, at + 36)
        &&& v.longitude == u32_at(b, at + 40)
    }

    fn ser_size(&self) -> (n: usize) {
        1 + 32 + 1 + 1 + 1 + 64 + 32 + 4 + 4 + 4 + 4
    }

    fn write_wire(&self, out: &mut Vec<u8>) {
        put_u8(out, ResponseCodes::Contact.code());
        put_array(out, &self.key);
        put_u8(out, adv_type(self.flags));
        put_u8(out, self.flags);
        match &self.path_to {
            Some(path) => {
                put_u8(out, path.path_len_header().into_byte());
                NullPaddedSlice::<64>(path.raw_bytes()).encode_to(out);
            },
            None => {
                put_u8(out, 0xFF);
                NullPaddedSlice::<64>(&[]).encode_to(out);
                assert(Seq::<u8>::empty() + repeated(0, 64) == repeated(0, 64));
            },
        }
        NullPaddedSlice::<32>(self.name.as_str().as_bytes()).encode_to(out);
        put_u32_le(out, self.last_heard);
        put_u32_le(out, self.latitude);
        put_u32_le(out, self.longitude);
        put_u32_le(out, 0);
    }

    fn companion_deserialize(input: &'a [u8]) -> (r: Result<Self, DecodeError>) {
        let mut rd = SliceReader::new(input);
        expect_code(&mut rd, ResponseCodes::Contact.code())?;
        let key = rd.read_chunk::<32>()?;
        let _adv_ty = rd.read_u8()?;
        let flags = rd.read_u8()?;
        let path_len = rd.read_u8()?;
        let path_to = if path_len == 0xFF {
            let _nothing = rd.read_slice(64)?;
            None
        } else {
            let NullPaddedSlice(data) = NullPaddedSlice::<'a, 64>::read(&mut rd)?;
            let header = PathLen::from_byte(path_len)?;
            Some(Path::from_bytes(header.mode, data))
        };
        let name = NullPaddedString::<'a, 32>::read(&mut rd)?;
        let last_heard = rd.read_u32_le()?;
        let latitude = rd.read_u32_le()?;
        let longitude = rd.read_u32_le()?;
        let _res = rd.read_u8()?;
        Ok(Contact {
            key,
            name: name.0.to_owned(),
            path_to,
            flags,
            latitude,
            longitude,
            last_heard,
        })
    }
}

impl Contact {
    /// Decoding the bytes of a `Contact` with no stored path gives it back
    /// when its name fits the 32-byte field and holds no nil.
    pub proof fn lemma_roundtrip(self)
        requires
            self.path_to is None,
            string_bytes(&self.name).len() <= 32,
            forall|j: int|
                0 <= j < string_bytes(&self.name).len() ==> string_bytes(&self.name)[j] != 0,
        ensures
            <Self as CompanionSer<'static>>::spec_decode_error(self.spec_wire()) is None,
            <Self as CompanionSer<'static>>::spec_decoded(self.spec_wire(), self),
    {
        let w = self.spec_wire();
        let n = string_bytes(&self.name);
        lemma_trim_padded(n, (32 - n.len()) as nat);
        lemma_utf8_roundtrip(self.name@);
        assert(w[35] == 0xFF);
        assert(w.subrange(1, 33) == self.key@);
        assert(w.subrange(100, 132) == spec_name_field(&self.name));
        lemma_u32_roundtrip(self.last_heard, tail(w, 136));
        assert(tail(w, 132) == u32_le(self.last_heard) + tail(w, 136));
        lemma_u32_roundtrip(self.latitude, tail(w, 140));
        assert(tail(w, 136) == u32_le(self.latitude) + tail(w, 140));
        lemma_u32_roundtrip(self.longitude, tail(w, 144));
        assert(tail(w, 140) == u32_le(self.longitude) + tail(w, 144));
    }

    /// Where each field of a decoded `Contact` is read from. Behind the code,
    /// key, advert type and flags comes the path header at byte 35; the flood
    /// marker `0xFF` means no path and its 64 bytes are skipped, so the name
    /// sits at 100..132, the last-heard time at 132, the latitude at 136 and
    /// the longitude at 140. Any other header is followed by a path field read
    /// as 32 bytes, which moves those fields 32 bytes earlier.
    pub proof fn lemma_decoded_fields(b: Seq<u8>, v: Self)
        requires
            <Self as CompanionSer<'static>>::spec_decode_error(b) is None,
            <Self as CompanionSer<'static>>::spec_decoded(b, v),
        ensures
            b[35] == 0xFF ==> b.len() >= 145,
            b[35] != 0xFF ==> b.len() >= 113,
            v.key@ == b.subrange(1, 33),
            v.flags == b[34],
            b[35] == 0xFF ==> v.path_to is None,
            b[35] == 0xFF ==> v.name@ == decode_utf8(spec_trim_nils(b.subrange(100, 132))),
            b[35] == 0xFF ==> v.last_heard == u32_at(b, 132),
            b[35] == 0xFF ==> v.latitude == u32_at(b, 136),
            b[35] == 0xFF ==> v.longitude == u32_at(b, 140),
            b[35] != 0xFF ==> (v.path_to matches Some(p) && p.bytes@ == spec_trim_nils(
                b.subrange(36, 68),
            )),
            b[35] != 0xFF ==> v.name@ == decode_utf8(spec_trim_nils(b.subrange(68, 100))),
            b[35] != 0xFF ==> v.last_heard == u32_at(b, 100),
            b[35] != 0xFF ==> v.latitude == u32_at(b, 104),
            b[35] != 0xFF ==> v.longitude == u32_at(b, 108),
    {
    }

    /// Where each field of a contact is written: code 3, the key at 1..33,
    /// the advert type and flags at 33 and 34, the path header at 35 (`0xFF`
    /// without a path) with the path padded to 64 bytes behind it, the padded
    /// name at 100..132, then the last-heard time, latitude and longitude at
    /// 132, 136 and 140 and four zero bytes: 148 bytes in all.
    pub proof fn lemma_written_fields(self)
        requires
            self.spec_serializable(),
        ensures
            self.spec_wire().len() == 148,
            self.spec_wire()[0] == 3,
            self.spec_wire().subrange(1, 33) == self.key@,
            self.spec_wire()[33] == spec_adv_type(self.flags),
            self.spec_wire()[34] == self.flags,
            self.path_to is None ==> self.spec_wire()[35] == 0xFF,
            self.path_to matches Some(p) ==> self.spec_wire()[35] == p.spec_header().spec_byte()
                && self.spec_wire().subrange(36, 36 + p.bytes@.len() as int) == p.bytes@,
            self.spec_wire().subrange(100, 132) == spec_name_field(&self.name),
            u32_at(self.spec_wire(), 132) == self.last_heard,
            u32_at(self.spec_wire(), 136) == self.latitude,
            u32_at(self.spec_wire(), 140) == self.longitude,
            u32_at(self.spec_wire(), 144) == 0,
            self.spec_ser_size() == self.spec_wire().len(),
    {
        let w = self.spec_wire();
        match self.path_to {
            Some(p) => {
                assert(w.subrange(36, 36 + p.bytes@.len() as int) == p.bytes@);
            },
            None => {},
        }
        assert(w.subrange(1, 33) == self.key@);
        assert(w.subrange(100, 132) == spec_name_field(&self.name));
        lemma_u32_roundtrip(self.last_heard, tail(w, 136));
        assert(tail(w, 132) == u32_le(self.last_heard) + tail(w, 136));
        lemma_u32_roundtrip(self.latitude, tail(w, 140));
        assert(tail(w, 136) == u32_le(self.latitude) + tail(w, 140));
        lemma_u32_roundtrip(self.longitude, tail(w, 144));
        assert(tail(w, 140) == u32_le(self.longitude) + tail(w, 144));
        lemma_u32_roundtrip(0, Seq::empty());
        assert(tail(w, 144) == u32_le(0) + Seq::<u8>::empty());
    }
}

} // verus!
