//! The mesh protocol values that companion frames carry: decode errors, text
//! types, routing paths and their one-byte length header, advert flags and
//! login permissions.
use vstd::prelude::*;

use crate::wire::{put_slice, put_u8, SliceReader};

verus! {

/// Why a frame could not be decoded.
#[derive(Clone, Copy, Debug, PartialEq, Eq, Structural)]
pub enum DecodeError {
    /// The input ended before the frame did.
    UnexpectedEof,
    /// A byte held a value that the format does not allow there.
    InvalidBitPattern,
    /// Text in the frame is not valid UTF-8.
    InvalidUtf8,
}

/// What kind of text a message carries.
#[derive(Clone, Copy, Debug, PartialEq, Eq, Structural)]
pub enum TextType {
    PlainText,
    CliCommand,
    SignedPlainText,
}

impl TextType {
    /// The byte that stands for this text type.
    pub open spec fn spec_code(self) -> u8 {
        match self {
            TextType::PlainText => 0,
            TextType::CliCommand => 1,
            TextType::SignedPlainText => 2,
        }
    }

    /// The text type that byte `b` stands for, if any.
    pub open spec fn spec_from_code(b: u8) -> Option<TextType> {
        if b == 0 {
            Some(TextType::PlainText)
        } else if b == 1 {
            Some(TextType::CliCommand)
        } else if b == 2 {
            Some(TextType::SignedPlainText)
        } else {
            None
        }
    }

    /// The byte that stands for this text type.
    pub fn code(self) -> (b: u8)
        ensures
            b == self.spec_code(),
    {
        match self {
            TextType::PlainText => 0,
            TextType::CliCommand => 1,
            TextType::SignedPlainText => 2,
        }
    }

    /// The text type that byte `b` stands for: 0, 1 and 2 have one, other
    /// bytes none.
    pub fn from_code(b: u8) -> (t: Option<TextType>)
        ensures
            t == Self::spec_from_code(b),
    {
        if b == 0 {
            Some(TextType::PlainText)
        } else if b == 1 {
            Some(TextType::CliCommand)
        } else if b == 2 {
            Some(TextType::SignedPlainText)
        } else {
            None
        }
    }

    /// The protocol's byte for every text type, and the text type each byte
    /// is read as.
    pub proof fn lemma_protocol_codes(b: u8)
        ensures
            TextType::PlainText.spec_code() == 0,
            TextType::CliCommand.spec_code() == 1,
            TextType::SignedPlainText.spec_code() == 2,
            TextType::spec_from_code(0) == Some(TextType::PlainText),
            TextType::spec_from_code(1) == Some(TextType::CliCommand),
            TextType::spec_from_code(2) == Some(TextType::SignedPlainText),
            b > 2 ==> TextType::spec_from_code(b) is None,
    {
    }

    /// Decoding a text type's byte gives the text type back.
    pub proof fn lemma_code_roundtrip(self)
        ensures
            Self::spec_from_code(self.spec_code()) == Some(self),
    {
    }
}

/// How many bytes each hop of a routing path takes.
#[derive(Clone, Copy, Debug, PartialEq, Eq, Structural)]
pub enum PathHashMode {
    OneByte,
    TwoByte,
    ThreeByte,
}

impl PathHashMode {
    /// The two-bit selector that stands for this mode.
    pub open spec fn spec_bits(self) -> u8 {
        match self {
            PathHashMode::OneByte => 0,
            PathHashMode::TwoByte => 1,
            PathHashMode::ThreeByte => 2,
        }
    }

    /// Bytes per hop.
    pub open spec fn spec_hash_size(self) -> nat {
        match self {
            PathHashMode::OneByte => 1,
            PathHashMode::TwoByte => 2,
            PathHashMode::ThreeByte => 3,
        }
    }

    /// Number of bytes that `n` hops take.
    pub open spec fn spec_hops_size(self, n: int) -> int {
        match self {
            PathHashMode::OneByte => n,
            PathHashMode::TwoByte => n * 2,
            PathHashMode::ThreeByte => n * 3,
        }
    }

    /// Number of whole hops in `n` bytes.
    pub open spec fn spec_hops_in(self, n: int) -> int {
        match self {
            PathHashMode::OneByte => n,
            PathHashMode::TwoByte => n / 2,
            PathHashMode::ThreeByte => n / 3,
        }
    }

    /// The mode that a two-bit selector stands for; selector 3 stands for none.
    pub open spec fn spec_from_bits(b: u8) -> Option<PathHashMode> {
        if b == 0 {
            Some(PathHashMode::OneByte)
        } else if b == 1 {
            Some(PathHashMode::TwoByte)
        } else if b == 2 {
            Some(PathHashMode::ThreeByte)
        } else {
            None
        }
    }

    /// The selector and hop size of every hash mode: selector 0 is one byte
    /// per hop, 1 two, 2 three, and selector 3 names no mode.
    pub proof fn lemma_protocol_selectors()
        ensures
            PathHashMode::OneByte.spec_bits() == 0 && PathHashMode::OneByte.spec_hash_size() == 1,
            PathHashMode::TwoByte.spec_bits() == 1 && PathHashMode::TwoByte.spec_hash_size() == 2,
            PathHashMode::ThreeByte.spec_bits() == 2 && PathHashMode::ThreeByte.spec_hash_size()
                == 3,
            PathHashMode::spec_from_bits(0) == Some(PathHashMode::OneByte),
            PathHashMode::spec_from_bits(1) == Some(PathHashMode::TwoByte),
            PathHashMode::spec_from_bits(2) == Some(PathHashMode::ThreeByte),
            PathHashMode::spec_from_bits(3) is None,
            forall|n: int| PathHashMode::OneByte.spec_hops_size(n) == n,
            forall|n: int| PathHashMode::TwoByte.spec_hops_size(n) == 2 * n,
            forall|n: int| PathHashMode::ThreeByte.spec_hops_size(n) == 3 * n,
    {
    }

    /// The two-bit selector that stands for this mode.
    pub fn bits(self) -> (b: u8)
        ensures
            b == self.spec_bits(),
    {
        match self {
            PathHashMode::OneByte => 0,
            PathHashMode::TwoByte => 1,
            PathHashMode::ThreeByte => 2,
        }
    }

    /// Bytes per hop.
    pub fn hash_size(self) -> (n: usize)
        ensures
            n == self.spec_hash_size(),
    {
        self.bits() as usize + 1
    }

    /// The mode that selector `b` stands for; `InvalidBitPattern` for any
    /// other byte.
    pub fn from_bits(b: u8) -> (r: Result<PathHashMode, DecodeError>)
        ensures
            r matches Ok(m) ==> Self::spec_from_bits(b) == Some(m),
            r is Err <==> Self::spec_from_bits(b) is None,
            r matches Err(e) ==> e == DecodeError::InvalidBitPattern,
    {
        if b == 0 {
            Ok(PathHashMode::OneByte)
        } else if b == 1 {
            Ok(PathHashMode::TwoByte)
        } else if b == 2 {
            Ok(PathHashMode::ThreeByte)
        } else {
            Err(DecodeError::InvalidBitPattern)
        }
    }
}

/// The one-byte header in front of a routing path: the hop count in the low
/// six bits, the hash-size selector in the high two.
#[derive(Clone, Copy, Debug, PartialEq, Eq, Structural)]
pub struct PathLen {
    pub hash_count: u8,
    pub mode: PathHashMode,
}

impl PathLen {
    /// The hop count fits its six bits.
    pub open spec fn spec_wf(self) -> bool {
        self.hash_count < 64
    }

    /// The header byte.
    pub open spec fn spec_byte(self) -> u8 {
        (self.mode.spec_bits() * 64 + self.hash_count) as u8
    }

    /// The header that byte `b` holds, if its selector names a mode.
    pub open spec fn spec_from_byte(b: u8) -> Option<PathLen> {
        match PathHashMode::spec_from_bits(b / 64) {
            Some(m) => Some(PathLen { hash_count: b % 64, mode: m }),
            None => None,
        }
    }

    /// How many path bytes follow the header.
    pub open spec fn spec_byte_size(self) -> nat {
        self.mode.spec_hops_size(self.hash_count as int) as nat
    }

    /// The header byte holds the hop count in its low six bits and the mode's
    /// selector in its high two, and announces hop count times hop size
    /// bytes; a byte read as a header gives back those two parts.
    pub proof fn lemma_header_layout(self, b: u8)
        ensures
            self.spec_wf() ==> self.spec_byte() % 64 == self.hash_count && self.spec_byte() / 64
                == self.mode.spec_bits(),
            self.spec_byte_size() == self.hash_count * self.mode.spec_hash_size(),
            PathLen::spec_from_byte(b) matches Some(h) ==> h.hash_count == b % 64
                && h.mode.spec_bits() == b / 64,
            PathLen::spec_from_byte(b) is None <==> b / 64 == 3,
    {
        match self.mode {
            PathHashMode::OneByte => {
                assert(self.mode.spec_hash_size() == 1);
                assert(self.hash_count * 1 == self.hash_count);
            },
            PathHashMode::TwoByte => assert(self.mode.spec_hash_size() == 2),
            PathHashMode::ThreeByte => assert(self.mode.spec_hash_size() == 3),
        }
    }

    /// Reads a header byte; `InvalidBitPattern` when its selector is 3.
    pub fn from_byte(b: u8) -> (r: Result<PathLen, DecodeError>)
        ensures
            r matches Ok(p) ==> Self::spec_from_byte(b) == Some(p) && p.spec_wf(),
            r is Err <==> Self::spec_from_byte(b) is None,
            r matches Err(e) ==> e == DecodeError::InvalidBitPattern,
    {
        let mode = PathHashMode::from_bits(b / 64)?;
        Ok(PathLen { hash_count: b % 64, mode })
    }

    /// The header byte.
    pub fn into_byte(self) -> (b: u8)
        requires
            self.spec_wf(),
        ensures
            b == self.spec_byte(),
    {
        self.mode.bits() * 64 + self.hash_count
    }

    /// How many path bytes follow the header.
    pub fn byte_size(self) -> (n: usize)
        ensures
            n == self.spec_byte_size(),
    {
        let hc = self.hash_count as usize;
        match self.mode {
            PathHashMode::OneByte => hc,
            PathHashMode::TwoByte => hc * 2,
            PathHashMode::ThreeByte => hc * 3,
        }
    }

    /// A well-formed header survives being written and read back.
    pub proof fn lemma_byte_roundtrip(self)
        requires
            self.spec_wf(),
        ensures
            Self::spec_from_byte(self.spec_byte()) == Some(self),
    {
        let b = self.spec_byte();
        assert(b / 64 == self.mode.spec_bits());
        assert(b % 64 == self.hash_count);
    }
}

/// A routing path: the hop hashes, each `mode.spec_hash_size()` bytes long.
#[derive(Clone, Debug)]
pub struct Path {
    pub mode: PathHashMode,
    pub bytes: Vec<u8>,
}

impl Path {
    /// Number of hops the bytes hold.
    pub open spec fn spec_len(&self) -> nat {
        self.mode.spec_hops_in(self.bytes@.len() as int) as nat
    }

    /// The bytes hold whole hops only.
    pub open spec fn spec_whole(&self) -> bool {
        self.mode.spec_hops_size(self.spec_len() as int) == self.bytes@.len()
    }

    /// The hop count fits the six bits of a header.
    pub open spec fn spec_fits_header(&self) -> bool {
        self.spec_len() < 64
    }

    /// The header that describes this path.
    pub open spec fn spec_header(&self) -> PathLen {
        PathLen { hash_count: self.spec_len() as u8, mode: self.mode }
    }

    /// A path of the given mode over a copy of `bytes`.
    pub fn from_bytes(mode: PathHashMode, bytes: &[u8]) -> (p: Path)
        ensures
            p.mode == mode,
            p.bytes@ == bytes@,
    {
        let mut v: Vec<u8> = Vec::new();
        put_slice(&mut v, bytes);
        Path { mode, bytes: v }
    }

    /// The hop bytes.
    pub fn raw_bytes(&self) -> (s: &[u8])
        ensures
            s@ == self.bytes@,
    {
        self.bytes.as_slice()
    }

    /// Number of bytes the hops take.
    pub fn byte_size(&self) -> (n: usize)
        ensures
            n == self.bytes@.len(),
    {
        self.bytes.len()
    }

    /// Number of hops.
    pub fn len(&self) -> (n: usize)
        ensures
            n == self.spec_len(),
    {
        match self.mode {
            PathHashMode::OneByte => self.bytes.len(),
            PathHashMode::TwoByte => self.bytes.len() / 2,
            PathHashMode::ThreeByte => self.bytes.len() / 3,
        }
    }

    /// The header that describes this path.
    pub fn path_len_header(&self) -> (h: PathLen)
        requires
            self.spec_fits_header(),
        ensures
            h == self.spec_header(),
            h.spec_wf(),
    {
        PathLen { hash_count: self.len() as u8, mode: self.mode }
    }

    /// The header of a whole path announces exactly its bytes.
    pub proof fn lemma_header_size(&self)
        requires
            self.spec_whole(),
            self.spec_fits_header(),
        ensures
            self.spec_header().spec_byte_size() == self.bytes@.len(),
    {
    }
}

/// Why reading a header-prefixed path at offset `at` of `b` fails, or `None`.
pub open spec fn spec_path_error(b: Seq<u8>, at: int) -> Option<DecodeError> {
    if b.len() <= at {
        Some(DecodeError::UnexpectedEof)
    } else {
        match PathLen::spec_from_byte(b[at]) {
            None => Some(DecodeError::InvalidBitPattern),
            Some(h) => if b.len() - at - 1 < h.spec_byte_size() {
                Some(DecodeError::UnexpectedEof)
            } else {
                None
            },
        }
    }
}

/// A path header at offset `at` of `b`, when the input reaches it, has a
/// selector that names a hash mode. Frames whose path header has selector 3
/// have no defined reading.
pub open spec fn spec_path_header_known(b: Seq<u8>, at: int) -> bool {
    b.len() > at ==> PathLen::spec_from_byte(b[at]) is Some
}

/// Number of bytes a header-prefixed path at offset `at` of `b` takes.
pub open spec fn spec_path_span(b: Seq<u8>, at: int) -> int {
    1 + PathLen::spec_from_byte(b[at])->Some_0.spec_byte_size() as int
}

/// `p` is the path that reading a header-prefixed path at offset `at` of `b`
/// yields.
pub open spec fn spec_path_at(b: Seq<u8>, at: int, p: Path) -> bool {
    let h = PathLen::spec_from_byte(b[at])->Some_0;
    &&& p.mode == h.mode
    &&& p.bytes@ == b.subrange(at + 1, at + 1 + h.spec_byte_size())
}

/// The bytes of a path behind its header.
pub open spec fn spec_path_wire(p: Path) -> Seq<u8> {
    seq![p.spec_header().spec_byte()] + p.bytes@
}

/// Takes a header-prefixed path.
pub fn read_path(rd: &mut SliceReader) -> (r: Result<Path, DecodeError>)
    requires
        old(rd).spec_wf(),
    ensures
        final(rd).spec_wf(),
        final(rd).data == old(rd).data,
        r is Ok <==> spec_path_error(old(rd).data@, old(rd).pos as int) is None,
        r matches Err(e) ==> spec_path_error(old(rd).data@, old(rd).pos as int) == Some(e),
        r matches Ok(p) ==> spec_path_at(old(rd).data@, old(rd).pos as int, p) && final(rd).pos
            == old(rd).pos + spec_path_span(old(rd).data@, old(rd).pos as int),
{
    let header = PathLen::from_byte(rd.read_u8()?)?;
    let bytes = rd.read_slice(header.byte_size())?;
    Ok(Path::from_bytes(header.mode, bytes))
}

/// Writes a path behind its header.
pub fn write_path(out: &mut Vec<u8>, p: &Path)
    requires
        p.spec_fits_header(),
    ensures
        final(out)@ == old(out)@ + spec_path_wire(*p),
{
    put_u8(out, p.path_len_header().into_byte());
    put_slice(out, p.raw_bytes());
}

/// Reading a written whole path gives it back.
pub proof fn lemma_path_roundtrip(p: Path, front: Seq<u8>, rest: Seq<u8>)
    requires
        p.spec_whole(),
        p.spec_fits_header(),
    ensures
        spec_path_error(front + spec_path_wire(p) + rest, front.len() as int) is None,
        spec_path_span(front + spec_path_wire(p) + rest, front.len() as int) == 1 + p.bytes@.len(),
        spec_path_at(front + spec_path_wire(p) + rest, front.len() as int, p),
{
    let b = front + spec_path_wire(p) + rest;
    let at = front.len() as int;
    assert(b[at] == p.spec_header().spec_byte());
    p.spec_header().lemma_byte_roundtrip();
    p.lemma_header_size();
    assert(b.subrange(at + 1, at + 1 + p.bytes@.len()) == p.bytes@);
}

/// Advert flag: the node is a chat node.
pub const IS_CHAT_NODE: u8 = 0x01;

/// Advert flag: the node is a repeater.
pub const IS_REPEATER: u8 = 0x02;

/// Advert flag: the node is a room server.
pub const IS_ROOM_SERVER: u8 = 0x03;

/// Advert flag: the node is a sensor.
pub const IS_SENSOR: u8 = 0x04;

/// Advert flag: the advert carries a location.
pub const HAS_LOCATION: u8 = 0x10;

/// Advert flag: the advert carries the first feature word.
pub const HAS_FEATURE1: u8 = 0x20;

/// Advert flag: the advert carries the second feature word.
pub const HAS_FEATURE2: u8 = 0x40;

/// Advert flag: the advert carries a name.
pub const HAS_NAME: u8 = 0x80;

/// Every bit set in `flags` belongs to a known advert flag.
pub open spec fn spec_known_flags(flags: u8) -> bool {
    flags & 0x08 == 0
}

/// The advert type that a set of advert flags announces: 1 for a chat node,
/// 2 for a repeater, 3 for a room server, 0 otherwise, tested in that order.
pub open spec fn spec_adv_type(flags: u8) -> u8 {
    if flags & IS_CHAT_NODE == IS_CHAT_NODE {
        1
    } else if flags & IS_REPEATER == IS_REPEATER {
        2
    } else if flags & IS_ROOM_SERVER == IS_ROOM_SERVER {
        3
    } else {
        0
    }
}

/// The advert flag values, and what a set of flags announces: any flags with
/// the low bit set announce a chat node (1), else with bit 1 a repeater (2),
/// else the type 0; only bit 3 is unknown.
pub proof fn lemma_advert_flags(flags: u8)
    ensures
        IS_CHAT_NODE == 1 && IS_REPEATER == 2 && IS_ROOM_SERVER == 3 && IS_SENSOR == 4,
        HAS_LOCATION == 0x10 && HAS_FEATURE1 == 0x20 && HAS_FEATURE2 == 0x40 && HAS_NAME == 0x80,
        flags & 1 == 1 ==> spec_adv_type(flags) == 1,
        flags & 1 == 0 && flags & 2 == 2 ==> spec_adv_type(flags) == 2,
        flags & 3 == 0 ==> spec_adv_type(flags) == 0,
        spec_known_flags(flags) <==> flags & 0x08 == 0,
{
    assert(flags & 1 == 0 && flags & 2 == 2 ==> flags & 3 != 3) by (bit_vector);
    assert(flags & 3 == 0 ==> flags & 1 != 1 && flags & 2 != 2) by (bit_vector);
}

/// Whether every bit set in `flags` belongs to a known advert flag.
pub fn known_flags(flags: u8) -> (b: bool)
    ensures
        b == spec_known_flags(flags),
{
    flags & 0x08 == 0
}

/// The advert type that a set of advert flags announces.
pub fn adv_type(flags: u8) -> (t: u8)
    ensures
        t == spec_adv_type(flags),
{
    if flags & IS_CHAT_NODE == IS_CHAT_NODE {
        1
    } else if flags & IS_REPEATER == IS_REPEATER {
        2
    } else if flags & IS_ROOM_SERVER == IS_ROOM_SERVER {
        3
    } else {
        0
    }
}

/// The permissions a repeater grants on login, as their one-byte bit field.
#[derive(Clone, Copy, Debug, PartialEq, Eq, Structural)]
pub struct Permissions(pub u8);

impl Permissions {
    /// The permissions held in byte `b`.
    pub fn from_byte(b: u8) -> (p: Permissions)
        ensures
            p.0 == b,
    {
        Permissions(b)
    }

    /// The byte that holds these permissions.
    pub fn into_byte(self) -> (b: u8)
        ensures
            b == self.0,
    {
        self.0
    }
}

} // verus!
