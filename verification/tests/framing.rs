use meshcore_companion::mesh::{
    adv_type, known_flags, read_path, write_path, DecodeError, Path, PathHashMode, PathLen,
    TextType,
};
use meshcore_companion::wire::{
    find_byte, put_i16_le, put_i8, put_repeated, put_u16_le, put_u32_le, read_utf8, SliceReader,
};
use meshcore_companion::{NullPaddedSlice, NullPaddedString};

#[test]
fn null_padded_string_encodes_to_field_size() {
    let mut out = Vec::new();
    NullPaddedString::<8>("abc").encode_to(&mut out);
    assert_eq!(out, vec![b'a', b'b', b'c', 0, 0, 0, 0, 0]);
}

#[test]
fn null_padded_string_read_trims_at_first_nil() {
    let mut field = vec![0u8; 32];
    field[..5].copy_from_slice(b"ab\0cd");
    field.push(0x77);
    let mut rd = SliceReader::new(&field);
    let s = NullPaddedString::<32>::read(&mut rd).ok().unwrap();
    assert_eq!(s.0, "ab");
    assert_eq!(rd.pos, 32);
    assert_eq!(rd.read_u8().ok(), Some(0x77));
}

#[test]
fn null_padded_string_read_errors() {
    let short = [b'a'; 31];
    let mut rd = SliceReader::new(&short);
    assert_eq!(NullPaddedString::<32>::read(&mut rd).err(), Some(DecodeError::UnexpectedEof));
    let mut bad = vec![0u8; 32];
    bad[0] = 0xff;
    let mut rd = SliceReader::new(&bad);
    assert_eq!(NullPaddedString::<32>::read(&mut rd).err(), Some(DecodeError::InvalidUtf8));
}

#[test]
fn null_padded_slice_full_field_has_no_nil() {
    let field = [7u8; 32];
    let mut rd = SliceReader::new(&field);
    let s = NullPaddedSlice::<32>::read(&mut rd).ok().unwrap();
    assert_eq!(s.0, &field[..]);
    let mut out = Vec::new();
    NullPaddedSlice::<4>::from(&[1u8, 2][..]).encode_to(&mut out);
    assert_eq!(out, vec![1, 2, 0, 0]);
    NullPaddedSlice::<3>::from("hi").encode_to(&mut out);
    assert_eq!(out, vec![1, 2, 0, 0, b'h', b'i', 0]);
}

#[test]
fn little_endian_writers() {
    let mut out = Vec::new();
    put_u16_le(&mut out, 0x1234);
    put_u32_le(&mut out, 0xdeadbeef);
    put_i16_le(&mut out, -2);
    put_i8(&mut out, -1);
    put_repeated(&mut out, 9, 2);
    assert_eq!(out, vec![0x34, 0x12, 0xef, 0xbe, 0xad, 0xde, 0xfe, 0xff, 0xff, 9, 9]);
}

#[test]
fn slice_reader_reads_in_order() {
    let data = [0x34u8, 0x12, 0xef, 0xbe, 0xad, 0xde, 0xfe, 0xff, 0x80];
    let mut rd = SliceReader::new(&data);
    assert_eq!(rd.read_u16_le().ok(), Some(0x1234));
    assert_eq!(rd.read_u32_le().ok(), Some(0xdeadbeef));
    assert_eq!(rd.read_i16_le().ok(), Some(-2));
    assert_eq!(rd.read_i8().ok(), Some(-128));
    assert_eq!(rd.read_u8().err(), Some(DecodeError::UnexpectedEof));
    assert!(rd.read_rest().is_empty());
}

#[test]
fn find_byte_gives_first_occurrence() {
    assert_eq!(find_byte(b':', b"a:b:c"), Some(1));
    assert_eq!(find_byte(b':', b"abc"), None);
    assert_eq!(find_byte(0, &[]), None);
}

#[test]
fn read_utf8_checks_text() {
    assert_eq!(read_utf8("h\u{e9}".as_bytes()).ok(), Some("h\u{e9}"));
    assert_eq!(read_utf8(&[0xe9]).err(), Some(DecodeError::InvalidUtf8));
}

#[test]
fn path_len_header_bits() {
    let h = PathLen { hash_count: 5, mode: PathHashMode::ThreeByte };
    assert_eq!(h.into_byte(), 0x85);
    assert_eq!(h.byte_size(), 15);
    assert_eq!(PathLen::from_byte(0x85).ok(), Some(h));
    assert_eq!(PathLen::from_byte(0xc1).err(), Some(DecodeError::InvalidBitPattern));
    assert_eq!(PathHashMode::TwoByte.hash_size(), 2);
}

#[test]
fn path_written_and_read_back() {
    let p = Path::from_bytes(PathHashMode::TwoByte, &[1, 2, 3, 4, 5, 6]);
    assert_eq!(p.len(), 3);
    assert_eq!(p.byte_size(), 6);
    let mut out = Vec::new();
    write_path(&mut out, &p);
    assert_eq!(out, vec![0x43, 1, 2, 3, 4, 5, 6]);
    let mut rd = SliceReader::new(&out);
    let back = read_path(&mut rd).ok().unwrap();
    assert_eq!(back.mode, p.mode);
    assert_eq!(back.bytes, p.bytes);
}

#[test]
fn advert_flags() {
    assert_eq!(adv_type(0x81), 1);
    assert_eq!(adv_type(0x02), 2);
    assert_eq!(adv_type(0x03), 1);
    assert_eq!(adv_type(0x10), 0);
    assert!(known_flags(0xf7));
    assert!(!known_flags(0x08));
}

#[test]
fn text_type_codes() {
    assert_eq!(TextType::SignedPlainText.code(), 2);
    assert_eq!(TextType::from_code(1), Some(TextType::CliCommand));
    assert_eq!(TextType::from_code(3), None);
}
