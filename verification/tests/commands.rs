use meshcore_companion::commands::{
    AddUpdateContact, AppStart, ExportContact, GetContacts, GetStats, HostCommand,
    HostCommandType, ImportContact, SendChannelData, SendRawData, SendSelfAdvert, SendTracePath,
    SendTxtMsg, SetAdvertLatLon, SetAdvertName, SetChannel, SetCustomVar, SetRadioParams,
    SignData,
};
use meshcore_companion::mesh::{DecodeError, Path, PathHashMode, TextType};
use meshcore_companion::responses::{Contact, StatTypes};
use meshcore_companion::CompanionSer;

fn serialize<'a, T: CompanionSer<'a>>(v: &T) -> Vec<u8> {
    let mut buf = vec![0xAAu8; 512];
    let n = v.companion_serialize(&mut buf).len();
    buf.truncate(n);
    buf
}

#[test]
fn app_start_bytes_and_back() {
    let cmd = AppStart { app_ver: 3, reserved: [0; 6], app_name: "test" };
    let bytes = serialize(&cmd);
    assert_eq!(bytes, vec![3, 0, 0, 0, 0, 0, 0, b't', b'e', b's', b't']);
    assert_eq!(cmd.ser_size(), 11);
    let back = AppStart::companion_deserialize(&bytes).ok().unwrap();
    assert_eq!(back.app_ver, 3);
    assert_eq!(back.reserved, [0; 6]);
    assert_eq!(back.app_name, "test");
}

#[test]
fn app_start_short_input_is_eof() {
    assert_eq!(AppStart::companion_deserialize(&[1, 2, 3]).err(), Some(DecodeError::UnexpectedEof));
}

#[test]
fn send_txt_msg_layout() {
    let cmd = SendTxtMsg {
        txt_type: TextType::CliCommand,
        attempt: 2,
        timestamp: 0x01020304,
        pubkey: [9, 8, 7, 6, 5, 4],
        text: "hi",
    };
    let bytes = serialize(&cmd);
    assert_eq!(bytes, vec![1, 2, 4, 3, 2, 1, 9, 8, 7, 6, 5, 4, b'h', b'i']);
    assert_eq!(cmd.ser_size(), bytes.len());
    let back = SendTxtMsg::companion_deserialize(&bytes).ok().unwrap();
    assert_eq!(back.txt_type, TextType::CliCommand);
    assert_eq!(back.timestamp, 0x01020304);
    assert_eq!(back.text, "hi");
}

#[test]
fn send_txt_msg_unknown_text_type() {
    let bytes = [7u8, 0, 0, 0, 0, 0, 0, 0, 0, 0, 0, 0];
    assert_eq!(
        SendTxtMsg::companion_deserialize(&bytes).err(),
        Some(DecodeError::InvalidBitPattern)
    );
}

#[test]
fn get_contacts_since_is_optional() {
    assert_eq!(serialize(&GetContacts { since: None }), Vec::<u8>::new());
    assert_eq!(serialize(&GetContacts { since: Some(0x10) }), vec![0x10, 0, 0, 0]);
    assert_eq!(GetContacts::companion_deserialize(&[1, 2]).ok().unwrap().since, None);
    assert_eq!(
        GetContacts::companion_deserialize(&[1, 0, 0, 0]).ok().unwrap().since,
        Some(1)
    );
}

#[test]
fn send_self_advert_flood_flag() {
    assert_eq!(serialize(&SendSelfAdvert { flood: true }), vec![1]);
    assert_eq!(serialize(&SendSelfAdvert { flood: false }), vec![0]);
    assert_eq!(SendSelfAdvert::companion_deserialize(&[]).err(), Some(DecodeError::UnexpectedEof));
    assert!(!SendSelfAdvert::companion_deserialize(&[0]).ok().unwrap().flood);
    assert!(SendSelfAdvert::companion_deserialize(&[7]).ok().unwrap().flood);
}

#[test]
fn set_advert_name_rejects_invalid_utf8() {
    assert_eq!(
        SetAdvertName::companion_deserialize(&[0x66, 0xff]).err(),
        Some(DecodeError::InvalidUtf8)
    );
    let ok = SetAdvertName::companion_deserialize("node\u{e9}".as_bytes()).ok().unwrap();
    assert_eq!(ok.name, "node\u{e9}");
}

#[test]
fn set_radio_params_layout() {
    let cmd = SetRadioParams { freq: 869525, bw: 250000, sf: 11, cr: 5 };
    let bytes = serialize(&cmd);
    assert_eq!(bytes, vec![0x95, 0x44, 0x0d, 0x00, 0x90, 0xd0, 0x03, 0x00, 11, 5]);
    let back = SetRadioParams::companion_deserialize(&bytes).ok().unwrap();
    assert_eq!((back.freq, back.bw, back.sf, back.cr), (869525, 250000, 11, 5));
}

#[test]
fn set_advert_lat_lon_signed() {
    let cmd = SetAdvertLatLon { lat: -1, lon: 2 };
    let bytes = serialize(&cmd);
    assert_eq!(bytes, vec![0xff, 0xff, 0xff, 0xff, 2, 0, 0, 0]);
    let back = SetAdvertLatLon::companion_deserialize(&bytes).ok().unwrap();
    assert_eq!((back.lat, back.lon), (-1, 2));
}

#[test]
fn export_contact_optional_key() {
    assert_eq!(serialize(&ExportContact { pubkey: None }), Vec::<u8>::new());
    assert_eq!(serialize(&ExportContact { pubkey: Some([7; 32]) }), vec![7u8; 32]);
    assert_eq!(ExportContact::companion_deserialize(&[1, 2, 3]).ok().unwrap().pubkey, None);
}

#[test]
fn import_contact_and_sign_data_take_everything() {
    let raw = [1u8, 2, 3];
    assert_eq!(ImportContact::companion_deserialize(&raw).ok().unwrap().bytes, &raw[..]);
    assert_eq!(SignData::companion_deserialize(&raw).ok().unwrap().0, &raw[..]);
    assert_eq!(serialize(&SignData(&raw)), raw.to_vec());
}

#[test]
fn send_raw_data_path_header() {
    let cmd = SendRawData { path: Path::from_bytes(PathHashMode::TwoByte, &[1, 2, 3, 4]), data: &[9] };
    let bytes = serialize(&cmd);
    assert_eq!(bytes, vec![0x42, 1, 2, 3, 4, 9]);
    assert_eq!(cmd.ser_size(), 6);
    let back = SendRawData::companion_deserialize(&bytes).ok().unwrap();
    assert_eq!(back.path.mode, PathHashMode::TwoByte);
    assert_eq!(back.path.bytes, vec![1, 2, 3, 4]);
    assert_eq!(back.data, &[9u8][..]);
}

#[test]
fn send_raw_data_short_path_is_eof() {
    assert_eq!(SendRawData::companion_deserialize(&[]).err(), Some(DecodeError::UnexpectedEof));
    assert_eq!(
        SendRawData::companion_deserialize(&[0x02, 7]).err(),
        Some(DecodeError::UnexpectedEof)
    );
}

#[test]
fn send_channel_data_size_leaves_out_path() {
    let cmd = SendChannelData {
        channel_idx: 2,
        path: Path::from_bytes(PathHashMode::OneByte, &[5]),
        data_type: 0x0102,
        bytes: &[0xee],
    };
    assert_eq!(serialize(&cmd), vec![2, 0x01, 5, 0x02, 0x01, 0xee]);
    assert_eq!(cmd.ser_size(), 5);
}

#[test]
fn set_channel_name_field() {
    let cmd = SetChannel { idx: 1, name: "ch", secret: [3; 16] };
    let bytes = serialize(&cmd);
    assert_eq!(bytes.len(), 1 + 32 + 16);
    assert_eq!(&bytes[0..3], &[1, b'c', b'h']);
    assert!(bytes[3..33].iter().all(|b| *b == 0));
    let back = SetChannel::companion_deserialize(&bytes).ok().unwrap();
    assert_eq!(back.name, "ch");
    assert_eq!(back.secret, [3; 16]);
}

#[test]
fn send_trace_path_mode_from_flags() {
    let cmd = SendTracePath {
        tag: [1, 2, 3, 4],
        auth: [5, 6, 7, 8],
        flags: 1,
        path: Path::from_bytes(PathHashMode::TwoByte, &[0xa, 0xb, 0xc, 0xd]),
    };
    let bytes = serialize(&cmd);
    assert_eq!(bytes, vec![1, 2, 3, 4, 5, 6, 7, 8, 1, 0xa, 0xb, 0xc, 0xd]);
    assert_eq!(cmd.ser_size(), 11);
    let back = SendTracePath::companion_deserialize(&bytes).ok().unwrap();
    assert_eq!(back.path.mode, PathHashMode::TwoByte);
    assert_eq!(back.path.bytes, vec![0xa, 0xb, 0xc, 0xd]);
    assert_eq!(
        SendTracePath::companion_deserialize(&[0, 0, 0, 0, 0, 0, 0, 0, 3]).err(),
        Some(DecodeError::InvalidBitPattern)
    );
}

#[test]
fn set_custom_var_splits_at_first_colon() {
    let v = SetCustomVar::companion_deserialize(b"a:b:c").ok().unwrap();
    assert_eq!(v.key, "a");
    assert_eq!(v.value, "b:c");
    assert_eq!(
        SetCustomVar::companion_deserialize(b"abc").err(),
        Some(DecodeError::InvalidBitPattern)
    );
    assert_eq!(serialize(&SetCustomVar { key: "k", value: "v" }), b"k:v".to_vec());
}

#[test]
fn get_stats_kinds() {
    assert_eq!(serialize(&GetStats { stats_type: StatTypes::Packets }), vec![2]);
    assert_eq!(GetStats::companion_deserialize(&[1]).ok().unwrap().stats_type, StatTypes::Radio);
    assert_eq!(GetStats::companion_deserialize(&[3]).err(), Some(DecodeError::InvalidBitPattern));
    assert_eq!(GetStats::companion_deserialize(&[]).err(), Some(DecodeError::UnexpectedEof));
}

#[test]
fn add_update_contact_without_path() {
    let c = Contact {
        key: [1; 32],
        name: String::from("bob"),
        path_to: None,
        flags: 0x81,
        latitude: 1,
        longitude: 2,
        last_heard: 3,
    };
    let cmd = AddUpdateContact(c);
    let bytes = serialize(&cmd);
    assert_eq!(bytes.len(), 32 + 2 + 1 + 32 + 12);
    assert_eq!(cmd.ser_size(), 79);
    assert_eq!(bytes[32], 1);
    assert_eq!(bytes[33], 0x81);
    assert_eq!(bytes[34], 0);
    assert_eq!(&bytes[35..38], b"bob");
    let back = AddUpdateContact::companion_deserialize(&bytes).ok().unwrap();
    assert_eq!(back.0.name, "bob");
    assert!(back.0.path_to.is_none());
    assert_eq!((back.0.last_heard, back.0.latitude, back.0.longitude), (3, 1, 2));
}

#[test]
fn host_command_codes() {
    let mut buf = [0u8; 64];
    assert_eq!(HostCommand::GetDeviceTime.companion_serialize(&mut buf), &[5u8][..]);
    let cmd = HostCommand::SetRadioParams(SetRadioParams { freq: 1, bw: 2, sf: 3, cr: 4 });
    assert_eq!(cmd.ser_size(), 11);
    let bytes = serialize(&cmd);
    assert_eq!(bytes, vec![11, 1, 0, 0, 0, 2, 0, 0, 0, 3, 4]);
    match HostCommand::companion_deserialize(&bytes).ok().unwrap() {
        HostCommand::SetRadioParams(p) => assert_eq!((p.freq, p.bw, p.sf, p.cr), (1, 2, 3, 4)),
        _ => panic!("wrong command"),
    }
    match HostCommand::companion_deserialize(&[40]).ok().unwrap() {
        HostCommand::GetCustomVars => {},
        _ => panic!("wrong command"),
    }
}

#[test]
fn host_command_errors() {
    assert_eq!(HostCommand::companion_deserialize(&[]).err(), Some(DecodeError::UnexpectedEof));
    assert_eq!(HostCommand::companion_deserialize(&[0]).err(), Some(DecodeError::InvalidBitPattern));
    assert_eq!(HostCommand::companion_deserialize(&[28]).err(), Some(DecodeError::InvalidBitPattern));
    assert_eq!(HostCommand::companion_deserialize(&[12]).err(), Some(DecodeError::UnexpectedEof));
}

#[test]
fn host_command_type_codes_round_trip() {
    for b in 0u8..=255 {
        if let Some(t) = HostCommandType::from_repr(b) {
            assert_eq!(t.code(), b);
        }
    }
    assert_eq!(HostCommandType::from_repr(57), Some(HostCommandType::SendAnonReq));
    assert_eq!(HostCommandType::from_repr(58), None);
}
