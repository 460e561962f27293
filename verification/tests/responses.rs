use meshcore_companion::mesh::{DecodeError, Path, PathHashMode, TextType};
use meshcore_companion::responses::{
    Battery, ChannelInfo, ChannelMsgRecv, DeviceInfo, SelfInfo, CompanionProtoResult, Contact, ContactMsgRecv, CoreStats, CustomVars,
    ErrResponse, GetMessageRes, OkResponse, PacketStats, RadioStats, ResponseCodes, TraceData,
};
use meshcore_companion::{CompanionSer, NullPaddedSlice, NullPaddedString};

fn serialize<'a, T: CompanionSer<'a>>(v: &T) -> Vec<u8> {
    let mut buf = vec![0x55u8; 512];
    let n = v.companion_serialize(&mut buf).len();
    buf.truncate(n);
    buf
}

fn vars(pairs: &[(&str, &str)]) -> CustomVars {
    CustomVars(pairs.iter().map(|(k, v)| (k.to_string(), v.to_string())).collect())
}

#[test]
fn custom_vars_joined_with_commas() {
    let cv = vars(&[("gps", "1"), ("name", "x")]);
    let bytes = serialize(&cv);
    assert_eq!(bytes, b"\x15gps:1,name:x".to_vec());
    assert_eq!(cv.ser_size(), bytes.len());
    let back = CustomVars::companion_deserialize(&bytes).ok().unwrap();
    assert_eq!(back.0, cv.0);
}

#[test]
fn custom_vars_empty_list() {
    let cv = vars(&[]);
    assert_eq!(serialize(&cv), vec![0x15]);
    assert_eq!(cv.ser_size(), 1);
    assert!(CustomVars::companion_deserialize(&[0x15]).ok().unwrap().0.is_empty());
}

#[test]
fn custom_vars_skips_segments_without_colon() {
    let back = CustomVars::companion_deserialize(b"\x15x:1,junk,,y:2:3,").ok().unwrap();
    assert_eq!(
        back.0,
        vec![
            ("x".to_string(), "1".to_string()),
            ("y".to_string(), "2:3".to_string()),
        ]
    );
}

#[test]
fn custom_vars_errors() {
    assert_eq!(CustomVars::companion_deserialize(&[]).err(), Some(DecodeError::UnexpectedEof));
    assert_eq!(
        CustomVars::companion_deserialize(b"\x14a:b").err(),
        Some(DecodeError::InvalidBitPattern)
    );
    assert_eq!(
        CustomVars::companion_deserialize(&[0x15, b'a', b':', 0xc3]).err(),
        Some(DecodeError::InvalidUtf8)
    );
}

#[test]
fn battery_layout() {
    let b = Battery { battery_voltage: 4100, used_storage: 2, total_storage: 0x100 };
    let bytes = serialize(&b);
    assert_eq!(bytes, vec![0x0c, 0x04, 0x10, 2, 0, 0, 0, 0, 1, 0, 0]);
    assert_eq!(b.ser_size(), 11);
    let back = Battery::companion_deserialize(&bytes).ok().unwrap();
    assert_eq!((back.battery_voltage, back.used_storage, back.total_storage), (4100, 2, 0x100));
    assert_eq!(
        Battery::companion_deserialize(&bytes[..10]).err(),
        Some(DecodeError::UnexpectedEof)
    );
    assert_eq!(
        Battery::companion_deserialize(&[0x0d, 0, 0, 0, 0, 0, 0, 0, 0, 0, 0]).err(),
        Some(DecodeError::InvalidBitPattern)
    );
}

#[test]
fn ok_response_optional_code() {
    assert_eq!(serialize(&OkResponse { code: None }), vec![0]);
    assert_eq!(serialize(&OkResponse { code: Some(7) }), vec![0, 7, 0, 0, 0]);
    assert_eq!(OkResponse::companion_deserialize(&[0, 7, 0, 0, 0]).ok().unwrap().code, Some(7));
    assert_eq!(OkResponse::companion_deserialize(&[0, 7, 0]).ok().unwrap().code, None);
}

#[test]
fn err_response_written_with_ok_code() {
    let e = ErrResponse { code: Some(3) };
    assert_eq!(serialize(&e), vec![0, 3]);
    assert_eq!(e.ser_size(), 2);
    assert_eq!(
        ErrResponse::companion_deserialize(&[0, 3]).err(),
        Some(DecodeError::InvalidBitPattern)
    );
    assert_eq!(ErrResponse::companion_deserialize(&[1, 3]).ok().unwrap().code, Some(3));
    assert_eq!(ErrResponse::companion_deserialize(&[1]).ok().unwrap().code, None);
}

#[test]
fn proto_result_picks_by_first_byte() {
    let r = <CompanionProtoResult<Battery>>::companion_deserialize(&[1, 9]).ok().unwrap();
    match r {
        Err(e) => assert_eq!(e.code, Some(9)),
        Ok(_) => panic!("expected an error response"),
    }
    let r = <CompanionProtoResult<OkResponse>>::companion_deserialize(&[0]).ok().unwrap();
    match r {
        Ok(o) => assert_eq!(o.code, None),
        Err(_) => panic!("expected a success response"),
    }
    assert_eq!(
        <CompanionProtoResult<OkResponse>>::companion_deserialize(&[]).err(),
        Some(DecodeError::UnexpectedEof)
    );
}

#[test]
fn core_stats_layout() {
    let s = CoreStats { battery_mv: 3700, uptime_secs: 60, errors: 1, queue_len: 2 };
    let bytes = serialize(&s);
    assert_eq!(bytes, vec![0, 0, 0x74, 0x0e, 60, 0, 0, 0, 1, 0, 2]);
    assert_eq!(s.ser_size(), 11);
    let back = CoreStats::companion_deserialize(&bytes).ok().unwrap();
    assert_eq!((back.battery_mv, back.uptime_secs, back.errors, back.queue_len), (3700, 60, 1, 2));
    let d = CoreStats::default();
    assert_eq!((d.battery_mv, d.uptime_secs, d.errors, d.queue_len), (0, 0, 0, 0));
}

#[test]
fn radio_stats_snr_in_quarters() {
    let s = RadioStats { noise_floor: -120, last_rssi: -90, last_snr: -5, tx_air_secs: 1, rx_air_secs: 2 };
    let bytes = serialize(&s);
    assert_eq!(bytes[..6].to_vec(), vec![0, 1, 0x88, 0xff, 0xa6, 0xec]);
    let back = RadioStats::companion_deserialize(&bytes).ok().unwrap();
    assert_eq!((back.noise_floor, back.last_rssi, back.last_snr), (-120, -90, -5));
    let mut raw = bytes.clone();
    raw[5] = (-7i8) as u8;
    assert_eq!(RadioStats::companion_deserialize(&raw).ok().unwrap().last_snr, -1);
    raw[5] = 7;
    assert_eq!(RadioStats::companion_deserialize(&raw).ok().unwrap().last_snr, 1);
}

#[test]
fn packet_stats_kind_bytes() {
    let s = PacketStats { recv: 1, sent: 2, flood_tx: 3, direct_tx: 4, flood_rx: 5, direct_rx: 6, recv_errors: 7 };
    let bytes = serialize(&s);
    assert_eq!(bytes.len(), 30);
    assert_eq!(&bytes[..3], &[0, 2, 1]);
    assert_eq!(
        PacketStats::companion_deserialize(&bytes).err(),
        Some(DecodeError::InvalidBitPattern)
    );
    let mut raw = bytes.clone();
    raw[1] = 1;
    let back = PacketStats::companion_deserialize(&raw).ok().unwrap();
    assert_eq!((back.recv, back.recv_errors), (1, 7));
}

#[test]
fn contact_msg_signature_only_for_signed_text() {
    let m = ContactMsgRecv {
        snr: 4,
        reserved: [0, 0],
        pk_prefix: [1, 2, 3, 4, 5, 6],
        path_len: 2,
        text_ty: TextType::SignedPlainText,
        timestamp: 1,
        signature: Some([9, 9, 9, 9]),
        data: b"yo",
    };
    let bytes = serialize(&m);
    assert_eq!(bytes.len(), 16 + 4 + 2);
    assert_eq!(m.ser_size(), bytes.len());
    let back = ContactMsgRecv::companion_deserialize(&bytes).ok().unwrap();
    assert_eq!(back.signature, Some([9, 9, 9, 9]));
    assert_eq!(back.data, b"yo");
    let mut plain = bytes.clone();
    plain[11] = 0;
    let back = ContactMsgRecv::companion_deserialize(&plain).ok().unwrap();
    assert_eq!(back.signature, None);
    assert_eq!(back.data, &bytes[16..]);
}

#[test]
fn get_message_res_variants() {
    let ch = ChannelMsgRecv {
        snr: -2,
        reserved: [0, 0],
        idx: 1,
        path_len: 0,
        text_ty: TextType::PlainText,
        timestamp: 5,
        data: b"hey",
    };
    let bytes = serialize(&GetMessageRes::Channel(ch));
    assert_eq!(bytes[..5].to_vec(), vec![0x11, 0xfe, 0, 0, 1]);
    match GetMessageRes::companion_deserialize(&bytes).ok().unwrap() {
        GetMessageRes::Channel(m) => assert_eq!(m.data, b"hey"),
        _ => panic!("expected a channel message"),
    }
    assert_eq!(serialize(&GetMessageRes::NoMoreMessages), vec![0x0a]);
    assert!(matches!(
        GetMessageRes::companion_deserialize(&[0x0a]).ok().unwrap(),
        GetMessageRes::NoMoreMessages
    ));
    assert_eq!(
        GetMessageRes::companion_deserialize(&[0x07]).err(),
        Some(DecodeError::InvalidBitPattern)
    );
}

#[test]
fn trace_data_snrs_in_quarters_not_scaled() {
    let t = TraceData {
        reserved: 0,
        flags: 0,
        tag: [1, 2, 3, 4],
        auth_code: [5, 6, 7, 8],
        path: Path::from_bytes(PathHashMode::OneByte, &[0xaa, 0xbb]),
        snrs: vec![-4, 8],
        last_snr: 12,
    };
    let bytes = serialize(&t);
    assert_eq!(bytes, vec![0x89, 0, 2, 0, 1, 2, 3, 4, 5, 6, 7, 8, 0xaa, 0xbb, 0xfc, 8, 12]);
    assert_eq!(t.ser_size(), bytes.len());
    let back = TraceData::companion_deserialize(&bytes).ok().unwrap();
    assert_eq!(back.path.bytes, vec![0xaa, 0xbb]);
    assert_eq!(back.snrs, vec![-4, 8]);
    assert_eq!(back.last_snr, 12);
}

#[test]
fn contact_frame_size() {
    let c = Contact {
        key: [2; 32],
        name: String::from("alice"),
        path_to: None,
        flags: 0x02,
        latitude: 10,
        longitude: 20,
        last_heard: 30,
    };
    let bytes = serialize(&c);
    assert_eq!(c.ser_size(), 148);
    assert_eq!(bytes.len(), 148);
    assert_eq!(bytes[0], 0x03);
    let back = Contact::companion_deserialize(&bytes).ok().unwrap();
    assert_eq!(back.name, "alice");
    assert!(back.path_to.is_none());
    assert_eq!((back.latitude, back.longitude, back.last_heard), (10, 20, 30));
}

#[test]
fn response_codes_round_trip() {
    for b in 0u8..=255 {
        if let Some(c) = ResponseCodes::from_repr(b) {
            assert_eq!(c.code(), b);
        }
    }
    assert_eq!(ResponseCodes::from_repr(0x15), Some(ResponseCodes::CustomVars));
    assert_eq!(ResponseCodes::from_repr(0x16), None);
}

#[test]
fn device_info_own_bytes_run_short() {
    let d = DeviceInfo {
        fw_version: 8,
        max_contacts: 100,
        max_channels: 8,
        ble_pin: 123456,
        firmware_build: NullPaddedSlice(b"2024"),
        model: NullPaddedSlice(b"T-Beam"),
        version: NullPaddedSlice(b"v1.9"),
        client_repeat_enabled: true,
        path_hash_mode: 0,
    };
    let bytes = serialize(&d);
    assert_eq!(bytes.len(), 82);
    assert_eq!(d.ser_size(), 82);
    assert_eq!(&bytes[0..8], &[0x0d, 8, 100, 8, 0x40, 0xe2, 0x01, 0x00]);
    assert_eq!(DeviceInfo::companion_deserialize(&bytes).err(), Some(DecodeError::UnexpectedEof));
    let mut long = bytes.clone();
    long.resize(106, 0);
    let back = DeviceInfo::companion_deserialize(&long).ok().unwrap();
    assert_eq!(back.firmware_build.0, b"2024");
    assert_eq!(back.ble_pin, 123456);
}

#[test]
fn self_info_round_trip() {
    let s = SelfInfo {
        advertisement_type: 1,
        tx_power: 20,
        max_tx_power: 22,
        public_key: [4; 32],
        lat: 5,
        long: 6,
        multi_acks: 0,
        adv_loc_policy: 1,
        telemetry_mode: 2,
        manual_add_contacts: true,
        radio_freq: 869525,
        radio_bandwidth: 250000,
        radio_sf: 11,
        radio_cr: 5,
        device_name: "node",
    };
    let bytes = serialize(&s);
    assert_eq!(bytes[0], 0x05);
    assert_eq!(s.ser_size(), bytes.len());
    assert!(bytes.ends_with(b"node"));
    let back = SelfInfo::companion_deserialize(&bytes).ok().unwrap();
    assert_eq!(back.device_name, "node");
    assert_eq!((back.radio_freq, back.radio_sf, back.manual_add_contacts), (869525, 11, true));
    assert_eq!(back.public_key, [4; 32]);
}

#[test]
fn channel_info_round_trip() {
    let c = ChannelInfo { idx: 3, name: NullPaddedString("#public"), secret: [1; 16] };
    let bytes = serialize(&c);
    assert_eq!(bytes.len(), 2 + 32 + 16);
    assert_eq!(&bytes[..2], &[0x12, 3]);
    let back = ChannelInfo::companion_deserialize(&bytes).ok().unwrap();
    assert_eq!(back.name.0, "#public");
    assert_eq!(back.secret, [1; 16]);
}
