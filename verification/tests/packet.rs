use rcon::error::Error;
use rcon::packet::{remaining_len, MsgType, Packet, RconReq, RconResp, MAX_PACKET_SIZE, MIN_PACKET_SIZE};

#[test]
fn new_packet() {
    let body = String::from("list");
    let res = Packet::new(42, MsgType::Request(RconReq::ExecCommand), body.clone());
    assert!(res.is_ok());

    let p = res.unwrap();
    assert_eq!(p.id, 42);
    assert_eq!(p.ptype, MsgType::Request(RconReq::ExecCommand));
    assert_eq!(p.body, body);
    assert_eq!(p.size, MIN_PACKET_SIZE + body.len());
}

#[test]
fn new_packet_too_long_body() {
    let body = String::from_utf8([0x61u8; MAX_PACKET_SIZE].into()).unwrap();
    let res = Packet::new(42, MsgType::Request(RconReq::ExecCommand), body);
    assert!(res.is_err());
}

#[test]
fn serialize_auth() {
    // size = 17, id = 1, ptype = 3, body = "passwrd", \0\0
    let expected = [
        17, 0, 0, 0, 1, 0, 0, 0, 3, 0, 0, 0, 112, 97, 115, 115, 119, 114, 100, 0, 0,
    ];
    let p = Packet::new(1, MsgType::Request(RconReq::Auth), "passwrd".into())
        .expect("password should fit in packet body");
    let buf = p.serialize().unwrap();

    assert_eq!(buf, expected);
}

#[test]
fn deserialize_auth_response() {
    // id == 0 in AuthResponse indicates authn success
    let expected = Packet::new(0, MsgType::Response(RconResp::AuthResponse), String::new())
        .expect("empty string should fit in packet body");

    // size = 10, id = 0, ptype = 2, body = "", \0\0
    let data = [10, 0, 0, 0, 0, 0, 0, 0, 2, 0, 0, 0, 0, 0];
    let packet = Packet::deserialize(&data).unwrap();

    assert_eq!(packet, expected);
}

#[test]
fn deserialize_neg_size() {
    // A packet has a positive size.
    // size = -1, id = 42, ptype = 0, body = "", \0\0
    let data = [255, 255, 255, 255, 42, 0, 0, 0, 0, 0, 0, 0, 0, 0];
    let res = Packet::deserialize(&data);
    assert!(res.is_err());
}

#[test]
fn deserialize_too_small_size() {
    // A packet is at least 10 bytes.
    // size = 9, id = 42, ptype = 0, body = "", \0\0
    let data = [9, 0, 0, 0, 42, 0, 0, 0, 0, 0, 0, 0, 0, 0];
    let res = Packet::deserialize(&data);
    assert!(res.is_err());
    let Err(Error::InvalidPacketSize(s)) = res else {
        panic!();
    };
    assert_eq!(s, 9);
}

#[test]
fn deserialize_too_large_size() {
    // A packet is at most 4096 bytes.
    // size = 4097, id = 42, ptype = 0, body = "", \0\0
    let data = [1, 16, 0, 0, 42, 0, 0, 0, 0, 0, 0, 0, 0, 0];
    let res = Packet::deserialize(&data);
    assert!(res.is_err());
    let Err(Error::InvalidPacketSize(s)) = res else {
        panic!();
    };
    assert_eq!(s, 4097);
}

#[test]
fn serialize_bad_size() {
    let packet = Packet {
        size: usize::MAX,
        id: 0,
        ptype: MsgType::Request(RconReq::ExecCommand),
        body: "list".to_string(),
    };
    let res = packet.serialize();
    assert!(res.is_err());
    let Err(Error::InvalidPacketSize(s)) = res else {
        panic!();
    };
    assert_eq!(s, usize::MAX);
}

#[test]
fn deserialize_bad_terminator() {
    // A valid empty frame except that the terminator bytes are not both zero.
    let data = [10, 0, 0, 0, 0, 0, 0, 0, 0, 0, 0, 0, 1, 0];
    assert!(matches!(Packet::deserialize(&data), Err(Error::BadResponsePacket)));

    let data = [10, 0, 0, 0, 0, 0, 0, 0, 0, 0, 0, 0, 0, 7];
    assert!(matches!(Packet::deserialize(&data), Err(Error::BadResponsePacket)));
}

#[test]
fn deserialize_truncated_frame() {
    // The declared size asks for more bytes than the frame holds.
    let data = [12, 0, 0, 0, 0, 0, 0, 0, 0, 0, 0, 0, 0, 0];
    assert!(matches!(Packet::deserialize(&data), Err(Error::BadResponsePacket)));
    // Fewer than the four size bytes.
    let data = [10, 0, 0];
    assert!(matches!(Packet::deserialize(&data), Err(Error::BadResponsePacket)));
}

#[test]
fn deserialize_invalid_utf8_body() {
    // size = 11: a one-byte body, 0xff, which no UTF-8 text encodes.
    let data = [11, 0, 0, 0, 0, 0, 0, 0, 0, 0, 0, 0, 255, 0, 0];
    assert!(matches!(Packet::deserialize(&data), Err(Error::InvalidData)));
}

#[test]
fn deserialize_multibyte_utf8_body() {
    // size = 12: the two-byte UTF-8 encoding 0xc3 0xa9 of 'e' with an accent.
    let data = [12, 0, 0, 0, 5, 0, 0, 0, 0, 0, 0, 0, 0xc3, 0xa9, 0, 0];
    let p = Packet::deserialize(&data).unwrap();
    assert_eq!(p.body, "\u{e9}");
    assert_eq!(p.id, 5);
    assert_eq!(p.ptype, MsgType::Response(RconResp::ResponseValue));
}

#[test]
fn round_trip_response() {
    let p = Packet::new(
        123,
        MsgType::Response(RconResp::ResponseValue),
        String::from("players: a, b"),
    )
    .unwrap();
    let bytes = p.serialize().unwrap();
    let q = Packet::deserialize(&bytes).unwrap();
    assert_eq!(q, p);
}

#[test]
fn round_trip_request_becomes_response() {
    // Wire code 2 is shared: an encoded ExecCommand request decodes as an
    // AuthResponse, since decoded packets are always read as responses.
    let p = Packet::new(-3, MsgType::Request(RconReq::ExecCommand), String::from("hi")).unwrap();
    let bytes = p.serialize().unwrap();
    let q = Packet::deserialize(&bytes).unwrap();
    assert_eq!(q.id, -3);
    assert_eq!(q.body, "hi");
    assert_eq!(q.ptype, MsgType::Response(RconResp::AuthResponse));
    assert_eq!(q.size, p.size);
}

#[test]
fn round_trip_unknown_type() {
    let p = Packet::new(1, MsgType::Response(RconResp::Unknown(77)), String::new()).unwrap();
    let bytes = p.serialize().unwrap();
    let q = Packet::deserialize(&bytes).unwrap();
    assert_eq!(q.ptype, MsgType::Response(RconResp::Unknown(77)));
}

#[test]
fn is_error_on_negative_id() {
    let p = Packet::new(-1, MsgType::Response(RconResp::AuthResponse), String::new()).unwrap();
    assert!(p.is_error());
    let q = Packet::new(0, MsgType::Response(RconResp::AuthResponse), String::new()).unwrap();
    assert!(!q.is_error());
}

#[test]
fn type_codes_convert_both_ways() {
    assert_eq!(RconReq::from(2), RconReq::ExecCommand);
    assert_eq!(RconReq::from(3), RconReq::Auth);
    assert_eq!(RconReq::from(9), RconReq::Unknown(9));
    assert_eq!(i32::from(RconReq::Auth), 3);
    assert_eq!(RconResp::from(0), RconResp::ResponseValue);
    assert_eq!(RconResp::from(2), RconResp::AuthResponse);
    assert_eq!(RconResp::from(-5), RconResp::Unknown(-5));
    assert_eq!(i32::from(RconResp::ResponseValue), 0);
    assert_eq!(i32::from(MsgType::Request(RconReq::Auth)), 3);
    assert_eq!(i32::from(MsgType::Response(RconResp::AuthResponse)), 2);
}

#[test]
fn remaining_len_validates_size() {
    assert!(matches!(remaining_len(&[10, 0, 0, 0]), Ok(10)));
    assert!(matches!(remaining_len(&[0, 16, 0, 0]), Ok(4096)));
    let Err(Error::InvalidPacketSize(s)) = remaining_len(&[9, 0, 0, 0]) else {
        panic!();
    };
    assert_eq!(s, 9);
    let Err(Error::InvalidPacketSize(s)) = remaining_len(&[1, 16, 0, 0]) else {
        panic!();
    };
    assert_eq!(s, 4097);
    assert!(matches!(remaining_len(&[255, 255, 255, 255]), Err(Error::InvalidPacketSize(_))));
    assert!(matches!(remaining_len(&[10, 0, 0]), Err(Error::BadResponsePacket)));
}
