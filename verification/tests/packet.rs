use clockkit::packet::{ClockPacket, PacketKind, PACKET_LEN};

#[test]
fn round_trip_reply() {
    let p = ClockPacket {
        kind: PacketKind::Reply,
        sequence: 0xDEADBEEF,
        client_send: 1_234_567_890_123,
        server_receive: 1_234_567_890_456,
        server_send: 1_234_567_890_789,
    };
    let bytes = p.serialize();
    assert_eq!(bytes.len(), PACKET_LEN);
    let q = ClockPacket::deserialize(&bytes).unwrap();
    assert_eq!(q, p);
}

#[test]
fn round_trip_request() {
    let p = ClockPacket::new_request(42, 77);
    let q = ClockPacket::deserialize(&p.serialize()).unwrap();
    assert_eq!(q.kind, PacketKind::Request);
    assert_eq!(q.sequence, 42);
    assert_eq!(q.client_send, 77);
    assert_eq!(q.server_receive, 0);
    assert_eq!(q.server_send, 0);
}

#[test]
fn round_trip_negative_timestamps() {
    let p = ClockPacket {
        kind: PacketKind::Reply,
        sequence: 0,
        client_send: -1,
        server_receive: i64::MIN,
        server_send: i64::MAX,
    };
    assert_eq!(ClockPacket::deserialize(&p.serialize()), Some(p));
}

#[test]
fn layout_is_fixed() {
    let p = ClockPacket::new_request(0x01020304, 0x1122334455667788);
    let bytes = p.serialize();
    assert_eq!(bytes[0], 1); // request kind
    assert_eq!(&bytes[1..5], &[0x04, 0x03, 0x02, 0x01]); // sequence, little-endian
    assert_eq!(
        &bytes[5..13],
        &[0x88, 0x77, 0x66, 0x55, 0x44, 0x33, 0x22, 0x11]
    );
    let reply = ClockPacket::new_reply(&p, 1, 2);
    assert_eq!(reply.serialize()[0], 2); // reply kind
}

#[test]
fn reject_wrong_length() {
    assert_eq!(ClockPacket::deserialize(&[]), None);
    assert_eq!(ClockPacket::deserialize(&[1u8; 28]), None);
    assert_eq!(ClockPacket::deserialize(&[1u8; 30]), None);
}

#[test]
fn reject_unknown_kind() {
    let mut bytes = ClockPacket::new_request(5, 5).serialize();
    bytes[0] = 0;
    assert_eq!(ClockPacket::deserialize(&bytes), None);
    bytes[0] = 3;
    assert_eq!(ClockPacket::deserialize(&bytes), None);
}

#[test]
fn reply_echoes_request() {
    let req = ClockPacket::new_request(9, 1000);
    let rep = ClockPacket::new_reply(&req, 1500, 1600);
    assert_eq!(rep.kind, PacketKind::Reply);
    assert_eq!(rep.sequence, 9);
    assert_eq!(rep.client_send, 1000);
    assert_eq!(rep.server_receive, 1500);
    assert_eq!(rep.server_send, 1600);
}
