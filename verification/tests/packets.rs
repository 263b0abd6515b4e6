use rusty_mine::protocol::error::ProtocolError;
use rusty_mine::protocol::packets::configuration::{ClientInformation, Disconnect, Transfer};
use rusty_mine::protocol::packets::handshaking::Handshake;
use rusty_mine::protocol::packets::login::{LoginStart, SetCompression};
use rusty_mine::protocol::packets::status::{PingRequest, PongResponse, StatusResponse};
use rusty_mine::protocol::packets::{
    HandshakingPacket, LoginPacket, Packet, PacketRegistry, StatusPacket,
};
use rusty_mine::protocol::types::{Reader, String, UnsignedShort, VarInt};
use rusty_mine::protocol::{
    encode_packet, frame_packet, parse_packet, varint_from_prefix, ProtocolState, RawPacket,
};

fn handshake_bytes(intent: u8) -> Vec<u8> {
    let mut bytes = vec![0x00, 0x85, 0x06, 9];
    bytes.extend_from_slice(b"localhost");
    bytes.extend([0x63, 0xdd, intent]);
    bytes
}

#[test]
fn raw_packet_id_and_content() {
    let raw = RawPacket::new(vec![0x05, 1, 2]);
    assert_eq!(raw.packet_id(), Some(0x05));
    assert_eq!(raw.content(), &[1, 2]);
    assert_eq!(RawPacket::new(vec![]).packet_id(), None);
}

#[test]
fn handshake_is_parsed() {
    let packet = HandshakingPacket::parse(RawPacket::new(handshake_bytes(1))).unwrap();
    let HandshakingPacket::Handshake(h) = packet;
    assert_eq!(h.protocol_version.0, 773);
    assert_eq!(h.server_address.0, "localhost");
    assert_eq!(h.server_port.0, 25565);
    assert_eq!(h.intent.0, 1);
}

#[test]
fn handshake_with_other_id_is_refused() {
    let mut bytes = handshake_bytes(1);
    bytes[0] = 0x01;
    assert!(matches!(
        HandshakingPacket::parse(RawPacket::new(bytes)),
        Err(ProtocolError::InvalidPacketId)
    ));
    assert!(matches!(
        HandshakingPacket::parse(RawPacket::new(vec![])),
        Err(ProtocolError::InvalidPacketId)
    ));
}

#[test]
fn truncated_handshake_is_an_error() {
    let bytes = handshake_bytes(1);
    assert!(matches!(
        HandshakingPacket::parse(RawPacket::new(bytes[..6].to_vec())),
        Err(ProtocolError::UnexpectedEof)
    ));
}

#[test]
fn status_packets_are_parsed() {
    assert!(matches!(
        StatusPacket::parse(RawPacket::new(vec![0x00])),
        Ok(StatusPacket::StatusRequest(_))
    ));
    let ping = StatusPacket::parse(RawPacket::new(vec![0x01, 0, 0, 0, 0, 0, 0, 0x30, 0x39])).unwrap();
    assert!(matches!(ping, StatusPacket::PingRequest(_)));
    assert!(matches!(
        StatusPacket::parse(RawPacket::new(vec![0x02])),
        Err(ProtocolError::InvalidPacketId)
    ));
}

#[test]
fn login_start_is_parsed() {
    let mut bytes = vec![0x00, 5];
    bytes.extend_from_slice(b"Steve");
    bytes.extend([0xaa; 16]);
    match LoginPacket::parse(RawPacket::new(bytes)).unwrap() {
        LoginPacket::LoginStart(LoginStart { name, uuid }) => {
            assert_eq!(name.0, "Steve");
            assert_eq!(uuid.0, [0xaa; 16]);
        }
        other => panic!("unexpected {:?}", other),
    }
    assert!(matches!(
        LoginPacket::parse(RawPacket::new(vec![0x03])),
        Ok(LoginPacket::LoginAcknowledged(_))
    ));
    assert!(matches!(
        LoginPacket::parse(RawPacket::new(vec![0x05])),
        Err(ProtocolError::InvalidPacketId)
    ));
    let response = LoginPacket::parse(RawPacket::new(vec![0x01, 2, 9, 8, 1, 7])).unwrap();
    match response {
        LoginPacket::EncryptionResponse(r) => {
            assert_eq!(r.shared_secret.0.iter().map(|b| b.0).collect::<Vec<_>>(), vec![9, 8]);
            assert_eq!(r.verify_token.0.iter().map(|b| b.0).collect::<Vec<_>>(), vec![7]);
        }
        other => panic!("unexpected {:?}", other),
    }
}

#[test]
fn packets_are_parsed_by_state() {
    assert!(matches!(
        parse_packet(&ProtocolState::Handshaking, RawPacket::new(handshake_bytes(2))),
        Ok(PacketRegistry::Handshaking(_))
    ));
    assert!(matches!(
        parse_packet(&ProtocolState::Status, RawPacket::new(vec![0x00])),
        Ok(PacketRegistry::Status(StatusPacket::StatusRequest(_)))
    ));
    assert!(matches!(
        parse_packet(&ProtocolState::Login, RawPacket::new(vec![0x03])),
        Ok(PacketRegistry::Login(LoginPacket::LoginAcknowledged(_)))
    ));
    assert!(matches!(
        PacketRegistry::parse_status(RawPacket::new(vec![0x07])),
        Err(ProtocolError::InvalidPacketId)
    ));
}

#[test]
fn packet_write_puts_the_id_first() {
    let mut out = Vec::new();
    Transfer { host: String("mc.example".to_string()), port: VarInt(25565) }.write(&mut out).unwrap();
    let mut expected = vec![0x0b, 10];
    expected.extend_from_slice(b"mc.example");
    expected.extend([0xdd, 0xc7, 0x01]);
    assert_eq!(out, expected);
    assert_eq!(Transfer::packet_id(), 0x0b);
}

#[test]
fn client_information_roundtrip() {
    let bytes = vec![5, b'e', b'n', b'_', b'g', b'b', 12, 0, 1, 0x7f, 1, 0, 1, 2];
    let mut reader = Reader::new(&bytes);
    let info = <ClientInformation as Packet>::read(&mut reader).unwrap();
    assert_eq!(reader.pos, bytes.len());
    assert_eq!(info.locale.0, "en_gb");
    assert_eq!(info.view_distance.0, 12);
    assert_eq!(info.particle_status.0, 2);
    let mut out = Vec::new();
    info.write(&mut out).unwrap();
    let mut expected = vec![0x00];
    expected.extend(bytes);
    assert_eq!(out, expected);
}

#[test]
fn encode_packet_for_sent_packets() {
    let pong = PacketRegistry::Status(StatusPacket::PongResponse(PongResponse {
        timestamp: {
            let bytes = [0, 0, 0, 0, 0, 0, 0x30, 0x39];
            let mut reader = Reader::new(&bytes);
            <PingRequest as Packet>::read(&mut reader).unwrap().timestamp
        },
    }));
    assert_eq!(encode_packet(&pong).unwrap(), vec![0x01, 0, 0, 0, 0, 0, 0, 0x30, 0x39]);
    let status = PacketRegistry::Status(StatusPacket::StatusResponse(StatusResponse {
        response: String("{}".to_string()),
    }));
    assert_eq!(encode_packet(&status).unwrap(), vec![0x00, 2, b'{', b'}']);
    let compression = PacketRegistry::Login(LoginPacket::SetCompression(SetCompression {
        threshold: VarInt(256),
    }));
    assert_eq!(encode_packet(&compression).unwrap(), vec![0x03, 0x80, 0x02]);
    let handshake = PacketRegistry::Handshaking(HandshakingPacket::Handshake(Handshake {
        protocol_version: VarInt(773),
        server_address: String("localhost".to_string()),
        server_port: UnsignedShort(25565),
        intent: VarInt(1),
    }));
    assert_eq!(encode_packet(&handshake).unwrap(), handshake_bytes(1));
}

#[test]
fn encode_packet_refuses_client_packets() {
    let request = PacketRegistry::Status(StatusPacket::StatusRequest(
        rusty_mine::protocol::packets::status::StatusRequest {},
    ));
    assert!(matches!(encode_packet(&request), Err(ProtocolError::InvalidPacketNotSent)));
    let ack = PacketRegistry::Login(LoginPacket::LoginAcknowledged(
        rusty_mine::protocol::packets::login::LoginAcknowledged {},
    ));
    assert!(matches!(encode_packet(&ack), Err(ProtocolError::InvalidPacketNotSent)));
}

#[test]
fn frames_carry_the_length_first() {
    assert_eq!(frame_packet(&[0x00]), vec![0x01, 0x00]);
    let body = vec![0x42; 300];
    let framed = frame_packet(&body);
    assert_eq!(&framed[..2], &[0xac, 0x02]);
    assert_eq!(&framed[2..], &body[..]);
}

#[test]
fn length_prefix_read_byte_by_byte() {
    assert_eq!(varint_from_prefix(&[0xac]).unwrap().map(|v| v.0), None);
    assert_eq!(varint_from_prefix(&[0xac, 0x02]).unwrap().map(|v| v.0), Some(300));
    assert!(matches!(
        varint_from_prefix(&[0x80, 0x80, 0x80, 0x80, 0x80]),
        Err(ProtocolError::VarIntTooLong)
    ));
    assert_eq!(varint_from_prefix(&[0x80, 0x80, 0x80, 0x80, 0x01]).unwrap().map(|v| v.0), Some(1 << 28));
}

#[test]
fn disconnect_text_is_a_json_component() {
    assert_eq!(Disconnect::text("bye".to_string()).reason.0, r#"{"text":"bye"}"#);
    assert_eq!(Disconnect::text("a\"b".to_string()).reason.0, r#"{"text":"a\"b"}"#);
    assert_eq!(
        Disconnect::text("\\\n\t\r\u{8}\u{c}\u{1}\u{1f} é".to_string()).reason.0,
        r#"{"text":"\\\n\t\r\b\f\u0001\u001f é"}"#
    );
}

#[test]
fn packet_is_writable_checks_lengths() {
    let ok = PacketRegistry::Login(LoginPacket::SetCompression(SetCompression { threshold: VarInt(1) }));
    assert!(ok.is_writable());
    let bad = PacketRegistry::Login(LoginPacket::SetCompression(SetCompression { threshold: VarInt(-1) }));
    assert!(!bad.is_writable());
}
