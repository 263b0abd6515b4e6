use rusty_mine::protocol::error::ProtocolError;
use rusty_mine::protocol::packets::configuration::{
    AddResourcePack, CustomClickAction, RegistryData, ServerLinks, ShowDialog,
};
use rusty_mine::protocol::packets::{ConfigurationPacket, PacketRegistry};
use rusty_mine::protocol::types::{
    Boolean, Identifier, Nbt, Or, PrefixedArray, PrefixedOptional, Reader, String, Uuid, VarInt,
};
use rusty_mine::protocol::{encode_packet, RawPacket};
use rusty_mine::server::Client;

/// A stand-in for an NBT decoder: a value is a tag byte and that many more bytes.
fn toy_extent(bytes: &[u8]) -> Option<usize> {
    match bytes.first() {
        Some(&n) if n < 0x80 => Some(1 + n as usize),
        _ => None,
    }
}

fn identifier(text: &str) -> Identifier {
    Identifier(String(text.to_string()))
}

#[test]
fn nbt_reads_the_given_length_and_writes_its_bytes() {
    let data = [1, 2, 3, 4];
    let mut reader = Reader::new(&data);
    reader.pos = 1;
    let nbt = Nbt::read(&mut reader, 2).unwrap();
    assert_eq!(nbt.0, vec![2, 3]);
    assert_eq!(reader.pos, 3);
    assert_eq!(Nbt::read(&mut reader, 2).unwrap_err(), ProtocolError::UnexpectedEof);
    assert_eq!(reader.pos, 3);

    let mut out = vec![9];
    nbt.write(&mut out);
    assert_eq!(out, vec![9, 2, 3]);
}

#[test]
fn registry_data_is_written_with_optional_entries() {
    let packet = RegistryData {
        registry_id: identifier("a:b"),
        entries: PrefixedArray(vec![
            (identifier("c"), PrefixedOptional(Some(Nbt(vec![0x0a, 0x00])))),
            (identifier("d"), PrefixedOptional(None)),
        ]),
    };
    assert!(packet.is_writable());
    let mut out = Vec::new();
    packet.write(&mut out).unwrap();
    assert_eq!(
        out,
        vec![0x07, 3, b'a', b':', b'b', 2, 1, b'c', 0x01, 0x0a, 0x00, 1, b'd', 0x00]
    );
}

#[test]
fn add_resource_pack_is_written_in_field_order() {
    let packet = AddResourcePack {
        uuid: Uuid([7; 16]),
        url: String("u".to_string()),
        hash: String("h".to_string()),
        forced: Boolean(true),
        prompt_message: PrefixedOptional(None),
    };
    assert!(packet.is_writable());
    let mut out = Vec::new();
    packet.write(&mut out).unwrap();
    let mut expected = vec![0x09];
    expected.extend([7; 16]);
    expected.extend([1, b'u', 1, b'h', 0x01, 0x00]);
    assert_eq!(out, expected);
}

#[test]
fn server_links_carry_built_in_and_custom_labels() {
    let packet = ServerLinks {
        links: PrefixedArray(vec![
            (Or::A(VarInt(3)), String("x".to_string())),
            (Or::B(Nbt(vec![0x08, 0x00, 0x00])), String("y".to_string())),
        ]),
    };
    assert!(packet.is_writable());
    let mut out = Vec::new();
    packet.write(&mut out).unwrap();
    assert_eq!(out, vec![0x10, 2, 0x01, 3, 1, b'x', 0x00, 0x08, 0x00, 0x00, 1, b'y']);

    let negative = ServerLinks { links: PrefixedArray(vec![(Or::A(VarInt(-1)), String(std::string::String::new()))]) };
    assert!(!negative.is_writable());
}

#[test]
fn show_dialog_is_its_nbt() {
    let mut out = Vec::new();
    ShowDialog { dialog: Nbt(vec![0x0a, 0x00]) }.write(&mut out).unwrap();
    assert_eq!(out, vec![0x12, 0x0a, 0x00]);
}

#[test]
fn custom_click_action_reads_identifier_then_nbt() {
    let data = [3, b'a', b':', b'b', 2, 0xaa, 0xbb, 0xcc];
    let mut reader = Reader::new(&data);
    let action = CustomClickAction::read(&mut reader, &toy_extent).unwrap();
    assert_eq!(action.id.0 .0, "a:b");
    assert_eq!(action.payload.0, vec![2, 0xaa, 0xbb]);
    assert_eq!(reader.pos, 7);

    let mut out = Vec::new();
    action.write(&mut out).unwrap();
    assert_eq!(out, vec![0x08, 3, b'a', b':', b'b', 2, 0xaa, 0xbb]);
}

#[test]
fn custom_click_action_errors() {
    let no_nbt = [1, b'a', 0x90];
    let mut reader = Reader::new(&no_nbt);
    assert_eq!(
        CustomClickAction::read(&mut reader, &toy_extent).unwrap_err(),
        ProtocolError::InvalidNbt
    );
    let too_long = [1, b'a', 5, 0];
    let mut reader = Reader::new(&too_long);
    let longer = |_: &[u8]| Some(10);
    assert_eq!(
        CustomClickAction::read(&mut reader, &longer).unwrap_err(),
        ProtocolError::UnexpectedEof
    );
    let truncated = [4, b'a'];
    let mut reader = Reader::new(&truncated);
    assert_eq!(
        CustomClickAction::read(&mut reader, &toy_extent).unwrap_err(),
        ProtocolError::UnexpectedEof
    );
}

#[test]
fn configuration_packets_are_parsed_by_id() {
    let ack = ConfigurationPacket::parse(RawPacket::new(vec![0x03]), &toy_extent).unwrap();
    assert!(matches!(ack, ConfigurationPacket::AcknowledgeFinishConfiguration(_)));

    let cookie =
        ConfigurationPacket::parse(RawPacket::new(vec![0x01, 1, b'k', 0x00]), &toy_extent).unwrap();
    match cookie {
        ConfigurationPacket::CookieResponse(c) => {
            assert_eq!(c.key.0 .0, "k");
            assert!(c.payload.0.is_none());
        }
        other => panic!("unexpected packet {:?}", other),
    }

    let keep_alive = ConfigurationPacket::parse(
        RawPacket::new(vec![0x04, 0, 0, 0, 0, 0, 0, 0x01, 0x02]),
        &toy_extent,
    )
    .unwrap();
    assert!(matches!(keep_alive, ConfigurationPacket::C2SKeepAlive(_)));

    let click =
        ConfigurationPacket::parse(RawPacket::new(vec![0x08, 1, b'z', 0x00]), &toy_extent).unwrap();
    match click {
        ConfigurationPacket::CustomClickAction(c) => {
            assert_eq!(c.id.0 .0, "z");
            assert_eq!(c.payload.0, vec![0x00]);
        }
        other => panic!("unexpected packet {:?}", other),
    }
}

#[test]
fn configuration_parse_errors() {
    assert_eq!(
        ConfigurationPacket::parse(RawPacket::new(vec![0x09]), &toy_extent).unwrap_err(),
        ProtocolError::InvalidPacketId
    );
    assert_eq!(
        ConfigurationPacket::parse(RawPacket::new(vec![]), &toy_extent).unwrap_err(),
        ProtocolError::InvalidPacketId
    );
    assert_eq!(
        ConfigurationPacket::parse(RawPacket::new(vec![0x05, 0, 0]), &toy_extent).unwrap_err(),
        ProtocolError::UnexpectedEof
    );
    assert_eq!(
        ConfigurationPacket::parse(RawPacket::new(vec![0x08, 1, b'z', 0xff]), &toy_extent)
            .unwrap_err(),
        ProtocolError::InvalidNbt
    );
}

#[test]
fn registry_wraps_configuration_packets() {
    let packet =
        PacketRegistry::parse_configuration(RawPacket::new(vec![0x03]), &toy_extent).unwrap();
    assert!(matches!(
        packet,
        PacketRegistry::Configuration(ConfigurationPacket::AcknowledgeFinishConfiguration(_))
    ));
    assert_eq!(
        PacketRegistry::parse_configuration(RawPacket::new(vec![0x20]), &toy_extent).unwrap_err(),
        ProtocolError::InvalidPacketId
    );
    assert_eq!(encode_packet(&packet).unwrap_err(), ProtocolError::InvalidPacketNotSent);
}

#[test]
fn configuration_packets_change_nothing_in_a_client() {
    let mut client = Client::new();
    let packet = ConfigurationPacket::parse(RawPacket::new(vec![0x03]), &toy_extent).unwrap();
    assert!(client.handle_configuration_packet(packet).is_ok());
    assert!(matches!(
        client.protocol_state(),
        rusty_mine::protocol::ProtocolState::Handshaking
    ));
}
