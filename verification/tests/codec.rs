use rusty_mine::protocol::error::ProtocolError;
use rusty_mine::protocol::types::or::Or;
use rusty_mine::protocol::types::{
    Boolean, Byte, ByteArray, GameProfile, Identifier, Int, Long, PrefixedArray, PrefixedOptional,
    Property, Reader, String, Type, UnsignedShort, Uuid, VarInt,
};

fn encode<T: Type>(value: &T) -> Vec<u8> {
    let mut out = Vec::new();
    value.write(&mut out).unwrap();
    out
}

fn decode<T: Type>(bytes: &[u8]) -> (Result<T, ProtocolError>, usize) {
    let mut reader = Reader::new(bytes);
    let res = T::read(&mut reader);
    (res, reader.pos)
}

const VARINT_CASES: &[(i32, &[u8])] = &[
    (0, &[0x00]),
    (1, &[0x01]),
    (2, &[0x02]),
    (127, &[0x7f]),
    (128, &[0x80, 0x01]),
    (255, &[0xff, 0x01]),
    (25565, &[0xdd, 0xc7, 0x01]),
    (2097151, &[0xff, 0xff, 0x7f]),
    (2147483647, &[0xff, 0xff, 0xff, 0xff, 0x07]),
];

#[test]
fn varint_writes_known_encodings() {
    for (value, bytes) in VARINT_CASES {
        assert_eq!(encode(&VarInt(*value)), bytes.to_vec(), "value {}", value);
    }
}

#[test]
fn varint_reads_known_encodings() {
    for (value, bytes) in VARINT_CASES {
        let (res, pos) = decode::<VarInt>(bytes);
        assert_eq!(res.unwrap().0, *value);
        assert_eq!(pos, bytes.len());
    }
}

#[test]
fn varint_reads_negative_values() {
    let (res, pos) = decode::<VarInt>(&[0xff, 0xff, 0xff, 0xff, 0x0f]);
    assert_eq!(res.unwrap().0, -1);
    assert_eq!(pos, 5);
    let (res, _) = decode::<VarInt>(&[0x80, 0x80, 0x80, 0x80, 0x08]);
    assert_eq!(res.unwrap().0, i32::MIN);
}

#[test]
fn varint_read_stops_at_first_byte_without_continuation() {
    let (res, pos) = decode::<VarInt>(&[0x81, 0x01, 0x7f, 0x00]);
    assert_eq!(res.unwrap().0, 129);
    assert_eq!(pos, 2);
}

#[test]
fn varint_read_accepts_padded_encoding() {
    let (res, pos) = decode::<VarInt>(&[0x80, 0x00]);
    assert_eq!(res.unwrap().0, 0);
    assert_eq!(pos, 2);
}

#[test]
fn varint_read_fails_at_end_of_input() {
    let (res, _) = decode::<VarInt>(&[0x80, 0x80]);
    assert!(matches!(res, Err(ProtocolError::UnexpectedEof)));
    let (res, _) = decode::<VarInt>(&[]);
    assert!(matches!(res, Err(ProtocolError::UnexpectedEof)));
}

#[test]
fn varint_conversions() {
    assert_eq!(i32::from(VarInt(-7)), -7);
    assert_eq!(u32::from(VarInt(773)), 773);
    assert_eq!(u32::from(VarInt(-1)), u32::MAX);
    assert_eq!(usize::from(VarInt(42)), 42);
    assert!(VarInt(0).is_writable());
    assert!(!VarInt(-1).is_writable());
}

#[test]
fn boolean_reads_one_as_true_and_everything_else_as_false() {
    let (res, pos) = decode::<Boolean>(&[0x01]);
    assert!(res.unwrap().0);
    assert_eq!(pos, 1);
    let (res, pos) = decode::<Boolean>(&[0x02]);
    assert!(!res.unwrap().0);
    assert_eq!(pos, 1);
    let (res, pos) = decode::<Boolean>(&[]);
    assert!(!res.unwrap().0);
    assert_eq!(pos, 0);
    assert_eq!(encode(&Boolean(true)), vec![0x01]);
    assert_eq!(encode(&Boolean(false)), vec![0x00]);
}

#[test]
fn byte_and_unsigned_short() {
    assert_eq!(encode(&Byte(0xab)), vec![0xab]);
    let (res, _) = decode::<Byte>(&[]);
    assert!(matches!(res, Err(ProtocolError::UnexpectedEof)));
    assert_eq!(encode(&UnsignedShort(25565)), vec![0x63, 0xdd]);
    let (res, pos) = decode::<UnsignedShort>(&[0x63, 0xdd, 0x00]);
    assert_eq!(res.unwrap().0, 25565);
    assert_eq!(pos, 2);
    let (res, _) = decode::<UnsignedShort>(&[0x63]);
    assert!(matches!(res, Err(ProtocolError::UnexpectedEof)));
}

#[test]
fn int_and_long_are_big_endian_twos_complement() {
    let (res, pos) = decode::<Int>(&[0xff, 0xff, 0xff, 0xfe]);
    let value = res.unwrap();
    assert_eq!(format!("{:?}", value), "Int(-2)");
    assert_eq!(pos, 4);
    assert_eq!(encode(&value), vec![0xff, 0xff, 0xff, 0xfe]);
    let bytes = [0x00, 0x00, 0x01, 0x8b, 0x2f, 0x3c, 0x4d, 0x5e];
    let (res, pos) = decode::<Long>(&bytes);
    let value = res.unwrap();
    assert_eq!(format!("{:?}", value), format!("Long({})", 0x0000_018b_2f3c_4d5e_i64));
    assert_eq!(pos, 8);
    assert_eq!(encode(&value), bytes.to_vec());
    let (res, _) = decode::<Long>(&[0x80, 0, 0, 0, 0, 0, 0, 0]);
    assert_eq!(format!("{:?}", res.unwrap()), format!("Long({})", i64::MIN));
    let (res, _) = decode::<Long>(&[1, 2, 3]);
    assert!(matches!(res, Err(ProtocolError::UnexpectedEof)));
}

#[test]
fn uuid_reads_sixteen_bytes_and_pads_short_input() {
    let bytes: Vec<u8> = (1..=17).collect();
    let (res, pos) = decode::<Uuid>(&bytes);
    let uuid = res.unwrap();
    assert_eq!(uuid.0.to_vec(), bytes[..16].to_vec());
    assert_eq!(pos, 16);
    assert_eq!(encode(&uuid), bytes[..16].to_vec());
    let (res, pos) = decode::<Uuid>(&[9, 8, 7]);
    let mut expected = [0u8; 16];
    expected[..3].copy_from_slice(&[9, 8, 7]);
    assert_eq!(res.unwrap().0, expected);
    assert_eq!(pos, 3);
}

#[test]
fn byte_array_takes_the_rest_of_the_input() {
    let (res, pos) = decode::<ByteArray>(&[1, 2, 3]);
    assert_eq!(res.unwrap().0, vec![1, 2, 3]);
    assert_eq!(pos, 3);
    assert_eq!(encode(&ByteArray(vec![4, 5])), vec![4, 5]);
}

#[test]
fn string_has_a_length_prefix_and_utf8_bytes() {
    let s = String("héllo".to_string());
    let bytes = encode(&s);
    assert_eq!(bytes, vec![6, b'h', 0xc3, 0xa9, b'l', b'l', b'o']);
    let (res, pos) = decode::<String>(&bytes);
    assert_eq!(res.unwrap().0, "héllo");
    assert_eq!(pos, 7);
    let (res, _) = decode::<Identifier>(&[3, b'a', b':', b'b']);
    assert_eq!((res.unwrap().0).0, "a:b");
}

#[test]
fn string_errors() {
    let (res, _) = decode::<String>(&[2, 0xff, 0xfe]);
    assert!(matches!(res, Err(ProtocolError::InvalidUtf8)));
    let (res, _) = decode::<String>(&[5, b'a', b'b']);
    assert!(matches!(res, Err(ProtocolError::UnexpectedEof)));
    let (res, _) = decode::<String>(&[]);
    assert!(matches!(res, Err(ProtocolError::UnexpectedEof)));
}

#[test]
fn prefixed_array_and_optional() {
    let array = PrefixedArray(vec![Byte(1), Byte(2), Byte(3)]);
    let bytes = encode(&array);
    assert_eq!(bytes, vec![3, 1, 2, 3]);
    let (res, pos) = decode::<PrefixedArray<Byte>>(&bytes);
    assert_eq!(res.unwrap().0.iter().map(|b| b.0).collect::<Vec<_>>(), vec![1, 2, 3]);
    assert_eq!(pos, 4);
    let (res, _) = decode::<PrefixedArray<Byte>>(&[3, 1]);
    assert!(matches!(res, Err(ProtocolError::UnexpectedEof)));

    let some = PrefixedOptional(Some(VarInt(300)));
    assert_eq!(encode(&some), vec![0x01, 0xac, 0x02]);
    let none: PrefixedOptional<VarInt> = PrefixedOptional(None);
    assert_eq!(encode(&none), vec![0x00]);
    let (res, pos) = decode::<PrefixedOptional<VarInt>>(&[0x01, 0xac, 0x02]);
    assert_eq!(res.unwrap().0.unwrap().0, 300);
    assert_eq!(pos, 3);
    let (res, pos) = decode::<PrefixedOptional<VarInt>>(&[0x00, 0xac]);
    assert!(res.unwrap().0.is_none());
    assert_eq!(pos, 1);
}

#[test]
fn or_chooses_by_a_boolean() {
    let a: Or<VarInt, String> = Or::A(VarInt(5));
    assert_eq!(encode(&a), vec![0x01, 0x05]);
    let b: Or<VarInt, String> = Or::B(String("x".to_string()));
    assert_eq!(encode(&b), vec![0x00, 0x01, b'x']);
    let (res, _) = decode::<Or<VarInt, String>>(&[0x00, 0x01, b'x']);
    assert!(matches!(res, Ok(Or::B(String(ref s))) if s == "x"));
    let (res, _) = decode::<Or<VarInt, String>>(&[0x01, 0x05]);
    assert!(matches!(res, Ok(Or::A(VarInt(5)))));
}

#[test]
fn tuples_are_their_parts_in_order() {
    let pair = (VarInt(1), String("ab".to_string()));
    let bytes = encode(&pair);
    assert_eq!(bytes, vec![1, 2, b'a', b'b']);
    let (res, pos) = decode::<(VarInt, String)>(&bytes);
    let (n, s) = res.unwrap();
    assert_eq!((n.0, s.0.as_str(), pos), (1, "ab", 4));
    let triple = (Byte(1), Byte(2), Boolean(true));
    assert_eq!(encode(&triple), vec![1, 2, 1]);
}

#[test]
fn game_profile_roundtrip() {
    let profile = GameProfile {
        uuid: Uuid([7; 16]),
        username: String("Steve".to_string()),
        properties: PrefixedArray(vec![Property {
            name: String("textures".to_string()),
            value: String("abc".to_string()),
            signature: PrefixedOptional(Some(String("sig".to_string()))),
        }]),
    };
    let bytes = encode(&profile);
    let mut expected = vec![7u8; 16];
    expected.extend([5, b'S', b't', b'e', b'v', b'e', 1]);
    expected.extend([8, b't', b'e', b'x', b't', b'u', b'r', b'e', b's', 3, b'a', b'b', b'c', 1, 3, b's', b'i', b'g']);
    assert_eq!(bytes, expected);
    let (res, pos) = decode::<GameProfile>(&bytes);
    let back = res.unwrap();
    assert_eq!(pos, bytes.len());
    assert_eq!(back.uuid.0, [7; 16]);
    assert_eq!(back.username.0, "Steve");
    assert_eq!(back.properties.0.len(), 1);
    assert_eq!(back.properties.0[0].value.0, "abc");
    assert_eq!(encode(&back), bytes);
}
