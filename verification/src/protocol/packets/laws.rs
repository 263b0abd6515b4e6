use crate::protocol::error::ProtocolError;
use crate::protocol::outgoing_bytes;
use crate::protocol::packets::login::{DisconnectClient, EncryptionRequest, LoginSuccess};
use crate::protocol::packets::status::{PongResponse, StatusResponse};
use crate::protocol::packets::prefixed_bytes;
use crate::protocol::packets::{
    handshaking_parsed, login_parsed, HandshakingPacket, LoginPacket, PacketRegistry, StatusPacket,
};
use crate::protocol::types::prefixed::elements_serialize;
use crate::protocol::types::varint::wrap_i32;
use crate::protocol::types::{
    Byte, Long, PrefixedArray, Property, String, Type, UnsignedShort, VarInt,
};
use vstd::prelude::*;

verus! {

/// A sequence of bytes is encoded as the bytes themselves, one after the other.
pub proof fn lemma_bytes_serialize(b: Seq<u8>)
    ensures
        elements_serialize::<Byte>(b) == b,
    decreases b.len(),
{
    if b.len() > 0 {
        lemma_bytes_serialize(b.drop_last());
        assert(b.drop_last() + seq![b.last()] =~= b);
    }
}

/// An encryption request goes out as its id 0x01, then the server id as a
/// string, then the public key and then the verify token, each as its length
/// followed by its bytes, then one byte for whether the client must
/// authenticate.
pub proof fn law_encryption_request_bytes(request: EncryptionRequest)
    ensures
        outgoing_bytes(PacketRegistry::Login(LoginPacket::EncryptionRequest(request))) == Some(
            seq![0x01u8] + String::spec_serialize(request.server_id@) + prefixed_bytes(
                request.public_key@,
            ) + prefixed_bytes(request.verify_token@) + seq![
                if request.should_authenticate@ {
                    0x01u8
                } else {
                    0x00u8
                },
            ],
        ),
{
    lemma_bytes_serialize(request.public_key@);
    lemma_bytes_serialize(request.verify_token@);
    let b = outgoing_bytes(PacketRegistry::Login(LoginPacket::EncryptionRequest(request)));
    assert(b->Some_0 =~= seq![0x01u8] + String::spec_serialize(request.server_id@)
        + prefixed_bytes(request.public_key@) + prefixed_bytes(request.verify_token@) + seq![
        if request.should_authenticate@ {
            0x01u8
        } else {
            0x00u8
        },
    ]);
}

/// A login start read in the login state gives the player whose name is the
/// string at the front of the fields and whose uuid is the sixteen bytes that
/// follow it, in the order they came.
pub proof fn law_login_start_decodes(
    name: Seq<char>,
    uuid: Seq<u8>,
    rest: Seq<u8>,
    res: Result<LoginPacket, ProtocolError>,
)
    requires
        String::spec_wf(name),
        uuid.len() == 16,
        login_parsed(seq![0x00u8] + String::spec_serialize(name) + uuid + rest, res),
    ensures
        res matches Ok(LoginPacket::LoginStart(p)) && p.name@ == name && p.uuid@ == uuid,
{
    let fields = String::spec_serialize(name) + (uuid + rest);
    let raw = seq![0x00u8] + String::spec_serialize(name) + uuid + rest;
    assert(raw =~= seq![0x00u8] + fields);
    assert(raw.drop_first() =~= fields);
    String::lemma_roundtrip(name, uuid + rest);
    let k = String::spec_serialize(name).len();
    assert(fields.skip(k as int) =~= uuid + rest);
    assert((uuid + rest).take(16) =~= uuid);
    assert((uuid + rest).take(16) + Seq::new(0, |i: int| 0u8) =~= uuid);
}

/// An encryption response read in the login state gives the shared secret and
/// the verify token that follow its id, in that order, each as its length
/// followed by its bytes.
pub proof fn law_encryption_response_decodes(
    secret: Seq<u8>,
    token: Seq<u8>,
    rest: Seq<u8>,
    res: Result<LoginPacket, ProtocolError>,
)
    requires
        PrefixedArray::<Byte>::spec_wf(secret),
        PrefixedArray::<Byte>::spec_wf(token),
        login_parsed(seq![0x01u8] + prefixed_bytes(secret) + prefixed_bytes(token) + rest, res),
    ensures
        res matches Ok(LoginPacket::EncryptionResponse(p)) && p.shared_secret@ == secret
            && p.verify_token@ == token,
{
    lemma_bytes_serialize(secret);
    lemma_bytes_serialize(token);
    let a = PrefixedArray::<Byte>::spec_serialize(secret);
    let b = PrefixedArray::<Byte>::spec_serialize(token);
    let raw = seq![0x01u8] + prefixed_bytes(secret) + prefixed_bytes(token) + rest;
    assert(raw.drop_first() =~= a + (b + rest));
    PrefixedArray::<Byte>::lemma_roundtrip(secret, b + rest);
    PrefixedArray::<Byte>::lemma_roundtrip(token, rest);
    assert((a + (b + rest)).skip(a.len() as int) =~= b + rest);
}

/// A handshake read in the handshaking state gives the protocol version, the
/// server address, the port and the intent that follow its id, in that order.
pub proof fn law_handshake_decodes(
    version: i32,
    address: Seq<char>,
    port: u16,
    intent: i32,
    rest: Seq<u8>,
    res: Result<HandshakingPacket, ProtocolError>,
)
    requires
        version >= 0,
        intent >= 0,
        String::spec_wf(address),
        handshaking_parsed(
            seq![0x00u8] + VarInt::spec_serialize(version) + String::spec_serialize(address)
                + UnsignedShort::spec_serialize(port) + VarInt::spec_serialize(intent) + rest,
            res,
        ),
    ensures
        res matches Ok(HandshakingPacket::Handshake(h)) && h.protocol_version@ == version
            && h.server_address@ == address && h.server_port@ == port && h.intent@ == intent,
{
    let v = (version, (address, (port, intent)));
    <(VarInt, (String, (UnsignedShort, VarInt)))>::lemma_roundtrip(v, rest);
    let raw = seq![0x00u8] + VarInt::spec_serialize(version) + String::spec_serialize(address)
        + UnsignedShort::spec_serialize(port) + VarInt::spec_serialize(intent) + rest;
    assert(raw.drop_first() =~= <(VarInt, (String, (UnsignedShort, VarInt)))>::spec_serialize(v)
        + rest);
}

/// A login success goes out as its id 0x02, then the sixteen bytes of the uuid
/// in order, then the user name as a string, then the properties as a counted
/// sequence.
pub proof fn law_login_success_bytes(success: LoginSuccess)
    ensures
        outgoing_bytes(PacketRegistry::Login(LoginPacket::LoginSuccess(success))) == Some(
            seq![0x02u8] + success.profile.uuid@ + String::spec_serialize(
                success.profile.username@,
            ) + PrefixedArray::<Property>::spec_serialize(success.profile.properties@),
        ),
{
    let b = outgoing_bytes(PacketRegistry::Login(LoginPacket::LoginSuccess(success)));
    assert(b->Some_0 =~= seq![0x02u8] + success.profile.uuid@ + String::spec_serialize(
        success.profile.username@,
    ) + PrefixedArray::<Property>::spec_serialize(success.profile.properties@));
}

/// A disconnect in the login state goes out as its id 0x00, then the reason as a
/// string.
pub proof fn law_disconnect_client_bytes(disconnect: DisconnectClient)
    ensures
        outgoing_bytes(PacketRegistry::Login(LoginPacket::DisconnectClient(disconnect))) == Some(
            seq![0x00u8] + String::spec_serialize(disconnect.reason@),
        ),
{
}

/// A status response goes out as its id 0x00, then the JSON text as a string; a
/// pong as its id 0x01, then the timestamp as a long.
pub proof fn law_status_replies_bytes(status: StatusResponse, pong: PongResponse)
    ensures
        outgoing_bytes(PacketRegistry::Status(StatusPacket::StatusResponse(status))) == Some(
            seq![0x00u8] + String::spec_serialize(status.response@),
        ),
        outgoing_bytes(PacketRegistry::Status(StatusPacket::PongResponse(pong))) == Some(
            seq![0x01u8] + Long::spec_serialize(pong.timestamp@),
        ),
{
}

} // verus!
