pub mod error;
pub mod login;
pub mod packets;
pub mod types;
pub mod utils;

use crate::protocol::error::ProtocolError;
use crate::protocol::packets::handshaking::Handshake;
use crate::protocol::packets::login::{
    CookieRequest, DisconnectClient, EncryptionRequest, LoginPluginRequest, LoginSuccess,
    SetCompression,
};
use crate::protocol::packets::status::{PongResponse, StatusResponse};
use crate::protocol::packets::{
    check_login_panics, check_status_panics, handshaking_panics, handshaking_parsed, login_panics,
    login_parsed, panics_as, status_panics, status_parsed,
    HandshakingPacket, LoginPacket, Packet, PacketRegistry, StatusPacket,
};
use crate::protocol::types::string::wrap_length;
use crate::protocol::types::varint::{varint_parse, wrap_i32};
use crate::protocol::types::{Reader, Type, VarInt};
use vstd::prelude::*;

verus! {

/// The phase of a connection, which decides how packet ids are read.
#[derive(Debug)]
pub enum ProtocolState {
    Handshaking,
    Status,
    Login,
    Configuration,
    Play,
}

/// A packet as it arrives: its id, then its fields.
#[derive(Debug)]
pub struct RawPacket(Vec<u8>);

impl View for RawPacket {
    type V = Seq<u8>;

    closed spec fn view(&self) -> Seq<u8> {
        self.0@
    }
}

impl RawPacket {
    /// A packet made of the given bytes.
    pub fn new(data: Vec<u8>) -> (res: Self)
        ensures
            res@ == data@,
    {
        RawPacket(data)
    }

    /// The id: the first byte, if there is one.
    pub fn packet_id(&self) -> (res: Option<u8>)
        ensures
            self@.len() == 0 ==> res is None,
            self@.len() > 0 ==> res == Some(self@[0]),
    {
        if self.0.len() > 0 {
            Some(self.0[0])
        } else {
            None
        }
    }

    /// Everything after the id.
    pub fn content(&self) -> (res: &[u8])
        requires
            self@.len() > 0,
        ensures
            res@ == self@.drop_first(),
    {
        let all = self.0.as_slice();
        let res = &all[1..all.len()];
        assert(res@ =~= self@.drop_first());
        res
    }
}

/// The bytes of a packet: its id, then its fields.
pub open spec fn packet_bytes<P: Packet>(v: P::V) -> Seq<u8> {
    seq![P::spec_packet_id()] + P::spec_serialize(v)
}

/// The bytes of a packet that the server sends, or `None` for a packet that only
/// a client sends.
pub open spec fn outgoing_bytes(packet: PacketRegistry) -> Option<Seq<u8>> {
    match packet {
        PacketRegistry::Handshaking(HandshakingPacket::Handshake(p)) => Some(
            packet_bytes::<Handshake>(p@),
        ),
        PacketRegistry::Status(StatusPacket::StatusResponse(p)) => Some(
            packet_bytes::<StatusResponse>(p@),
        ),
        PacketRegistry::Status(StatusPacket::PongResponse(p)) => Some(
            packet_bytes::<PongResponse>(p@),
        ),
        PacketRegistry::Login(LoginPacket::DisconnectClient(p)) => Some(
            packet_bytes::<DisconnectClient>(p@),
        ),
        PacketRegistry::Login(LoginPacket::EncryptionRequest(p)) => Some(
            packet_bytes::<EncryptionRequest>(p@),
        ),
        PacketRegistry::Login(LoginPacket::LoginSuccess(p)) => Some(
            packet_bytes::<LoginSuccess>(p@),
        ),
        PacketRegistry::Login(LoginPacket::SetCompression(p)) => Some(
            packet_bytes::<SetCompression>(p@),
        ),
        PacketRegistry::Login(LoginPacket::LoginPluginRequest(p)) => Some(
            packet_bytes::<LoginPluginRequest>(p@),
        ),
        PacketRegistry::Login(LoginPacket::CookieRequest(p)) => Some(
            packet_bytes::<CookieRequest>(p@),
        ),
        _ => None,
    }
}

/// Writing the packet terminates: every length and count it holds fits a
/// non-negative 32-bit prefix.
pub open spec fn outgoing_writable(packet: PacketRegistry) -> bool {
    match packet {
        PacketRegistry::Handshaking(HandshakingPacket::Handshake(p)) => Handshake::spec_writable(
            p@,
        ),
        PacketRegistry::Status(StatusPacket::StatusResponse(p)) => StatusResponse::spec_writable(
            p@,
        ),
        PacketRegistry::Status(StatusPacket::PongResponse(p)) => PongResponse::spec_writable(p@),
        PacketRegistry::Login(LoginPacket::DisconnectClient(p)) => DisconnectClient::spec_writable(
            p@,
        ),
        PacketRegistry::Login(LoginPacket::EncryptionRequest(p)) => EncryptionRequest::spec_writable(
            p@,
        ),
        PacketRegistry::Login(LoginPacket::LoginSuccess(p)) => LoginSuccess::spec_writable(p@),
        PacketRegistry::Login(LoginPacket::SetCompression(p)) => SetCompression::spec_writable(p@),
        PacketRegistry::Login(LoginPacket::LoginPluginRequest(p)) => LoginPluginRequest::spec_writable(
            p@,
        ),
        PacketRegistry::Login(LoginPacket::CookieRequest(p)) => CookieRequest::spec_writable(p@),
        _ => true,
    }
}

impl PacketRegistry {
    /// Whether writing the packet terminates.
    pub fn is_writable(&self) -> (b: bool)
        ensures
            b == outgoing_writable(*self),
    {
        match self {
            PacketRegistry::Handshaking(HandshakingPacket::Handshake(p)) => p.is_writable(),
            PacketRegistry::Status(StatusPacket::StatusResponse(p)) => p.is_writable(),
            PacketRegistry::Status(StatusPacket::PongResponse(p)) => p.is_writable(),
            PacketRegistry::Login(LoginPacket::DisconnectClient(p)) => p.is_writable(),
            PacketRegistry::Login(LoginPacket::EncryptionRequest(p)) => p.is_writable(),
            PacketRegistry::Login(LoginPacket::LoginSuccess(p)) => p.is_writable(),
            PacketRegistry::Login(LoginPacket::SetCompression(p)) => p.is_writable(),
            PacketRegistry::Login(LoginPacket::LoginPluginRequest(p)) => p.is_writable(),
            PacketRegistry::Login(LoginPacket::CookieRequest(p)) => p.is_writable(),
            _ => true,
        }
    }
}

/// The bytes of a packet that the server sends: its id, then its fields. A packet
/// that only a client sends is refused.
pub fn encode_packet(packet: &PacketRegistry) -> (res: Result<Vec<u8>, ProtocolError>)
    requires
        outgoing_writable(*packet),
    ensures
        match outgoing_bytes(*packet) {
            Some(b) => res matches Ok(v) && v@ == b,
            None => res == Err::<Vec<u8>, ProtocolError>(ProtocolError::InvalidPacketNotSent),
        },
{
    let mut buffer: Vec<u8> = Vec::new();
    match packet {
        PacketRegistry::Handshaking(HandshakingPacket::Handshake(p)) => p.write(&mut buffer)?,
        PacketRegistry::Status(StatusPacket::StatusResponse(p)) => p.write(&mut buffer)?,
        PacketRegistry::Status(StatusPacket::PongResponse(p)) => p.write(&mut buffer)?,
        PacketRegistry::Login(LoginPacket::DisconnectClient(p)) => p.write(&mut buffer)?,
        PacketRegistry::Login(LoginPacket::EncryptionRequest(p)) => p.write(&mut buffer)?,
        PacketRegistry::Login(LoginPacket::LoginSuccess(p)) => p.write(&mut buffer)?,
        PacketRegistry::Login(LoginPacket::SetCompression(p)) => p.write(&mut buffer)?,
        PacketRegistry::Login(LoginPacket::LoginPluginRequest(p)) => p.write(&mut buffer)?,
        PacketRegistry::Login(LoginPacket::CookieRequest(p)) => p.write(&mut buffer)?,
        _ => {
            return Err(ProtocolError::InvalidPacketNotSent);
        },
    }
    Ok(buffer)
}

/// A frame as it goes on the wire: the length of the packet as a variable-length
/// integer, then the packet.
pub open spec fn frame(body: Seq<u8>) -> Seq<u8> {
    VarInt::spec_serialize(wrap_i32(body.len() as int)) + body
}

/// The length prefix of a frame reads back as the length of the packet, in at
/// most five bytes, and what follows it is the packet; a reader that takes the
/// prefix one byte at a time finds it incomplete until its last byte.
pub proof fn law_frame_roundtrip(body: Seq<u8>)
    requires
        body.len() <= 0x7fff_ffff,
    ensures
        ({
            let k = (frame(body).len() - body.len()) as nat;
            &&& 1 <= k <= 5
            &&& varint_parse(frame(body)) == Ok::<(i32, nat), ProtocolError>((body.len() as i32, k))
            &&& varint_parse(frame(body).take(k as int)) == Ok::<(i32, nat), ProtocolError>(
                (body.len() as i32, k),
            )
            &&& forall|j: int|
                0 < j < k ==> #[trigger] varint_parse(frame(body).take(j)) is Err
            &&& frame(body).skip(k as int) == body
        }),
{
    let n = body.len() as i32;
    assert(wrap_i32(body.len() as int) == n);
    let p = VarInt::spec_serialize(n);
    crate::protocol::types::varint::law_varint_length(n);
    VarInt::lemma_roundtrip(n, body);
    VarInt::lemma_roundtrip(n, Seq::empty());
    assert(p + Seq::<u8>::empty() =~= p);
    assert(frame(body).take(p.len() as int) =~= p);
    assert(frame(body).skip(p.len() as int) =~= body);
    assert forall|j: int| 0 < j < p.len() implies #[trigger] varint_parse(frame(body).take(j)) is Err by {
        assert(frame(body).take(j) =~= p.take(j));
    }
}

/// Puts the length in front of the bytes of a packet.
pub fn frame_packet(body: &[u8]) -> (res: Vec<u8>)
    requires
        wrap_i32(body@.len() as int) >= 0,
    ensures
        res@ == frame(body@),
{
    let mut framed: Vec<u8> = Vec::new();
    VarInt(wrap_length(body.len())).write(&mut framed).unwrap();
    crate::protocol::utils::write_all(&mut framed, body);
    framed
}

/// Given the first bytes of a frame's length prefix, read one at a time, whether
/// the prefix is complete: its value once it is, nothing while it may still go
/// on, and an error when five bytes have not ended it.
pub fn varint_from_prefix(buf: &[u8]) -> (res: Result<Option<VarInt>, ProtocolError>)
    requires
        1 <= buf@.len() <= 5,
    ensures
        match varint_parse(buf@) {
            Ok((v, n)) => res matches Ok(Some(x)) && x@ == v,
            Err(e) => if buf@.len() < 5 {
                res matches Ok(None)
            } else {
                res == Err::<Option<VarInt>, ProtocolError>(ProtocolError::VarIntTooLong)
            },
        },
{
    let mut reader = Reader::new(buf);
    match VarInt::read(&mut reader) {
        Ok(length) => Ok(Some(length)),
        Err(_) => {
            if buf.len() < 5 {
                Ok(None)
            } else {
                Err(ProtocolError::VarIntTooLong)
            }
        },
    }
}

/// Decoding `raw` in the state `state` does not return: the state is one whose
/// packets are not handled, or the packet's fields cannot be decoded.
pub open spec fn packet_panics(state: ProtocolState, raw: Seq<u8>) -> bool {
    match state {
        ProtocolState::Handshaking => panics_as::<Handshake>(raw),
        ProtocolState::Status => status_panics(raw),
        ProtocolState::Login => login_panics(raw),
        ProtocolState::Configuration => true,
        ProtocolState::Play => true,
    }
}

/// Whether decoding `raw` in the state `state` would not return.
pub fn parse_panics(protocol_state: &ProtocolState, raw_packet: &RawPacket) -> (b: bool)
    ensures
        b == packet_panics(*protocol_state, raw_packet@),
{
    match protocol_state {
        ProtocolState::Handshaking => handshaking_panics(raw_packet),
        ProtocolState::Status => check_status_panics(raw_packet),
        ProtocolState::Login => check_login_panics(raw_packet),
        _ => true,
    }
}

/// Decodes a packet that a client sends, by the state of its connection.
pub fn parse_packet(protocol_state: &ProtocolState, raw_packet: RawPacket) -> (res: Result<
    PacketRegistry,
    ProtocolError,
>)
    requires
        !packet_panics(*protocol_state, raw_packet@),
    ensures
        match *protocol_state {
            ProtocolState::Handshaking => exists|inner: Result<HandshakingPacket, ProtocolError>|
                handshaking_parsed(raw_packet@, inner) && match inner {
                    Ok(p) => res == Ok::<PacketRegistry, ProtocolError>(PacketRegistry::Handshaking(p)),
                    Err(e) => res == Err::<PacketRegistry, ProtocolError>(e),
                },
            ProtocolState::Status => exists|inner: Result<StatusPacket, ProtocolError>|
                status_parsed(raw_packet@, inner) && match inner {
                    Ok(p) => res == Ok::<PacketRegistry, ProtocolError>(PacketRegistry::Status(p)),
                    Err(e) => res == Err::<PacketRegistry, ProtocolError>(e),
                },
            ProtocolState::Login => exists|inner: Result<LoginPacket, ProtocolError>|
                login_parsed(raw_packet@, inner) && match inner {
                    Ok(p) => res == Ok::<PacketRegistry, ProtocolError>(PacketRegistry::Login(p)),
                    Err(e) => res == Err::<PacketRegistry, ProtocolError>(e),
                },
            _ => false,
        },
{
    let ghost raw = raw_packet@;
    match protocol_state {
        ProtocolState::Handshaking => {
            let inner = HandshakingPacket::parse(raw_packet);
            let res = match inner {
                Ok(p) => Ok(PacketRegistry::Handshaking(p)),
                Err(e) => Err(e),
            };
            assert(handshaking_parsed(raw, inner));
            res
        },
        ProtocolState::Status => {
            let inner = StatusPacket::parse(raw_packet);
            let res = match inner {
                Ok(p) => Ok(PacketRegistry::Status(p)),
                Err(e) => Err(e),
            };
            assert(status_parsed(raw, inner));
            res
        },
        ProtocolState::Login => {
            let inner = LoginPacket::parse(raw_packet);
            let res = match inner {
                Ok(p) => Ok(PacketRegistry::Login(p)),
                Err(e) => Err(e),
            };
            assert(login_parsed(raw, inner));
            res
        },
        _ => {
            proof {
                assert(false);
            }
            Err(ProtocolError::InvalidPacketId)
        },
    }
}

} // verus!
