use crate::protocol::error::ProtocolError;
use crate::protocol::packets::handshaking::Handshake;
use crate::protocol::packets::login::{
    CookieRequest, CookieResponse, DisconnectClient, EncryptionRequest, EncryptionResponse,
    LoginAcknowledged, LoginPluginRequest, LoginPluginResponse, LoginStart, LoginSuccess,
    SetCompression,
};
use crate::protocol::packets::configuration::{
    click_action_read, AcknowledgeFinishConfiguration, AddResourcePack, C2SKeepAlive, C2SKnownPacks,
    C2SPluginMessage, ClearDialog, ClientInformation, CustomClickAction, CustomReportDetails,
    Disconnect, FeatureFlags, FinishConfiguration, Ping, Pong, RegistryData, RemoveResourcePack,
    ResetChat, ResourcePackResponse, S2CKeepAlive, S2CKnownPacks, S2CPluginMessage, ServerLinks,
    ShowDialog, StoreCookie, Transfer, UpdateTags,
};
use crate::protocol::packets::status::{PingRequest, PongResponse, StatusRequest, StatusResponse};
use crate::protocol::types::varint::wrap_i32;
use crate::protocol::types::{Identifier, Reader, Type, VarInt};
use crate::protocol::RawPacket;
use vstd::prelude::*;

pub mod configuration;
pub mod handshaking;
pub mod laws;
pub mod login;
pub mod status;

verus! {

/// The bytes of a byte sequence that goes out with its length first: the length
/// as a variable-length integer, then the bytes.
pub open spec fn prefixed_bytes(b: Seq<u8>) -> Seq<u8> {
    VarInt::spec_serialize(wrap_i32(b.len() as int)) + b
}

/// A packet: its id, then its fields.
///
/// The spec functions describe the fields alone, as for a
/// [`Type`](crate::protocol::types::Type); `write` puts the id in front of them,
/// while `read` expects the id to have been taken off already.
pub trait Packet: View + Sized {
    spec fn spec_packet_id() -> u8;

    fn packet_id() -> (id: u8)
        ensures
            id == Self::spec_packet_id(),
    ;

    spec fn spec_parse(s: Seq<u8>) -> Result<(Self::V, nat), ProtocolError>;

    spec fn spec_panics(s: Seq<u8>) -> bool;

    spec fn spec_serialize(v: Self::V) -> Seq<u8>;

    spec fn spec_writable(v: Self::V) -> bool;

    spec fn spec_wf(v: Self::V) -> bool;

    proof fn lemma_roundtrip(v: Self::V)
        requires
            Self::spec_wf(v),
        ensures
            Self::spec_writable(v),
            !Self::spec_panics(Self::spec_serialize(v)),
            Self::spec_parse(Self::spec_serialize(v)) == Ok::<(Self::V, nat), ProtocolError>(
                (v, Self::spec_serialize(v).len()),
            ),
    ;

    fn read(reader: &mut Reader<'_>) -> (res: Result<Self, ProtocolError>)
        requires
            old(reader).wf(),
            !Self::spec_panics(old(reader).remaining()),
        ensures
            final(reader).wf(),
            final(reader).data == old(reader).data,
            res is Ok ==> old(reader).pos <= final(reader).pos,
            match res {
                Ok(v) => Self::spec_parse(old(reader).remaining()) == Ok::<(Self::V, nat), ProtocolError>(
                    (v@, (final(reader).pos - old(reader).pos) as nat),
                ),
                Err(e) => Self::spec_parse(old(reader).remaining()) == Err::<(Self::V, nat), ProtocolError>(e),
            },
    ;

    fn write(&self, writer: &mut Vec<u8>) -> (res: Result<(), ProtocolError>)
        requires
            Self::spec_writable(self@),
        ensures
            res is Ok,
            final(writer)@ == old(writer)@ + seq![Self::spec_packet_id()] + Self::spec_serialize(self@),
    ;

    fn is_writable(&self) -> (b: bool)
        ensures
            b == Self::spec_writable(self@),
    ;

    /// Whether decoding the fields at the reader's position would not return.
    fn read_panics(reader: &Reader<'_>) -> (b: bool)
        requires
            reader.wf(),
        ensures
            b == Self::spec_panics(reader.remaining()),
    ;
}

/// A well-formed packet that is written as its id and fields decodes, by that id,
/// to itself.
pub proof fn law_packet_roundtrip<P: Packet>(v: P::V)
    requires
        P::spec_wf(v),
    ensures
        P::spec_writable(v),
        has_id::<P>(seq![P::spec_packet_id()] + P::spec_serialize(v)),
        !panics_as::<P>(seq![P::spec_packet_id()] + P::spec_serialize(v)),
        packet_outcome::<P>(seq![P::spec_packet_id()] + P::spec_serialize(v)) == Ok::<
            P::V,
            ProtocolError,
        >(v),
{
    P::lemma_roundtrip(v);
    assert((seq![P::spec_packet_id()] + P::spec_serialize(v)).drop_first() =~= P::spec_serialize(v));
}

/// What decoding the packet `raw` (id, then fields) as a `P` gives: the model of
/// the packet, or the error.
pub open spec fn packet_outcome<P: Packet>(raw: Seq<u8>) -> Result<P::V, ProtocolError> {
    match P::spec_parse(raw.drop_first()) {
        Ok((v, n)) => Ok(v),
        Err(e) => Err(e),
    }
}

/// The packet `raw` carries the id of `P`.
pub open spec fn has_id<P: Packet>(raw: Seq<u8>) -> bool {
    raw.len() > 0 && raw[0] == P::spec_packet_id()
}

/// The packet `raw` carries the id of `P`, and decoding its fields as a `P` does
/// not return.
pub open spec fn panics_as<P: Packet>(raw: Seq<u8>) -> bool {
    has_id::<P>(raw) && P::spec_panics(raw.drop_first())
}

/// Whether `raw` carries the id of `P` and decoding its fields as a `P` would
/// not return.
fn content_panics<P: Packet>(raw_packet: &RawPacket) -> (b: bool)
    ensures
        b == panics_as::<P>(raw_packet@),
{
    match raw_packet.packet_id() {
        Some(id) => if id == P::packet_id() {
            let reader = Reader::new(raw_packet.content());
            P::read_panics(&reader)
        } else {
            false
        },
        None => false,
    }
}

/// Whether decoding `raw` in the handshaking state would not return.
pub fn handshaking_panics(raw_packet: &RawPacket) -> (b: bool)
    ensures
        b == panics_as::<Handshake>(raw_packet@),
{
    content_panics::<Handshake>(raw_packet)
}

/// Whether decoding `raw` in the status state would not return.
pub fn check_status_panics(raw_packet: &RawPacket) -> (b: bool)
    ensures
        b == status_panics(raw_packet@),
{
    content_panics::<StatusRequest>(raw_packet) || content_panics::<PingRequest>(raw_packet)
}

/// Whether decoding `raw` in the login state would not return.
pub fn check_login_panics(raw_packet: &RawPacket) -> (b: bool)
    ensures
        b == login_panics(raw_packet@),
{
    content_panics::<LoginStart>(raw_packet) || content_panics::<EncryptionResponse>(raw_packet)
        || content_panics::<LoginPluginResponse>(raw_packet) || content_panics::<LoginAcknowledged>(
        raw_packet,
    ) || content_panics::<CookieResponse>(raw_packet)
}

/// Decodes the fields of a `P` from everything after the id.
fn read_content<P: Packet>(raw_packet: &RawPacket) -> (res: Result<P, ProtocolError>)
    requires
        raw_packet@.len() > 0,
        !P::spec_panics(raw_packet@.drop_first()),
    ensures
        match packet_outcome::<P>(raw_packet@) {
            Ok(v) => res matches Ok(p) && p@ == v,
            Err(e) => res == Err::<P, ProtocolError>(e),
        },
{
    let content = raw_packet.content();
    let mut reader = Reader::new(content);
    P::read(&mut reader)
}

/// What decoding `raw` in the handshaking state gives, for the result `res`.
pub open spec fn handshaking_parsed(raw: Seq<u8>, res: Result<HandshakingPacket, ProtocolError>) -> bool {
    &&& has_id::<Handshake>(raw) ==> match packet_outcome::<Handshake>(raw) {
        Ok(v) => res matches Ok(HandshakingPacket::Handshake(p)) && p@ == v,
        Err(e) => res == Err::<HandshakingPacket, ProtocolError>(e),
    }
    &&& !has_id::<Handshake>(raw) ==> res == Err::<HandshakingPacket, ProtocolError>(
        ProtocolError::InvalidPacketId,
    )
}

/// The packets of the handshaking state.
#[derive(Debug)]
pub enum HandshakingPacket {
    Handshake(Handshake),
}

impl HandshakingPacket {
    /// Decodes a packet that a client sends in the handshaking state.
    pub fn parse(raw_packet: RawPacket) -> (res: Result<Self, ProtocolError>)
        requires
            !panics_as::<Handshake>(raw_packet@),
        ensures
            handshaking_parsed(raw_packet@, res),
    {
        if let Some(packet_id) = raw_packet.packet_id() {
            if packet_id == Handshake::packet_id() {
                return match read_content::<Handshake>(&raw_packet) {
                    Ok(p) => Ok(HandshakingPacket::Handshake(p)),
                    Err(e) => Err(e),
                };
            }
        }
        Err(ProtocolError::InvalidPacketId)
    }
}

/// What decoding `raw` in the status state gives, for the result `res`.
pub open spec fn status_parsed(raw: Seq<u8>, res: Result<StatusPacket, ProtocolError>) -> bool {
    &&& has_id::<StatusRequest>(raw) ==> match packet_outcome::<StatusRequest>(raw) {
        Ok(v) => res matches Ok(StatusPacket::StatusRequest(p)) && p@ == v,
        Err(e) => res == Err::<StatusPacket, ProtocolError>(e),
    }
    &&& has_id::<PingRequest>(raw) ==> match packet_outcome::<PingRequest>(raw) {
        Ok(v) => res matches Ok(StatusPacket::PingRequest(p)) && p@ == v,
        Err(e) => res == Err::<StatusPacket, ProtocolError>(e),
    }
    &&& !has_id::<StatusRequest>(raw) && !has_id::<PingRequest>(raw) ==> res == Err::<
        StatusPacket,
        ProtocolError,
    >(ProtocolError::InvalidPacketId)
}

/// Decoding `raw` in the status state does not return.
pub open spec fn status_panics(raw: Seq<u8>) -> bool {
    panics_as::<StatusRequest>(raw) || panics_as::<PingRequest>(raw)
}

/// The packets of the status state, in both directions.
#[derive(Debug)]
pub enum StatusPacket {
    StatusResponse(StatusResponse),
    PongResponse(PongResponse),
    StatusRequest(StatusRequest),
    PingRequest(PingRequest),
}

impl StatusPacket {
    /// Decodes a packet that a client sends in the status state.
    pub fn parse(raw_packet: RawPacket) -> (res: Result<Self, ProtocolError>)
        requires
            !status_panics(raw_packet@),
        ensures
            status_parsed(raw_packet@, res),
    {
        if let Some(packet_id) = raw_packet.packet_id() {
            if packet_id == StatusRequest::packet_id() {
                return match read_content::<StatusRequest>(&raw_packet) {
                    Ok(p) => Ok(StatusPacket::StatusRequest(p)),
                    Err(e) => Err(e),
                };
            } else if packet_id == PingRequest::packet_id() {
                return match read_content::<PingRequest>(&raw_packet) {
                    Ok(p) => Ok(StatusPacket::PingRequest(p)),
                    Err(e) => Err(e),
                };
            }
        }
        Err(ProtocolError::InvalidPacketId)
    }
}

/// What decoding `raw` in the login state gives, for the result `res`.
pub open spec fn login_parsed(raw: Seq<u8>, res: Result<LoginPacket, ProtocolError>) -> bool {
    &&& has_id::<LoginStart>(raw) ==> match packet_outcome::<LoginStart>(raw) {
        Ok(v) => res matches Ok(LoginPacket::LoginStart(p)) && p@ == v,
        Err(e) => res == Err::<LoginPacket, ProtocolError>(e),
    }
    &&& has_id::<EncryptionResponse>(raw) ==> match packet_outcome::<EncryptionResponse>(raw) {
        Ok(v) => res matches Ok(LoginPacket::EncryptionResponse(p)) && p@ == v,
        Err(e) => res == Err::<LoginPacket, ProtocolError>(e),
    }
    &&& has_id::<LoginPluginResponse>(raw) ==> match packet_outcome::<LoginPluginResponse>(raw) {
        Ok(v) => res matches Ok(LoginPacket::LoginPluginResponse(p)) && p@ == v,
        Err(e) => res == Err::<LoginPacket, ProtocolError>(e),
    }
    &&& has_id::<LoginAcknowledged>(raw) ==> match packet_outcome::<LoginAcknowledged>(raw) {
        Ok(v) => res matches Ok(LoginPacket::LoginAcknowledged(p)) && p@ == v,
        Err(e) => res == Err::<LoginPacket, ProtocolError>(e),
    }
    &&& has_id::<CookieResponse>(raw) ==> match packet_outcome::<CookieResponse>(raw) {
        Ok(v) => res matches Ok(LoginPacket::CookieResponse(p)) && p@ == v,
        Err(e) => res == Err::<LoginPacket, ProtocolError>(e),
    }
    &&& (raw.len() == 0 || raw[0] > 0x04) ==> res == Err::<LoginPacket, ProtocolError>(
        ProtocolError::InvalidPacketId,
    )
}

/// Decoding `raw` in the login state does not return.
pub open spec fn login_panics(raw: Seq<u8>) -> bool {
    ||| panics_as::<LoginStart>(raw)
    ||| panics_as::<EncryptionResponse>(raw)
    ||| panics_as::<LoginPluginResponse>(raw)
    ||| panics_as::<LoginAcknowledged>(raw)
    ||| panics_as::<CookieResponse>(raw)
}

/// The packets of the login state, in both directions.
#[derive(Debug)]
pub enum LoginPacket {
    LoginStart(LoginStart),
    EncryptionResponse(EncryptionResponse),
    LoginPluginResponse(LoginPluginResponse),
    LoginAcknowledged(LoginAcknowledged),
    CookieResponse(CookieResponse),
    DisconnectClient(DisconnectClient),
    EncryptionRequest(EncryptionRequest),
    LoginSuccess(LoginSuccess),
    SetCompression(SetCompression),
    LoginPluginRequest(LoginPluginRequest),
    CookieRequest(login::CookieRequest),
}

impl LoginPacket {
    /// Decodes a packet that a client sends in the login state.
    pub fn parse(raw_packet: RawPacket) -> (res: Result<Self, ProtocolError>)
        requires
            !login_panics(raw_packet@),
        ensures
            login_parsed(raw_packet@, res),
    {
        if let Some(packet_id) = raw_packet.packet_id() {
            if packet_id == LoginStart::packet_id() {
                return match read_content::<LoginStart>(&raw_packet) {
                    Ok(p) => Ok(LoginPacket::LoginStart(p)),
                    Err(e) => Err(e),
                };
            } else if packet_id == EncryptionResponse::packet_id() {
                return match read_content::<EncryptionResponse>(&raw_packet) {
                    Ok(p) => Ok(LoginPacket::EncryptionResponse(p)),
                    Err(e) => Err(e),
                };
            } else if packet_id == LoginPluginResponse::packet_id() {
                return match read_content::<LoginPluginResponse>(&raw_packet) {
                    Ok(p) => Ok(LoginPacket::LoginPluginResponse(p)),
                    Err(e) => Err(e),
                };
            } else if packet_id == LoginAcknowledged::packet_id() {
                return match read_content::<LoginAcknowledged>(&raw_packet) {
                    Ok(p) => Ok(LoginPacket::LoginAcknowledged(p)),
                    Err(e) => Err(e),
                };
            } else if packet_id == CookieResponse::packet_id() {
                return match read_content::<CookieResponse>(&raw_packet) {
                    Ok(p) => Ok(LoginPacket::CookieResponse(p)),
                    Err(e) => Err(e),
                };
            }
        }
        Err(ProtocolError::InvalidPacketId)
    }
}

/// What decoding `raw` in the configuration state gives, for the result `res`,
/// when the NBT decoder `nbt_extent` finds where an NBT value ends.
pub open spec fn configuration_parsed<F: Fn(&[u8]) -> Option<usize>>(
    raw: Seq<u8>,
    res: Result<ConfigurationPacket, ProtocolError>,
    nbt_extent: F,
) -> bool {
    &&& has_id::<ClientInformation>(raw) ==> match packet_outcome::<ClientInformation>(raw) {
        Ok(v) => res matches Ok(ConfigurationPacket::ClientInformation(p)) && p@ == v,
        Err(e) => res == Err::<ConfigurationPacket, ProtocolError>(e),
    }
    &&& has_id::<configuration::CookieResponse>(raw) ==> match packet_outcome::<
        configuration::CookieResponse,
    >(raw) {
        Ok(v) => res matches Ok(ConfigurationPacket::CookieResponse(p)) && p@ == v,
        Err(e) => res == Err::<ConfigurationPacket, ProtocolError>(e),
    }
    &&& has_id::<C2SPluginMessage>(raw) ==> match packet_outcome::<C2SPluginMessage>(raw) {
        Ok(v) => res matches Ok(ConfigurationPacket::C2SPluginMessage(p)) && p@ == v,
        Err(e) => res == Err::<ConfigurationPacket, ProtocolError>(e),
    }
    &&& has_id::<AcknowledgeFinishConfiguration>(raw) ==> match packet_outcome::<
        AcknowledgeFinishConfiguration,
    >(raw) {
        Ok(v) => res matches Ok(ConfigurationPacket::AcknowledgeFinishConfiguration(p)) && p@ == v,
        Err(e) => res == Err::<ConfigurationPacket, ProtocolError>(e),
    }
    &&& has_id::<C2SKeepAlive>(raw) ==> match packet_outcome::<C2SKeepAlive>(raw) {
        Ok(v) => res matches Ok(ConfigurationPacket::C2SKeepAlive(p)) && p@ == v,
        Err(e) => res == Err::<ConfigurationPacket, ProtocolError>(e),
    }
    &&& has_id::<Pong>(raw) ==> match packet_outcome::<Pong>(raw) {
        Ok(v) => res matches Ok(ConfigurationPacket::Pong(p)) && p@ == v,
        Err(e) => res == Err::<ConfigurationPacket, ProtocolError>(e),
    }
    &&& has_id::<ResourcePackResponse>(raw) ==> match packet_outcome::<ResourcePackResponse>(raw) {
        Ok(v) => res matches Ok(ConfigurationPacket::ResourcePackResponse(p)) && p@ == v,
        Err(e) => res == Err::<ConfigurationPacket, ProtocolError>(e),
    }
    &&& has_id::<C2SKnownPacks>(raw) ==> match packet_outcome::<C2SKnownPacks>(raw) {
        Ok(v) => res matches Ok(ConfigurationPacket::C2SKnownPacks(p)) && p@ == v,
        Err(e) => res == Err::<ConfigurationPacket, ProtocolError>(e),
    }
    &&& (raw.len() > 0 && raw[0] == CustomClickAction::spec_packet_id()) ==> match res {
        Ok(ConfigurationPacket::CustomClickAction(c)) => click_action_read(
            nbt_extent,
            raw.drop_first(),
            Ok(c@),
        ),
        Ok(_) => false,
        Err(e) => click_action_read(nbt_extent, raw.drop_first(), Err(e)),
    }
    &&& (raw.len() == 0 || raw[0] > 0x08) ==> res == Err::<ConfigurationPacket, ProtocolError>(
        ProtocolError::InvalidPacketId,
    )
}

/// Decoding `raw` in the configuration state does not return.
pub open spec fn configuration_panics(raw: Seq<u8>) -> bool {
    ||| panics_as::<ClientInformation>(raw)
    ||| panics_as::<configuration::CookieResponse>(raw)
    ||| panics_as::<C2SPluginMessage>(raw)
    ||| panics_as::<AcknowledgeFinishConfiguration>(raw)
    ||| panics_as::<C2SKeepAlive>(raw)
    ||| panics_as::<Pong>(raw)
    ||| panics_as::<ResourcePackResponse>(raw)
    ||| panics_as::<C2SKnownPacks>(raw)
    ||| (raw.len() > 0 && raw[0] == CustomClickAction::spec_packet_id()
        && Identifier::spec_panics(raw.drop_first()))
}

/// Whether decoding `raw` in the configuration state would not return.
pub fn check_configuration_panics(raw_packet: &RawPacket) -> (b: bool)
    ensures
        b == configuration_panics(raw_packet@),
{
    let custom = match raw_packet.packet_id() {
        Some(id) => if id == CustomClickAction::packet_id() {
            let reader = Reader::new(raw_packet.content());
            Identifier::read_panics(&reader)
        } else {
            false
        },
        None => false,
    };
    content_panics::<ClientInformation>(raw_packet) || content_panics::<
        configuration::CookieResponse,
    >(raw_packet) || content_panics::<C2SPluginMessage>(raw_packet) || content_panics::<
        AcknowledgeFinishConfiguration,
    >(raw_packet) || content_panics::<C2SKeepAlive>(raw_packet) || content_panics::<Pong>(
        raw_packet,
    ) || content_panics::<ResourcePackResponse>(raw_packet) || content_panics::<C2SKnownPacks>(
        raw_packet,
    ) || custom
}

/// The packets of the configuration state, in both directions.
#[derive(Debug)]
pub enum ConfigurationPacket {
    CookieRequest(configuration::CookieRequest),
    S2CPluginMessage(S2CPluginMessage),
    Disconnect(Disconnect),
    FinishConfiguration(FinishConfiguration),
    S2CKeepAlive(S2CKeepAlive),
    Ping(Ping),
    ResetChat(ResetChat),
    RegistryData(RegistryData),
    RemoveResourcePack(RemoveResourcePack),
    AddResourcePack(AddResourcePack),
    StoreCookie(StoreCookie),
    Transfer(Transfer),
    FeatureFlags(FeatureFlags),
    UpdateTags(UpdateTags),
    S2CKnownPacks(S2CKnownPacks),
    CustomReportDetails(CustomReportDetails),
    ServerLinks(ServerLinks),
    ClearDialog(ClearDialog),
    ShowDialog(ShowDialog),
    ClientInformation(ClientInformation),
    CookieResponse(CookieResponse),
    C2SPluginMessage(C2SPluginMessage),
    AcknowledgeFinishConfiguration(AcknowledgeFinishConfiguration),
    C2SKeepAlive(C2SKeepAlive),
    Pong(Pong),
    ResourcePackResponse(ResourcePackResponse),
    C2SKnownPacks(C2SKnownPacks),
    CustomClickAction(CustomClickAction),
}

impl ConfigurationPacket {
    /// Decodes a packet that a client sends in the configuration state; the NBT
    /// decoder `nbt_extent` finds where the NBT value of a custom click action
    /// ends.
    pub fn parse<F: Fn(&[u8]) -> Option<usize>>(raw_packet: RawPacket, nbt_extent: &F) -> (res:
        Result<Self, ProtocolError>)
        requires
            !configuration_panics(raw_packet@),
            forall|b: &[u8]| #[trigger] nbt_extent.requires((b,)),
        ensures
            configuration_parsed(raw_packet@, res, *nbt_extent),
    {
        if let Some(packet_id) = raw_packet.packet_id() {
            if packet_id == ClientInformation::packet_id() {
                return match read_content::<ClientInformation>(&raw_packet) {
                    Ok(p) => Ok(ConfigurationPacket::ClientInformation(p)),
                    Err(e) => Err(e),
                };
            } else if packet_id == configuration::CookieResponse::packet_id() {
                return match read_content::<configuration::CookieResponse>(&raw_packet) {
                    Ok(p) => Ok(
                        ConfigurationPacket::CookieResponse(
                            CookieResponse { key: p.key, payload: p.payload },
                        ),
                    ),
                    Err(e) => Err(e),
                };
            } else if packet_id == C2SPluginMessage::packet_id() {
                return match read_content::<C2SPluginMessage>(&raw_packet) {
                    Ok(p) => Ok(ConfigurationPacket::C2SPluginMessage(p)),
                    Err(e) => Err(e),
                };
            } else if packet_id == AcknowledgeFinishConfiguration::packet_id() {
                return match read_content::<AcknowledgeFinishConfiguration>(&raw_packet) {
                    Ok(p) => Ok(ConfigurationPacket::AcknowledgeFinishConfiguration(p)),
                    Err(e) => Err(e),
                };
            } else if packet_id == C2SKeepAlive::packet_id() {
                return match read_content::<C2SKeepAlive>(&raw_packet) {
                    Ok(p) => Ok(ConfigurationPacket::C2SKeepAlive(p)),
                    Err(e) => Err(e),
                };
            } else if packet_id == Pong::packet_id() {
                return match read_content::<Pong>(&raw_packet) {
                    Ok(p) => Ok(ConfigurationPacket::Pong(p)),
                    Err(e) => Err(e),
                };
            } else if packet_id == ResourcePackResponse::packet_id() {
                return match read_content::<ResourcePackResponse>(&raw_packet) {
                    Ok(p) => Ok(ConfigurationPacket::ResourcePackResponse(p)),
                    Err(e) => Err(e),
                };
            } else if packet_id == C2SKnownPacks::packet_id() {
                return match read_content::<C2SKnownPacks>(&raw_packet) {
                    Ok(p) => Ok(ConfigurationPacket::C2SKnownPacks(p)),
                    Err(e) => Err(e),
                };
            } else if packet_id == CustomClickAction::packet_id() {
                let mut reader = Reader::new(raw_packet.content());
                let res = CustomClickAction::read(&mut reader, nbt_extent);
                return match res {
                    Ok(c) => Ok(ConfigurationPacket::CustomClickAction(c)),
                    Err(e) => Err(e),
                };
            }
        }
        Err(ProtocolError::InvalidPacketId)
    }
}

/// A packet of any state that the library decodes.
#[derive(Debug)]
pub enum PacketRegistry {
    Handshaking(HandshakingPacket),
    Status(StatusPacket),
    Login(LoginPacket),
    Configuration(ConfigurationPacket),
}

/// `res` is what decoding in one state gave, `inner`, wrapped for the registry.
pub open spec fn registry_wraps<P>(
    res: Result<PacketRegistry, ProtocolError>,
    inner: Result<P, ProtocolError>,
    wrap: spec_fn(P) -> PacketRegistry,
) -> bool {
    match inner {
        Ok(p) => res == Ok::<PacketRegistry, ProtocolError>(wrap(p)),
        Err(e) => res == Err::<PacketRegistry, ProtocolError>(e),
    }
}

impl PacketRegistry {
    pub fn parse_handshaking(raw_packet: RawPacket) -> (res: Result<Self, ProtocolError>)
        requires
            !panics_as::<Handshake>(raw_packet@),
        ensures
            exists|inner: Result<HandshakingPacket, ProtocolError>|
                handshaking_parsed(raw_packet@, inner) && registry_wraps(
                    res,
                    inner,
                    |p: HandshakingPacket| PacketRegistry::Handshaking(p),
                ),
    {
        let ghost raw = raw_packet@;
        let inner = HandshakingPacket::parse(raw_packet);
        let res = match inner {
            Ok(p) => Ok(PacketRegistry::Handshaking(p)),
            Err(e) => Err(e),
        };
        assert(handshaking_parsed(raw, inner) && registry_wraps(
            res,
            inner,
            |p: HandshakingPacket| PacketRegistry::Handshaking(p),
        ));
        res
    }

    pub fn parse_status(raw_packet: RawPacket) -> (res: Result<Self, ProtocolError>)
        requires
            !status_panics(raw_packet@),
        ensures
            exists|inner: Result<StatusPacket, ProtocolError>|
                status_parsed(raw_packet@, inner) && registry_wraps(
                    res,
                    inner,
                    |p: StatusPacket| PacketRegistry::Status(p),
                ),
    {
        let ghost raw = raw_packet@;
        let inner = StatusPacket::parse(raw_packet);
        let res = match inner {
            Ok(p) => Ok(PacketRegistry::Status(p)),
            Err(e) => Err(e),
        };
        assert(status_parsed(raw, inner) && registry_wraps(
            res,
            inner,
            |p: StatusPacket| PacketRegistry::Status(p),
        ));
        res
    }

    pub fn parse_login(raw_packet: RawPacket) -> (res: Result<Self, ProtocolError>)
        requires
            !login_panics(raw_packet@),
        ensures
            exists|inner: Result<LoginPacket, ProtocolError>|
                login_parsed(raw_packet@, inner) && registry_wraps(
                    res,
                    inner,
                    |p: LoginPacket| PacketRegistry::Login(p),
                ),
    {
        let ghost raw = raw_packet@;
        let inner = LoginPacket::parse(raw_packet);
        let res = match inner {
            Ok(p) => Ok(PacketRegistry::Login(p)),
            Err(e) => Err(e),
        };
        assert(login_parsed(raw, inner) && registry_wraps(
            res,
            inner,
            |p: LoginPacket| PacketRegistry::Login(p),
        ));
        res
    }

    pub fn parse_configuration<F: Fn(&[u8]) -> Option<usize>>(
        raw_packet: RawPacket,
        nbt_extent: &F,
    ) -> (res: Result<Self, ProtocolError>)
        requires
            !configuration_panics(raw_packet@),
            forall|b: &[u8]| #[trigger] nbt_extent.requires((b,)),
        ensures
            exists|inner: Result<ConfigurationPacket, ProtocolError>|
                configuration_parsed(raw_packet@, inner, *nbt_extent) && registry_wraps(
                    res,
                    inner,
                    |p: ConfigurationPacket| PacketRegistry::Configuration(p),
                ),
    {
        let ghost raw = raw_packet@;
        let inner = ConfigurationPacket::parse(raw_packet, nbt_extent);
        let res = match inner {
            Ok(p) => Ok(PacketRegistry::Configuration(p)),
            Err(e) => Err(e),
        };
        assert(configuration_parsed(raw, inner, *nbt_extent) && registry_wraps(
            res,
            inner,
            |p: ConfigurationPacket| PacketRegistry::Configuration(p),
        ));
        res
    }
}

} // verus!
