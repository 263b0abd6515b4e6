use crate::protocol::error::ProtocolError;
use crate::protocol::packets::Packet;
use crate::protocol::utils::{spec_text_component, text_component};
use crate::protocol::types::nbt::{optional_nbt_serialize, optional_nbt_view, write_optional_nbt};
use crate::protocol::types::or::Either;
use crate::protocol::types::string::wrap_length;
use crate::protocol::types::varint::wrap_i32;
use crate::protocol::types::{
    Boolean, Byte, ByteArray, Identifier, Int, Long, Nbt, Or, PrefixedArray, PrefixedOptional, Reader,
    String, Type, Uuid, VarInt,
};
use crate::protocol::utils::write_u8;
use vstd::prelude::*;

verus! {

/// Requests a cookie that was previously stored.
#[derive(Debug)]
pub struct CookieRequest {
    /// The identifier of the cookie
    pub key: Identifier,
}

impl View for CookieRequest {
    type V = Seq<char>;

    open spec fn view(&self) -> Self::V {
        self.key@
    }
}

impl Packet for CookieRequest {
    open spec fn spec_packet_id() -> u8 {
        0x00
    }

    fn packet_id() -> (id: u8) {
        0x00
    }

    open spec fn spec_parse(s: Seq<u8>) -> Result<(Self::V, nat), ProtocolError> {
        <Identifier>::spec_parse(s)
    }

    open spec fn spec_panics(s: Seq<u8>) -> bool {
        <Identifier>::spec_panics(s)
    }

    open spec fn spec_serialize(v: Self::V) -> Seq<u8> {
        <Identifier>::spec_serialize(v)
    }

    open spec fn spec_writable(v: Self::V) -> bool {
        <Identifier>::spec_writable(v)
    }

    open spec fn spec_wf(v: Self::V) -> bool {
        <Identifier>::spec_wf(v)
    }

    proof fn lemma_roundtrip(v: Self::V) {
        <Identifier>::lemma_wf_writable(v);
        <Identifier>::lemma_roundtrip(v, Seq::empty());
        assert(Self::spec_serialize(v) + Seq::<u8>::empty() =~= Self::spec_serialize(v));
    }

    fn read(reader: &mut Reader<'_>) -> (res: Result<Self, ProtocolError>) {
        let key = <Identifier>::read(reader)?;
        Ok(Self { key })
    }

    fn write(&self, writer: &mut Vec<u8>) -> (res: Result<(), ProtocolError>) {
        writer.push(Self::packet_id());
        self.key.write(writer)?;
        assert(writer@ =~= old(writer)@ + seq![Self::spec_packet_id()] + Self::spec_serialize(self@));
        Ok(())
    }

    fn is_writable(&self) -> (b: bool) {
        self.key.is_writable()
    }

    fn read_panics(reader: &Reader<'_>) -> (b: bool) {
        <Identifier>::read_panics(reader)
    }
}

/// Mods and plugins can use this to send their data
#[derive(Debug)]
pub struct S2CPluginMessage {
    /// Name of the plugin channel used to send the data
    pub channel: Identifier,
    /// Any data, length inferred from packet length
    pub data: ByteArray,
}

impl View for S2CPluginMessage {
    type V = (Seq<char>, Seq<u8>);

    open spec fn view(&self) -> Self::V {
        (self.channel@, self.data@)
    }
}

impl Packet for S2CPluginMessage {
    open spec fn spec_packet_id() -> u8 {
        0x01
    }

    fn packet_id() -> (id: u8) {
        0x01
    }

    open spec fn spec_parse(s: Seq<u8>) -> Result<(Self::V, nat), ProtocolError> {
        <(Identifier, ByteArray)>::spec_parse(s)
    }

    open spec fn spec_panics(s: Seq<u8>) -> bool {
        <(Identifier, ByteArray)>::spec_panics(s)
    }

    open spec fn spec_serialize(v: Self::V) -> Seq<u8> {
        <(Identifier, ByteArray)>::spec_serialize(v)
    }

    open spec fn spec_writable(v: Self::V) -> bool {
        <(Identifier, ByteArray)>::spec_writable(v)
    }

    open spec fn spec_wf(v: Self::V) -> bool {
        <(Identifier, ByteArray)>::spec_wf(v)
    }

    proof fn lemma_roundtrip(v: Self::V) {
        <(Identifier, ByteArray)>::lemma_wf_writable(v);
        <(Identifier, ByteArray)>::lemma_roundtrip(v, Seq::empty());
        assert(Self::spec_serialize(v) + Seq::<u8>::empty() =~= Self::spec_serialize(v));
    }

    fn read(reader: &mut Reader<'_>) -> (res: Result<Self, ProtocolError>) {
        let (channel, data) = <(Identifier, ByteArray)>::read(reader)?;
        Ok(Self { channel, data })
    }

    fn write(&self, writer: &mut Vec<u8>) -> (res: Result<(), ProtocolError>) {
        writer.push(Self::packet_id());
        self.channel.write(writer)?;
        self.data.write(writer)?;
        assert(writer@ =~= old(writer)@ + seq![Self::spec_packet_id()] + Self::spec_serialize(self@));
        Ok(())
    }

    fn is_writable(&self) -> (b: bool) {
        self.channel.is_writable() && self.data.is_writable()
    }

    fn read_panics(reader: &Reader<'_>) -> (b: bool) {
        <(Identifier, ByteArray)>::read_panics(reader)
    }
}

/// Disconnect client
#[derive(Debug)]
pub struct Disconnect {
    /// Json Text Component
    pub reason: String,
}

impl Disconnect {
    /// util to get a DisconnectClient with reason
    pub fn text(reason: std::string::String) -> (res: Self)
        ensures
            res.reason@ == spec_text_component(reason@),
    {
        Self { reason: String(text_component(reason.as_str())) }
    }
}

impl View for Disconnect {
    type V = Seq<char>;

    open spec fn view(&self) -> Self::V {
        self.reason@
    }
}

impl Packet for Disconnect {
    open spec fn spec_packet_id() -> u8 {
        0x02
    }

    fn packet_id() -> (id: u8) {
        0x02
    }

    open spec fn spec_parse(s: Seq<u8>) -> Result<(Self::V, nat), ProtocolError> {
        <String>::spec_parse(s)
    }

    open spec fn spec_panics(s: Seq<u8>) -> bool {
        <String>::spec_panics(s)
    }

    open spec fn spec_serialize(v: Self::V) -> Seq<u8> {
        <String>::spec_serialize(v)
    }

    open spec fn spec_writable(v: Self::V) -> bool {
        <String>::spec_writable(v)
    }

    open spec fn spec_wf(v: Self::V) -> bool {
        <String>::spec_wf(v)
    }

    proof fn lemma_roundtrip(v: Self::V) {
        <String>::lemma_wf_writable(v);
        <String>::lemma_roundtrip(v, Seq::empty());
        assert(Self::spec_serialize(v) + Seq::<u8>::empty() =~= Self::spec_serialize(v));
    }

    fn read(reader: &mut Reader<'_>) -> (res: Result<Self, ProtocolError>) {
        let reason = <String>::read(reader)?;
        Ok(Self { reason })
    }

    fn write(&self, writer: &mut Vec<u8>) -> (res: Result<(), ProtocolError>) {
        writer.push(Self::packet_id());
        self.reason.write(writer)?;
        assert(writer@ =~= old(writer)@ + seq![Self::spec_packet_id()] + Self::spec_serialize(self@));
        Ok(())
    }

    fn is_writable(&self) -> (b: bool) {
        self.reason.is_writable()
    }

    fn read_panics(reader: &Reader<'_>) -> (b: bool) {
        <String>::read_panics(reader)
    }
}

/// Sent by server to notify the client that the configuration process has finished. The client
/// answers with Acknowledge Finish Configuration whenever it is ready to continue.
///
/// This packet switches the connection state to Play
#[derive(Debug)]
pub struct FinishConfiguration {}

impl View for FinishConfiguration {
    type V = ();

    open spec fn view(&self) -> () {
        ()
    }
}

impl Packet for FinishConfiguration {
    open spec fn spec_packet_id() -> u8 {
        0x03
    }

    fn packet_id() -> (id: u8) {
        0x03
    }

    open spec fn spec_parse(s: Seq<u8>) -> Result<((), nat), ProtocolError> {
        Ok(((), 0))
    }

    open spec fn spec_panics(s: Seq<u8>) -> bool {
        false
    }

    open spec fn spec_serialize(v: ()) -> Seq<u8> {
        Seq::empty()
    }

    open spec fn spec_writable(v: ()) -> bool {
        true
    }

    open spec fn spec_wf(v: ()) -> bool {
        true
    }

    proof fn lemma_roundtrip(v: ()) {
    }

    fn read(reader: &mut Reader<'_>) -> (res: Result<Self, ProtocolError>) {
        Ok(Self {})
    }

    fn write(&self, writer: &mut Vec<u8>) -> (res: Result<(), ProtocolError>) {
        writer.push(Self::packet_id());
        assert(writer@ =~= old(writer)@ + seq![Self::spec_packet_id()] + Seq::<u8>::empty());
        Ok(())
    }

    fn is_writable(&self) -> (b: bool) {
        true
    }

    fn read_panics(reader: &Reader<'_>) -> (b: bool) {
        false
    }
}

/// The server will frequently send out a keep-alive, each containing a random ID. The client must
/// respond with the same payload (see Serverbound Keep Alive). If the client does not respond to a
/// Keep Alive packet within 15 seconds after it was sent, the server kicks the client. Vice versa,
/// if the server does not send any keep-alives for 20 seconds, the client will disconnect and
/// yield a "Timed out" exception.
///
/// The vanilla server uses a system-dependent time in milliseconds to generate the keep alive ID value.
#[derive(Debug)]
pub struct S2CKeepAlive {
    pub id: Long,
}

impl View for S2CKeepAlive {
    type V = i64;

    open spec fn view(&self) -> Self::V {
        self.id@
    }
}

impl Packet for S2CKeepAlive {
    open spec fn spec_packet_id() -> u8 {
        0x04
    }

    fn packet_id() -> (id: u8) {
        0x04
    }

    open spec fn spec_parse(s: Seq<u8>) -> Result<(Self::V, nat), ProtocolError> {
        <Long>::spec_parse(s)
    }

    open spec fn spec_panics(s: Seq<u8>) -> bool {
        <Long>::spec_panics(s)
    }

    open spec fn spec_serialize(v: Self::V) -> Seq<u8> {
        <Long>::spec_serialize(v)
    }

    open spec fn spec_writable(v: Self::V) -> bool {
        <Long>::spec_writable(v)
    }

    open spec fn spec_wf(v: Self::V) -> bool {
        <Long>::spec_wf(v)
    }

    proof fn lemma_roundtrip(v: Self::V) {
        <Long>::lemma_wf_writable(v);
        <Long>::lemma_roundtrip(v, Seq::empty());
        assert(Self::spec_serialize(v) + Seq::<u8>::empty() =~= Self::spec_serialize(v));
    }

    fn read(reader: &mut Reader<'_>) -> (res: Result<Self, ProtocolError>) {
        let id = <Long>::read(reader)?;
        Ok(Self { id })
    }

    fn write(&self, writer: &mut Vec<u8>) -> (res: Result<(), ProtocolError>) {
        writer.push(Self::packet_id());
        self.id.write(writer)?;
        assert(writer@ =~= old(writer)@ + seq![Self::spec_packet_id()] + Self::spec_serialize(self@));
        Ok(())
    }

    fn is_writable(&self) -> (b: bool) {
        self.id.is_writable()
    }

    fn read_panics(reader: &Reader<'_>) -> (b: bool) {
        <Long>::read_panics(reader)
    }
}

/// Packet is not used by the vanilla server. When sent to the client, the client responds with a
/// Pong packet with the same ID.
#[derive(Debug)]
pub struct Ping {
    pub id: Int,
}

impl View for Ping {
    type V = i32;

    open spec fn view(&self) -> Self::V {
        self.id@
    }
}

impl Packet for Ping {
    open spec fn spec_packet_id() -> u8 {
        0x05
    }

    fn packet_id() -> (id: u8) {
        0x05
    }

    open spec fn spec_parse(s: Seq<u8>) -> Result<(Self::V, nat), ProtocolError> {
        <Int>::spec_parse(s)
    }

    open spec fn spec_panics(s: Seq<u8>) -> bool {
        <Int>::spec_panics(s)
    }

    open spec fn spec_serialize(v: Self::V) -> Seq<u8> {
        <Int>::spec_serialize(v)
    }

    open spec fn spec_writable(v: Self::V) -> bool {
        <Int>::spec_writable(v)
    }

    open spec fn spec_wf(v: Self::V) -> bool {
        <Int>::spec_wf(v)
    }

    proof fn lemma_roundtrip(v: Self::V) {
        <Int>::lemma_wf_writable(v);
        <Int>::lemma_roundtrip(v, Seq::empty());
        assert(Self::spec_serialize(v) + Seq::<u8>::empty() =~= Self::spec_serialize(v));
    }

    fn read(reader: &mut Reader<'_>) -> (res: Result<Self, ProtocolError>) {
        let id = <Int>::read(reader)?;
        Ok(Self { id })
    }

    fn write(&self, writer: &mut Vec<u8>) -> (res: Result<(), ProtocolError>) {
        writer.push(Self::packet_id());
        self.id.write(writer)?;
        assert(writer@ =~= old(writer)@ + seq![Self::spec_packet_id()] + Self::spec_serialize(self@));
        Ok(())
    }

    fn is_writable(&self) -> (b: bool) {
        self.id.is_writable()
    }

    fn read_panics(reader: &Reader<'_>) -> (b: bool) {
        <Int>::read_panics(reader)
    }
}

/// Clears the client's chat.
#[derive(Debug)]
pub struct ResetChat {}

impl View for ResetChat {
    type V = ();

    open spec fn view(&self) -> () {
        ()
    }
}

impl Packet for ResetChat {
    open spec fn spec_packet_id() -> u8 {
        0x06
    }

    fn packet_id() -> (id: u8) {
        0x06
    }

    open spec fn spec_parse(s: Seq<u8>) -> Result<((), nat), ProtocolError> {
        Ok(((), 0))
    }

    open spec fn spec_panics(s: Seq<u8>) -> bool {
        false
    }

    open spec fn spec_serialize(v: ()) -> Seq<u8> {
        Seq::empty()
    }

    open spec fn spec_writable(v: ()) -> bool {
        true
    }

    open spec fn spec_wf(v: ()) -> bool {
        true
    }

    proof fn lemma_roundtrip(v: ()) {
    }

    fn read(reader: &mut Reader<'_>) -> (res: Result<Self, ProtocolError>) {
        Ok(Self {})
    }

    fn write(&self, writer: &mut Vec<u8>) -> (res: Result<(), ProtocolError>) {
        writer.push(Self::packet_id());
        assert(writer@ =~= old(writer)@ + seq![Self::spec_packet_id()] + Seq::<u8>::empty());
        Ok(())
    }

    fn is_writable(&self) -> (b: bool) {
        true
    }

    fn read_panics(reader: &Reader<'_>) -> (b: bool) {
        false
    }
}

/// Removes a resource pack from the client.
#[derive(Debug)]
pub struct RemoveResourcePack {
    /// The UUID of the resource pack to be removed.
    /// If not present, every resource pack will be removed.
    pub uuid: Uuid,
}

impl View for RemoveResourcePack {
    type V = Seq<u8>;

    open spec fn view(&self) -> Self::V {
        self.uuid@
    }
}

impl Packet for RemoveResourcePack {
    open spec fn spec_packet_id() -> u8 {
        0x08
    }

    fn packet_id() -> (id: u8) {
        0x08
    }

    open spec fn spec_parse(s: Seq<u8>) -> Result<(Self::V, nat), ProtocolError> {
        <Uuid>::spec_parse(s)
    }

    open spec fn spec_panics(s: Seq<u8>) -> bool {
        <Uuid>::spec_panics(s)
    }

    open spec fn spec_serialize(v: Self::V) -> Seq<u8> {
        <Uuid>::spec_serialize(v)
    }

    open spec fn spec_writable(v: Self::V) -> bool {
        <Uuid>::spec_writable(v)
    }

    open spec fn spec_wf(v: Self::V) -> bool {
        <Uuid>::spec_wf(v)
    }

    proof fn lemma_roundtrip(v: Self::V) {
        <Uuid>::lemma_wf_writable(v);
        <Uuid>::lemma_roundtrip(v, Seq::empty());
        assert(Self::spec_serialize(v) + Seq::<u8>::empty() =~= Self::spec_serialize(v));
    }

    fn read(reader: &mut Reader<'_>) -> (res: Result<Self, ProtocolError>) {
        let uuid = <Uuid>::read(reader)?;
        Ok(Self { uuid })
    }

    fn write(&self, writer: &mut Vec<u8>) -> (res: Result<(), ProtocolError>) {
        writer.push(Self::packet_id());
        self.uuid.write(writer)?;
        assert(writer@ =~= old(writer)@ + seq![Self::spec_packet_id()] + Self::spec_serialize(self@));
        Ok(())
    }

    fn is_writable(&self) -> (b: bool) {
        self.uuid.is_writable()
    }

    fn read_panics(reader: &Reader<'_>) -> (b: bool) {
        <Uuid>::read_panics(reader)
    }
}

/// Stores some arbitrary data on the client, which persists between server transfers.
/// The vanilla client only accepts cookies of up to 5 kiB in size.
#[derive(Debug)]
pub struct StoreCookie {
    /// The identifier of the cookie.
    pub key: Identifier,
    /// The data of the cookie.
    pub payload: PrefixedArray<Byte>,
}

impl View for StoreCookie {
    type V = (Seq<char>, Seq<u8>);

    open spec fn view(&self) -> Self::V {
        (self.key@, self.payload@)
    }
}

impl Packet for StoreCookie {
    open spec fn spec_packet_id() -> u8 {
        0x0a
    }

    fn packet_id() -> (id: u8) {
        0x0a
    }

    open spec fn spec_parse(s: Seq<u8>) -> Result<(Self::V, nat), ProtocolError> {
        <(Identifier, PrefixedArray<Byte>)>::spec_parse(s)
    }

    open spec fn spec_panics(s: Seq<u8>) -> bool {
        <(Identifier, PrefixedArray<Byte>)>::spec_panics(s)
    }

    open spec fn spec_serialize(v: Self::V) -> Seq<u8> {
        <(Identifier, PrefixedArray<Byte>)>::spec_serialize(v)
    }

    open spec fn spec_writable(v: Self::V) -> bool {
        <(Identifier, PrefixedArray<Byte>)>::spec_writable(v)
    }

    open spec fn spec_wf(v: Self::V) -> bool {
        <(Identifier, PrefixedArray<Byte>)>::spec_wf(v)
    }

    proof fn lemma_roundtrip(v: Self::V) {
        <(Identifier, PrefixedArray<Byte>)>::lemma_wf_writable(v);
        <(Identifier, PrefixedArray<Byte>)>::lemma_roundtrip(v, Seq::empty());
        assert(Self::spec_serialize(v) + Seq::<u8>::empty() =~= Self::spec_serialize(v));
    }

    fn read(reader: &mut Reader<'_>) -> (res: Result<Self, ProtocolError>) {
        let (key, payload) = <(Identifier, PrefixedArray<Byte>)>::read(reader)?;
        Ok(Self { key, payload })
    }

    fn write(&self, writer: &mut Vec<u8>) -> (res: Result<(), ProtocolError>) {
        writer.push(Self::packet_id());
        self.key.write(writer)?;
        self.payload.write(writer)?;
        assert(writer@ =~= old(writer)@ + seq![Self::spec_packet_id()] + Self::spec_serialize(self@));
        Ok(())
    }

    fn is_writable(&self) -> (b: bool) {
        self.key.is_writable() && self.payload.is_writable()
    }

    fn read_panics(reader: &Reader<'_>) -> (b: bool) {
        <(Identifier, PrefixedArray<Byte>)>::read_panics(reader)
    }
}

/// Notifies the client that it should transfer to the given server. Cookies previously stored
/// are preserved between server transfers.
#[derive(Debug)]
pub struct Transfer {
    /// The hostname or IP of the server.
    pub host: String,
    /// The port of the server.
    pub port: VarInt,
}

impl View for Transfer {
    type V = (Seq<char>, i32);

    open spec fn view(&self) -> Self::V {
        (self.host@, self.port@)
    }
}

impl Packet for Transfer {
    open spec fn spec_packet_id() -> u8 {
        0x0b
    }

    fn packet_id() -> (id: u8) {
        0x0b
    }

    open spec fn spec_parse(s: Seq<u8>) -> Result<(Self::V, nat), ProtocolError> {
        <(String, VarInt)>::spec_parse(s)
    }

    open spec fn spec_panics(s: Seq<u8>) -> bool {
        <(String, VarInt)>::spec_panics(s)
    }

    open spec fn spec_serialize(v: Self::V) -> Seq<u8> {
        <(String, VarInt)>::spec_serialize(v)
    }

    open spec fn spec_writable(v: Self::V) -> bool {
        <(String, VarInt)>::spec_writable(v)
    }

    open spec fn spec_wf(v: Self::V) -> bool {
        <(String, VarInt)>::spec_wf(v)
    }

    proof fn lemma_roundtrip(v: Self::V) {
        <(String, VarInt)>::lemma_wf_writable(v);
        <(String, VarInt)>::lemma_roundtrip(v, Seq::empty());
        assert(Self::spec_serialize(v) + Seq::<u8>::empty() =~= Self::spec_serialize(v));
    }

    fn read(reader: &mut Reader<'_>) -> (res: Result<Self, ProtocolError>) {
        let (host, port) = <(String, VarInt)>::read(reader)?;
        Ok(Self { host, port })
    }

    fn write(&self, writer: &mut Vec<u8>) -> (res: Result<(), ProtocolError>) {
        writer.push(Self::packet_id());
        self.host.write(writer)?;
        self.port.write(writer)?;
        assert(writer@ =~= old(writer)@ + seq![Self::spec_packet_id()] + Self::spec_serialize(self@));
        Ok(())
    }

    fn is_writable(&self) -> (b: bool) {
        self.host.is_writable() && self.port.is_writable()
    }

    fn read_panics(reader: &Reader<'_>) -> (b: bool) {
        <(String, VarInt)>::read_panics(reader)
    }
}

/// Used to enable and disable features, generally experimental ones, on the client.
#[derive(Debug)]
pub struct FeatureFlags {
    pub feature_flags: PrefixedArray<Identifier>,
}

impl View for FeatureFlags {
    type V = Seq<Seq<char>>;

    open spec fn view(&self) -> Self::V {
        self.feature_flags@
    }
}

impl Packet for FeatureFlags {
    open spec fn spec_packet_id() -> u8 {
        0x0c
    }

    fn packet_id() -> (id: u8) {
        0x0c
    }

    open spec fn spec_parse(s: Seq<u8>) -> Result<(Self::V, nat), ProtocolError> {
        <PrefixedArray<Identifier>>::spec_parse(s)
    }

    open spec fn spec_panics(s: Seq<u8>) -> bool {
        <PrefixedArray<Identifier>>::spec_panics(s)
    }

    open spec fn spec_serialize(v: Self::V) -> Seq<u8> {
        <PrefixedArray<Identifier>>::spec_serialize(v)
    }

    open spec fn spec_writable(v: Self::V) -> bool {
        <PrefixedArray<Identifier>>::spec_writable(v)
    }

    open spec fn spec_wf(v: Self::V) -> bool {
        <PrefixedArray<Identifier>>::spec_wf(v)
    }

    proof fn lemma_roundtrip(v: Self::V) {
        <PrefixedArray<Identifier>>::lemma_wf_writable(v);
        <PrefixedArray<Identifier>>::lemma_roundtrip(v, Seq::empty());
        assert(Self::spec_serialize(v) + Seq::<u8>::empty() =~= Self::spec_serialize(v));
    }

    fn read(reader: &mut Reader<'_>) -> (res: Result<Self, ProtocolError>) {
        let feature_flags = <PrefixedArray<Identifier>>::read(reader)?;
        Ok(Self { feature_flags })
    }

    fn write(&self, writer: &mut Vec<u8>) -> (res: Result<(), ProtocolError>) {
        writer.push(Self::packet_id());
        self.feature_flags.write(writer)?;
        assert(writer@ =~= old(writer)@ + seq![Self::spec_packet_id()] + Self::spec_serialize(self@));
        Ok(())
    }

    fn is_writable(&self) -> (b: bool) {
        self.feature_flags.is_writable()
    }

    fn read_panics(reader: &Reader<'_>) -> (b: bool) {
        <PrefixedArray<Identifier>>::read_panics(reader)
    }
}

/// Sends the registries' tags: for each registry, tag names and the ids they hold.
#[derive(Debug)]
pub struct UpdateTags {
    pub tags: PrefixedArray<(Identifier, PrefixedArray<(Identifier, PrefixedArray<VarInt>)>)>,
}

impl View for UpdateTags {
    type V = Seq<(Seq<char>, Seq<(Seq<char>, Seq<i32>)>)>;

    open spec fn view(&self) -> Self::V {
        self.tags@
    }
}

impl Packet for UpdateTags {
    open spec fn spec_packet_id() -> u8 {
        0x0d
    }

    fn packet_id() -> (id: u8) {
        0x0d
    }

    open spec fn spec_parse(s: Seq<u8>) -> Result<(Self::V, nat), ProtocolError> {
        <PrefixedArray<(Identifier, PrefixedArray<(Identifier, PrefixedArray<VarInt>)>)>>::spec_parse(s)
    }

    open spec fn spec_panics(s: Seq<u8>) -> bool {
        <PrefixedArray<(Identifier, PrefixedArray<(Identifier, PrefixedArray<VarInt>)>)>>::spec_panics(s)
    }

    open spec fn spec_serialize(v: Self::V) -> Seq<u8> {
        <PrefixedArray<(Identifier, PrefixedArray<(Identifier, PrefixedArray<VarInt>)>)>>::spec_serialize(v)
    }

    open spec fn spec_writable(v: Self::V) -> bool {
        <PrefixedArray<(Identifier, PrefixedArray<(Identifier, PrefixedArray<VarInt>)>)>>::spec_writable(v)
    }

    open spec fn spec_wf(v: Self::V) -> bool {
        <PrefixedArray<(Identifier, PrefixedArray<(Identifier, PrefixedArray<VarInt>)>)>>::spec_wf(v)
    }

    proof fn lemma_roundtrip(v: Self::V) {
        <PrefixedArray<(Identifier, PrefixedArray<(Identifier, PrefixedArray<VarInt>)>)>>::lemma_wf_writable(v);
        <PrefixedArray<(Identifier, PrefixedArray<(Identifier, PrefixedArray<VarInt>)>)>>::lemma_roundtrip(v, Seq::empty());
        assert(Self::spec_serialize(v) + Seq::<u8>::empty() =~= Self::spec_serialize(v));
    }

    fn read(reader: &mut Reader<'_>) -> (res: Result<Self, ProtocolError>) {
        let tags = <PrefixedArray<(Identifier, PrefixedArray<(Identifier, PrefixedArray<VarInt>)>)>>::read(reader)?;
        Ok(Self { tags })
    }

    fn write(&self, writer: &mut Vec<u8>) -> (res: Result<(), ProtocolError>) {
        writer.push(Self::packet_id());
        self.tags.write(writer)?;
        assert(writer@ =~= old(writer)@ + seq![Self::spec_packet_id()] + Self::spec_serialize(self@));
        Ok(())
    }

    fn is_writable(&self) -> (b: bool) {
        self.tags.is_writable()
    }

    fn read_panics(reader: &Reader<'_>) -> (b: bool) {
        <PrefixedArray<(Identifier, PrefixedArray<(Identifier, PrefixedArray<VarInt>)>)>>::read_panics(reader)
    }
}

/// Informs the client of which data packs are present on the server. The client is expected to
/// respond with its own Serverbound Known Packs packet. The vanilla server does not continue
/// with Configuration until it receives a response.
///
/// The vanilla client requires the minecraft:core pack with version 1.21.8 for a normal
/// login sequence. This packet must be sent before the Registry Data packets.
#[derive(Debug)]
pub struct S2CKnownPacks {
    pub known_packs: PrefixedArray<(String, String, String)>,
}

impl View for S2CKnownPacks {
    type V = Seq<(Seq<char>, Seq<char>, Seq<char>)>;

    open spec fn view(&self) -> Self::V {
        self.known_packs@
    }
}

impl Packet for S2CKnownPacks {
    open spec fn spec_packet_id() -> u8 {
        0x0e
    }

    fn packet_id() -> (id: u8) {
        0x0e
    }

    open spec fn spec_parse(s: Seq<u8>) -> Result<(Self::V, nat), ProtocolError> {
        <PrefixedArray<(String, String, String)>>::spec_parse(s)
    }

    open spec fn spec_panics(s: Seq<u8>) -> bool {
        <PrefixedArray<(String, String, String)>>::spec_panics(s)
    }

    open spec fn spec_serialize(v: Self::V) -> Seq<u8> {
        <PrefixedArray<(String, String, String)>>::spec_serialize(v)
    }

    open spec fn spec_writable(v: Self::V) -> bool {
        <PrefixedArray<(String, String, String)>>::spec_writable(v)
    }

    open spec fn spec_wf(v: Self::V) -> bool {
        <PrefixedArray<(String, String, String)>>::spec_wf(v)
    }

    proof fn lemma_roundtrip(v: Self::V) {
        <PrefixedArray<(String, String, String)>>::lemma_wf_writable(v);
        <PrefixedArray<(String, String, String)>>::lemma_roundtrip(v, Seq::empty());
        assert(Self::spec_serialize(v) + Seq::<u8>::empty() =~= Self::spec_serialize(v));
    }

    fn read(reader: &mut Reader<'_>) -> (res: Result<Self, ProtocolError>) {
        let known_packs = <PrefixedArray<(String, String, String)>>::read(reader)?;
        Ok(Self { known_packs })
    }

    fn write(&self, writer: &mut Vec<u8>) -> (res: Result<(), ProtocolError>) {
        writer.push(Self::packet_id());
        self.known_packs.write(writer)?;
        assert(writer@ =~= old(writer)@ + seq![Self::spec_packet_id()] + Self::spec_serialize(self@));
        Ok(())
    }

    fn is_writable(&self) -> (b: bool) {
        self.known_packs.is_writable()
    }

    fn read_panics(reader: &Reader<'_>) -> (b: bool) {
        <PrefixedArray<(String, String, String)>>::read_panics(reader)
    }
}

/// Contains a list of key-value text entries that are included in any crash or disconnection
/// report generated during connection to the server.
#[derive(Debug)]
pub struct CustomReportDetails {
    pub details: PrefixedArray<(String, String)>,
}

impl View for CustomReportDetails {
    type V = Seq<(Seq<char>, Seq<char>)>;

    open spec fn view(&self) -> Self::V {
        self.details@
    }
}

impl Packet for CustomReportDetails {
    open spec fn spec_packet_id() -> u8 {
        0x0f
    }

    fn packet_id() -> (id: u8) {
        0x0f
    }

    open spec fn spec_parse(s: Seq<u8>) -> Result<(Self::V, nat), ProtocolError> {
        <PrefixedArray<(String, String)>>::spec_parse(s)
    }

    open spec fn spec_panics(s: Seq<u8>) -> bool {
        <PrefixedArray<(String, String)>>::spec_panics(s)
    }

    open spec fn spec_serialize(v: Self::V) -> Seq<u8> {
        <PrefixedArray<(String, String)>>::spec_serialize(v)
    }

    open spec fn spec_writable(v: Self::V) -> bool {
        <PrefixedArray<(String, String)>>::spec_writable(v)
    }

    open spec fn spec_wf(v: Self::V) -> bool {
        <PrefixedArray<(String, String)>>::spec_wf(v)
    }

    proof fn lemma_roundtrip(v: Self::V) {
        <PrefixedArray<(String, String)>>::lemma_wf_writable(v);
        <PrefixedArray<(String, String)>>::lemma_roundtrip(v, Seq::empty());
        assert(Self::spec_serialize(v) + Seq::<u8>::empty() =~= Self::spec_serialize(v));
    }

    fn read(reader: &mut Reader<'_>) -> (res: Result<Self, ProtocolError>) {
        let details = <PrefixedArray<(String, String)>>::read(reader)?;
        Ok(Self { details })
    }

    fn write(&self, writer: &mut Vec<u8>) -> (res: Result<(), ProtocolError>) {
        writer.push(Self::packet_id());
        self.details.write(writer)?;
        assert(writer@ =~= old(writer)@ + seq![Self::spec_packet_id()] + Self::spec_serialize(self@));
        Ok(())
    }

    fn is_writable(&self) -> (b: bool) {
        self.details.is_writable()
    }

    fn read_panics(reader: &Reader<'_>) -> (b: bool) {
        <PrefixedArray<(String, String)>>::read_panics(reader)
    }
}

/// If we're currently in a dialog screen, then this removes the current screen
/// and switches back to the previous one.
#[derive(Debug)]
pub struct ClearDialog {}

impl View for ClearDialog {
    type V = ();

    open spec fn view(&self) -> () {
        ()
    }
}

impl Packet for ClearDialog {
    open spec fn spec_packet_id() -> u8 {
        0x11
    }

    fn packet_id() -> (id: u8) {
        0x11
    }

    open spec fn spec_parse(s: Seq<u8>) -> Result<((), nat), ProtocolError> {
        Ok(((), 0))
    }

    open spec fn spec_panics(s: Seq<u8>) -> bool {
        false
    }

    open spec fn spec_serialize(v: ()) -> Seq<u8> {
        Seq::empty()
    }

    open spec fn spec_writable(v: ()) -> bool {
        true
    }

    open spec fn spec_wf(v: ()) -> bool {
        true
    }

    proof fn lemma_roundtrip(v: ()) {
    }

    fn read(reader: &mut Reader<'_>) -> (res: Result<Self, ProtocolError>) {
        Ok(Self {})
    }

    fn write(&self, writer: &mut Vec<u8>) -> (res: Result<(), ProtocolError>) {
        writer.push(Self::packet_id());
        assert(writer@ =~= old(writer)@ + seq![Self::spec_packet_id()] + Seq::<u8>::empty());
        Ok(())
    }

    fn is_writable(&self) -> (b: bool) {
        true
    }

    fn read_panics(reader: &Reader<'_>) -> (b: bool) {
        false
    }
}

/// Sent when the player connects, or when settings are changed.
#[derive(Debug)]
pub struct ClientInformation {
    /// e.g. en_GB.
    pub locale: String,
    /// Client-side render distance, in chunks.
    pub view_distance: Byte,
    /// 0: enabled, 1: commands only, 2: hidden. See Chat#Client chat mode for more information.
    pub chat_mode: VarInt,
    /// “Colors” multiplayer setting. The vanilla server stores this value but does nothing
    /// with it (see MC-64867). Some third-party servers disable all coloring in chat and
    /// system messages when it is false.
    pub chat_colors: Boolean,
    /// Bit mask.
    pub displayed_skin_parts: Byte,
    /// 0: Left, 1: Right.
    pub main_hand: VarInt,
    /// Enables filtering of text on signs and written book titles. The vanilla client sets this
    /// according to the profanityFilterPreferences.profanityFilterOn account attribute
    /// indicated by the /player/attributes Mojang API endpoint. In offline mode, it is always false.
    pub enable_text_filtering: Boolean,
    /// Servers usually list online players; this option should let you not show up in that list.
    pub allow_server_listings: Boolean,
    /// 0: all, 1: decreased, 2: minimal
    pub particle_status: VarInt,
}

impl View for ClientInformation {
    type V = (Seq<char>, (u8, (i32, (bool, (u8, (i32, (bool, (bool, i32))))))));

    open spec fn view(&self) -> Self::V {
        (self.locale@, (self.view_distance@, (self.chat_mode@, (self.chat_colors@, (self.displayed_skin_parts@, (self.main_hand@, (self.enable_text_filtering@, (self.allow_server_listings@, self.particle_status@))))))))
    }
}

impl Packet for ClientInformation {
    open spec fn spec_packet_id() -> u8 {
        0x00
    }

    fn packet_id() -> (id: u8) {
        0x00
    }

    open spec fn spec_parse(s: Seq<u8>) -> Result<(Self::V, nat), ProtocolError> {
        <(String, (Byte, (VarInt, (Boolean, (Byte, (VarInt, (Boolean, (Boolean, VarInt))))))))>::spec_parse(s)
    }

    open spec fn spec_panics(s: Seq<u8>) -> bool {
        <(String, (Byte, (VarInt, (Boolean, (Byte, (VarInt, (Boolean, (Boolean, VarInt))))))))>::spec_panics(s)
    }

    open spec fn spec_serialize(v: Self::V) -> Seq<u8> {
        <(String, (Byte, (VarInt, (Boolean, (Byte, (VarInt, (Boolean, (Boolean, VarInt))))))))>::spec_serialize(v)
    }

    open spec fn spec_writable(v: Self::V) -> bool {
        <(String, (Byte, (VarInt, (Boolean, (Byte, (VarInt, (Boolean, (Boolean, VarInt))))))))>::spec_writable(v)
    }

    open spec fn spec_wf(v: Self::V) -> bool {
        <(String, (Byte, (VarInt, (Boolean, (Byte, (VarInt, (Boolean, (Boolean, VarInt))))))))>::spec_wf(v)
    }

    proof fn lemma_roundtrip(v: Self::V) {
        <(String, (Byte, (VarInt, (Boolean, (Byte, (VarInt, (Boolean, (Boolean, VarInt))))))))>::lemma_wf_writable(v);
        <(String, (Byte, (VarInt, (Boolean, (Byte, (VarInt, (Boolean, (Boolean, VarInt))))))))>::lemma_roundtrip(v, Seq::empty());
        assert(Self::spec_serialize(v) + Seq::<u8>::empty() =~= Self::spec_serialize(v));
    }

    fn read(reader: &mut Reader<'_>) -> (res: Result<Self, ProtocolError>) {
        let (locale, (view_distance, (chat_mode, (chat_colors, (displayed_skin_parts, (main_hand, (enable_text_filtering, (allow_server_listings, particle_status)))))))) = <(String, (Byte, (VarInt, (Boolean, (Byte, (VarInt, (Boolean, (Boolean, VarInt))))))))>::read(reader)?;
        Ok(Self { locale, view_distance, chat_mode, chat_colors, displayed_skin_parts, main_hand, enable_text_filtering, allow_server_listings, particle_status })
    }

    #[verifier::rlimit(50)]
    fn write(&self, writer: &mut Vec<u8>) -> (res: Result<(), ProtocolError>) {
        writer.push(Self::packet_id());
        self.locale.write(writer)?;
        self.view_distance.write(writer)?;
        self.chat_mode.write(writer)?;
        self.chat_colors.write(writer)?;
        self.displayed_skin_parts.write(writer)?;
        self.main_hand.write(writer)?;
        self.enable_text_filtering.write(writer)?;
        self.allow_server_listings.write(writer)?;
        self.particle_status.write(writer)?;
        assert(writer@ =~= old(writer)@ + seq![Self::spec_packet_id()] + Self::spec_serialize(self@));
        Ok(())
    }

    fn is_writable(&self) -> (b: bool) {
        self.locale.is_writable() && self.view_distance.is_writable() && self.chat_mode.is_writable() && self.chat_colors.is_writable() && self.displayed_skin_parts.is_writable() && self.main_hand.is_writable() && self.enable_text_filtering.is_writable() && self.allow_server_listings.is_writable() && self.particle_status.is_writable()
    }

    fn read_panics(reader: &Reader<'_>) -> (b: bool) {
        <(String, (Byte, (VarInt, (Boolean, (Byte, (VarInt, (Boolean, (Boolean, VarInt))))))))>::read_panics(reader)
    }
}

/// Response to a Cookie Request (configuration) from the server. The vanilla server only accepts
/// responses of up to 5 kiB in size.
#[derive(Debug)]
pub struct CookieResponse {
    /// The identifier of the cookie.
    pub key: Identifier,
    /// The data of the cookie.
    pub payload: PrefixedOptional<PrefixedArray<Byte>>,
}

impl View for CookieResponse {
    type V = (Seq<char>, Option<Seq<u8>>);

    open spec fn view(&self) -> Self::V {
        (self.key@, self.payload@)
    }
}

impl Packet for CookieResponse {
    open spec fn spec_packet_id() -> u8 {
        0x01
    }

    fn packet_id() -> (id: u8) {
        0x01
    }

    open spec fn spec_parse(s: Seq<u8>) -> Result<(Self::V, nat), ProtocolError> {
        <(Identifier, PrefixedOptional<PrefixedArray<Byte>>)>::spec_parse(s)
    }

    open spec fn spec_panics(s: Seq<u8>) -> bool {
        <(Identifier, PrefixedOptional<PrefixedArray<Byte>>)>::spec_panics(s)
    }

    open spec fn spec_serialize(v: Self::V) -> Seq<u8> {
        <(Identifier, PrefixedOptional<PrefixedArray<Byte>>)>::spec_serialize(v)
    }

    open spec fn spec_writable(v: Self::V) -> bool {
        <(Identifier, PrefixedOptional<PrefixedArray<Byte>>)>::spec_writable(v)
    }

    open spec fn spec_wf(v: Self::V) -> bool {
        <(Identifier, PrefixedOptional<PrefixedArray<Byte>>)>::spec_wf(v)
    }

    proof fn lemma_roundtrip(v: Self::V) {
        <(Identifier, PrefixedOptional<PrefixedArray<Byte>>)>::lemma_wf_writable(v);
        <(Identifier, PrefixedOptional<PrefixedArray<Byte>>)>::lemma_roundtrip(v, Seq::empty());
        assert(Self::spec_serialize(v) + Seq::<u8>::empty() =~= Self::spec_serialize(v));
    }

    fn read(reader: &mut Reader<'_>) -> (res: Result<Self, ProtocolError>) {
        let (key, payload) = <(Identifier, PrefixedOptional<PrefixedArray<Byte>>)>::read(reader)?;
        Ok(Self { key, payload })
    }

    fn write(&self, writer: &mut Vec<u8>) -> (res: Result<(), ProtocolError>) {
        writer.push(Self::packet_id());
        self.key.write(writer)?;
        self.payload.write(writer)?;
        assert(writer@ =~= old(writer)@ + seq![Self::spec_packet_id()] + Self::spec_serialize(self@));
        Ok(())
    }

    fn is_writable(&self) -> (b: bool) {
        self.key.is_writable() && self.payload.is_writable()
    }

    fn read_panics(reader: &Reader<'_>) -> (b: bool) {
        <(Identifier, PrefixedOptional<PrefixedArray<Byte>>)>::read_panics(reader)
    }
}

/// Mods and plugins can use this to send their data. Minecraft itself uses some plugin channels.
/// These internal channels are in the minecraft namespace.
///
/// Note that the length of Data is known only from the packet length, since the packet has
/// no length field of any kind.
#[derive(Debug)]
pub struct C2SPluginMessage {
    /// Name of the plugin channel used to send the data.
    pub channel: Identifier,
    /// Any data, depending on the channel. minecraft: channels are documented in wiki.
    /// The length of this array must be inferred from the packet length.
    pub data: ByteArray,
}

impl View for C2SPluginMessage {
    type V = (Seq<char>, Seq<u8>);

    open spec fn view(&self) -> Self::V {
        (self.channel@, self.data@)
    }
}

impl Packet for C2SPluginMessage {
    open spec fn spec_packet_id() -> u8 {
        0x02
    }

    fn packet_id() -> (id: u8) {
        0x02
    }

    open spec fn spec_parse(s: Seq<u8>) -> Result<(Self::V, nat), ProtocolError> {
        <(Identifier, ByteArray)>::spec_parse(s)
    }

    open spec fn spec_panics(s: Seq<u8>) -> bool {
        <(Identifier, ByteArray)>::spec_panics(s)
    }

    open spec fn spec_serialize(v: Self::V) -> Seq<u8> {
        <(Identifier, ByteArray)>::spec_serialize(v)
    }

    open spec fn spec_writable(v: Self::V) -> bool {
        <(Identifier, ByteArray)>::spec_writable(v)
    }

    open spec fn spec_wf(v: Self::V) -> bool {
        <(Identifier, ByteArray)>::spec_wf(v)
    }

    proof fn lemma_roundtrip(v: Self::V) {
        <(Identifier, ByteArray)>::lemma_wf_writable(v);
        <(Identifier, ByteArray)>::lemma_roundtrip(v, Seq::empty());
        assert(Self::spec_serialize(v) + Seq::<u8>::empty() =~= Self::spec_serialize(v));
    }

    fn read(reader: &mut Reader<'_>) -> (res: Result<Self, ProtocolError>) {
        let (channel, data) = <(Identifier, ByteArray)>::read(reader)?;
        Ok(Self { channel, data })
    }

    fn write(&self, writer: &mut Vec<u8>) -> (res: Result<(), ProtocolError>) {
        writer.push(Self::packet_id());
        self.channel.write(writer)?;
        self.data.write(writer)?;
        assert(writer@ =~= old(writer)@ + seq![Self::spec_packet_id()] + Self::spec_serialize(self@));
        Ok(())
    }

    fn is_writable(&self) -> (b: bool) {
        self.channel.is_writable() && self.data.is_writable()
    }

    fn read_panics(reader: &Reader<'_>) -> (b: bool) {
        <(Identifier, ByteArray)>::read_panics(reader)
    }
}

/// Sent by the client to notify the server that the configuration process has finished.
/// It is sent in response to the server's Finish Configuration.
///
/// This packet switches the connection state to play.
#[derive(Debug)]
pub struct AcknowledgeFinishConfiguration {}

impl View for AcknowledgeFinishConfiguration {
    type V = ();

    open spec fn view(&self) -> () {
        ()
    }
}

impl Packet for AcknowledgeFinishConfiguration {
    open spec fn spec_packet_id() -> u8 {
        0x03
    }

    fn packet_id() -> (id: u8) {
        0x03
    }

    open spec fn spec_parse(s: Seq<u8>) -> Result<((), nat), ProtocolError> {
        Ok(((), 0))
    }

    open spec fn spec_panics(s: Seq<u8>) -> bool {
        false
    }

    open spec fn spec_serialize(v: ()) -> Seq<u8> {
        Seq::empty()
    }

    open spec fn spec_writable(v: ()) -> bool {
        true
    }

    open spec fn spec_wf(v: ()) -> bool {
        true
    }

    proof fn lemma_roundtrip(v: ()) {
    }

    fn read(reader: &mut Reader<'_>) -> (res: Result<Self, ProtocolError>) {
        Ok(Self {})
    }

    fn write(&self, writer: &mut Vec<u8>) -> (res: Result<(), ProtocolError>) {
        writer.push(Self::packet_id());
        assert(writer@ =~= old(writer)@ + seq![Self::spec_packet_id()] + Seq::<u8>::empty());
        Ok(())
    }

    fn is_writable(&self) -> (b: bool) {
        true
    }

    fn read_panics(reader: &Reader<'_>) -> (b: bool) {
        false
    }
}

/// The server will frequently send out a keep-alive (see Clientbound Keep Alive),
/// each containing a random ID. The client must respond with the same packet.
#[derive(Debug)]
pub struct C2SKeepAlive {
    pub id: Long,
}

impl View for C2SKeepAlive {
    type V = i64;

    open spec fn view(&self) -> Self::V {
        self.id@
    }
}

impl Packet for C2SKeepAlive {
    open spec fn spec_packet_id() -> u8 {
        0x04
    }

    fn packet_id() -> (id: u8) {
        0x04
    }

    open spec fn spec_parse(s: Seq<u8>) -> Result<(Self::V, nat), ProtocolError> {
        <Long>::spec_parse(s)
    }

    open spec fn spec_panics(s: Seq<u8>) -> bool {
        <Long>::spec_panics(s)
    }

    open spec fn spec_serialize(v: Self::V) -> Seq<u8> {
        <Long>::spec_serialize(v)
    }

    open spec fn spec_writable(v: Self::V) -> bool {
        <Long>::spec_writable(v)
    }

    open spec fn spec_wf(v: Self::V) -> bool {
        <Long>::spec_wf(v)
    }

    proof fn lemma_roundtrip(v: Self::V) {
        <Long>::lemma_wf_writable(v);
        <Long>::lemma_roundtrip(v, Seq::empty());
        assert(Self::spec_serialize(v) + Seq::<u8>::empty() =~= Self::spec_serialize(v));
    }

    fn read(reader: &mut Reader<'_>) -> (res: Result<Self, ProtocolError>) {
        let id = <Long>::read(reader)?;
        Ok(Self { id })
    }

    fn write(&self, writer: &mut Vec<u8>) -> (res: Result<(), ProtocolError>) {
        writer.push(Self::packet_id());
        self.id.write(writer)?;
        assert(writer@ =~= old(writer)@ + seq![Self::spec_packet_id()] + Self::spec_serialize(self@));
        Ok(())
    }

    fn is_writable(&self) -> (b: bool) {
        self.id.is_writable()
    }

    fn read_panics(reader: &Reader<'_>) -> (b: bool) {
        <Long>::read_panics(reader)
    }
}

/// Response to the clientbound packet (Ping) with the same id.
#[derive(Debug)]
pub struct Pong {
    pub id: Int,
}

impl View for Pong {
    type V = i32;

    open spec fn view(&self) -> Self::V {
        self.id@
    }
}

impl Packet for Pong {
    open spec fn spec_packet_id() -> u8 {
        0x05
    }

    fn packet_id() -> (id: u8) {
        0x05
    }

    open spec fn spec_parse(s: Seq<u8>) -> Result<(Self::V, nat), ProtocolError> {
        <Int>::spec_parse(s)
    }

    open spec fn spec_panics(s: Seq<u8>) -> bool {
        <Int>::spec_panics(s)
    }

    open spec fn spec_serialize(v: Self::V) -> Seq<u8> {
        <Int>::spec_serialize(v)
    }

    open spec fn spec_writable(v: Self::V) -> bool {
        <Int>::spec_writable(v)
    }

    open spec fn spec_wf(v: Self::V) -> bool {
        <Int>::spec_wf(v)
    }

    proof fn lemma_roundtrip(v: Self::V) {
        <Int>::lemma_wf_writable(v);
        <Int>::lemma_roundtrip(v, Seq::empty());
        assert(Self::spec_serialize(v) + Seq::<u8>::empty() =~= Self::spec_serialize(v));
    }

    fn read(reader: &mut Reader<'_>) -> (res: Result<Self, ProtocolError>) {
        let id = <Int>::read(reader)?;
        Ok(Self { id })
    }

    fn write(&self, writer: &mut Vec<u8>) -> (res: Result<(), ProtocolError>) {
        writer.push(Self::packet_id());
        self.id.write(writer)?;
        assert(writer@ =~= old(writer)@ + seq![Self::spec_packet_id()] + Self::spec_serialize(self@));
        Ok(())
    }

    fn is_writable(&self) -> (b: bool) {
        self.id.is_writable()
    }

    fn read_panics(reader: &Reader<'_>) -> (b: bool) {
        <Int>::read_panics(reader)
    }
}

/// The client's answer to a resource pack.
#[derive(Debug)]
pub struct ResourcePackResponse {
    /// The unique identifier of the resource pack received in the
    /// Add Resource Pack (configuration) request.
    pub uuid: Uuid,
    /// Result ID.
    pub result: VarInt,
}

impl View for ResourcePackResponse {
    type V = (Seq<u8>, i32);

    open spec fn view(&self) -> Self::V {
        (self.uuid@, self.result@)
    }
}

impl Packet for ResourcePackResponse {
    open spec fn spec_packet_id() -> u8 {
        0x06
    }

    fn packet_id() -> (id: u8) {
        0x06
    }

    open spec fn spec_parse(s: Seq<u8>) -> Result<(Self::V, nat), ProtocolError> {
        <(Uuid, VarInt)>::spec_parse(s)
    }

    open spec fn spec_panics(s: Seq<u8>) -> bool {
        <(Uuid, VarInt)>::spec_panics(s)
    }

    open spec fn spec_serialize(v: Self::V) -> Seq<u8> {
        <(Uuid, VarInt)>::spec_serialize(v)
    }

    open spec fn spec_writable(v: Self::V) -> bool {
        <(Uuid, VarInt)>::spec_writable(v)
    }

    open spec fn spec_wf(v: Self::V) -> bool {
        <(Uuid, VarInt)>::spec_wf(v)
    }

    proof fn lemma_roundtrip(v: Self::V) {
        <(Uuid, VarInt)>::lemma_wf_writable(v);
        <(Uuid, VarInt)>::lemma_roundtrip(v, Seq::empty());
        assert(Self::spec_serialize(v) + Seq::<u8>::empty() =~= Self::spec_serialize(v));
    }

    fn read(reader: &mut Reader<'_>) -> (res: Result<Self, ProtocolError>) {
        let (uuid, result) = <(Uuid, VarInt)>::read(reader)?;
        Ok(Self { uuid, result })
    }

    fn write(&self, writer: &mut Vec<u8>) -> (res: Result<(), ProtocolError>) {
        writer.push(Self::packet_id());
        self.uuid.write(writer)?;
        self.result.write(writer)?;
        assert(writer@ =~= old(writer)@ + seq![Self::spec_packet_id()] + Self::spec_serialize(self@));
        Ok(())
    }

    fn is_writable(&self) -> (b: bool) {
        self.uuid.is_writable() && self.result.is_writable()
    }

    fn read_panics(reader: &Reader<'_>) -> (b: bool) {
        <(Uuid, VarInt)>::read_panics(reader)
    }
}

/// Informs the server of which data packs are present on the client. The client sends this
/// in response to Clientbound Known Packs.
///
/// If the client specifies a pack in this packet, the server should omit its contained data
/// from the Registry Data packet.
#[derive(Debug)]
pub struct C2SKnownPacks {
    pub known_packs: PrefixedArray<(String, String, String)>,
}

impl View for C2SKnownPacks {
    type V = Seq<(Seq<char>, Seq<char>, Seq<char>)>;

    open spec fn view(&self) -> Self::V {
        self.known_packs@
    }
}

impl Packet for C2SKnownPacks {
    open spec fn spec_packet_id() -> u8 {
        0x07
    }

    fn packet_id() -> (id: u8) {
        0x07
    }

    open spec fn spec_parse(s: Seq<u8>) -> Result<(Self::V, nat), ProtocolError> {
        <PrefixedArray<(String, String, String)>>::spec_parse(s)
    }

    open spec fn spec_panics(s: Seq<u8>) -> bool {
        <PrefixedArray<(String, String, String)>>::spec_panics(s)
    }

    open spec fn spec_serialize(v: Self::V) -> Seq<u8> {
        <PrefixedArray<(String, String, String)>>::spec_serialize(v)
    }

    open spec fn spec_writable(v: Self::V) -> bool {
        <PrefixedArray<(String, String, String)>>::spec_writable(v)
    }

    open spec fn spec_wf(v: Self::V) -> bool {
        <PrefixedArray<(String, String, String)>>::spec_wf(v)
    }

    proof fn lemma_roundtrip(v: Self::V) {
        <PrefixedArray<(String, String, String)>>::lemma_wf_writable(v);
        <PrefixedArray<(String, String, String)>>::lemma_roundtrip(v, Seq::empty());
        assert(Self::spec_serialize(v) + Seq::<u8>::empty() =~= Self::spec_serialize(v));
    }

    fn read(reader: &mut Reader<'_>) -> (res: Result<Self, ProtocolError>) {
        let known_packs = <PrefixedArray<(String, String, String)>>::read(reader)?;
        Ok(Self { known_packs })
    }

    fn write(&self, writer: &mut Vec<u8>) -> (res: Result<(), ProtocolError>) {
        writer.push(Self::packet_id());
        self.known_packs.write(writer)?;
        assert(writer@ =~= old(writer)@ + seq![Self::spec_packet_id()] + Self::spec_serialize(self@));
        Ok(())
    }

    fn is_writable(&self) -> (b: bool) {
        self.known_packs.is_writable()
    }

    fn read_panics(reader: &Reader<'_>) -> (b: bool) {
        <PrefixedArray<(String, String, String)>>::read_panics(reader)
    }
}

/// Represents certain registries that are sent from the server and are applied on the client.
#[derive(Debug)]
pub struct RegistryData {
    pub registry_id: Identifier,
    pub entries: PrefixedArray<(Identifier, PrefixedOptional<Nbt>)>,
}

impl View for RegistryData {
    type V = (Seq<char>, Seq<(Seq<char>, Option<Seq<u8>>)>);

    open spec fn view(&self) -> Self::V {
        (self.registry_id@, self.entries@)
    }
}

/// The encoding of the entries of a registry, one after the other: each is its
/// identifier, then its optional data.
pub open spec fn registry_entries_serialize(entries: Seq<(Seq<char>, Option<Seq<u8>>)>) -> Seq<u8>
    decreases entries.len(),
{
    if entries.len() == 0 {
        Seq::empty()
    } else {
        registry_entries_serialize(entries.drop_last()) + Identifier::spec_serialize(
            entries.last().0,
        ) + optional_nbt_serialize(entries.last().1)
    }
}

impl RegistryData {
    pub open spec fn spec_packet_id() -> u8 {
        0x07
    }

    pub fn packet_id() -> (id: u8)
        ensures
            id == Self::spec_packet_id(),
    {
        0x07
    }

    /// The fields on the wire: the registry, the number of entries, the entries.
    pub open spec fn spec_serialize(v: (Seq<char>, Seq<(Seq<char>, Option<Seq<u8>>)>)) -> Seq<u8> {
        Identifier::spec_serialize(v.0) + VarInt::spec_serialize(wrap_i32(v.1.len() as int))
            + registry_entries_serialize(v.1)
    }

    /// Writing terminates: every length and count fits a non-negative 32-bit prefix.
    pub open spec fn spec_writable(v: (Seq<char>, Seq<(Seq<char>, Option<Seq<u8>>)>)) -> bool {
        &&& Identifier::spec_writable(v.0)
        &&& wrap_i32(v.1.len() as int) >= 0
        &&& forall|i: int| 0 <= i < v.1.len() ==> Identifier::spec_writable(#[trigger] v.1[i].0)
    }

    pub fn is_writable(&self) -> (b: bool)
        ensures
            b == Self::spec_writable(self@),
    {
        if !self.registry_id.is_writable() || wrap_length(self.entries.0.len()) < 0 {
            return false;
        }
        let mut i: usize = 0;
        while i < self.entries.0.len()
            invariant
                i <= self.entries.0@.len(),
                forall|j: int| 0 <= j < i ==> Identifier::spec_writable(#[trigger] self@.1[j].0),
            decreases self.entries.0.len() - i,
        {
            assert(self@.1[i as int].0 == self.entries.0@[i as int].0@);
            if !self.entries.0[i].0.is_writable() {
                return false;
            }
            i = i + 1;
        }
        true
    }

    /// Writes the id, then the fields.
    pub fn write(&self, writer: &mut Vec<u8>) -> (res: Result<(), ProtocolError>)
        requires
            Self::spec_writable(self@),
        ensures
            res is Ok,
            final(writer)@ == old(writer)@ + seq![Self::spec_packet_id()] + Self::spec_serialize(self@),
    {
        writer.push(Self::packet_id());
        self.registry_id.write(writer)?;
        VarInt(wrap_length(self.entries.0.len())).write(writer)?;
        let ghost start = writer@;
        let mut i: usize = 0;
        while i < self.entries.0.len()
            invariant
                i <= self.entries.0@.len(),
                Self::spec_writable(self@),
                writer@ == start + registry_entries_serialize(self@.1.take(i as int)),
            decreases self.entries.0.len() - i,
        {
            let entry = &self.entries.0[i];
            proof {
                assert(self@.1.take(i + 1).drop_last() =~= self@.1.take(i as int));
                assert(self@.1[i as int] == (entry.0@, entry.1@));
                assert(Identifier::spec_writable(self@.1[i as int].0));
            }
            entry.0.write(writer)?;
            write_optional_nbt(&entry.1.0, writer);
            proof {
                assert(optional_nbt_view(entry.1.0) == entry.1@);
                assert(writer@ =~= start + registry_entries_serialize(self@.1.take(i + 1)));
            }
            i = i + 1;
        }
        assert(self@.1.take(i as int) =~= self@.1);
        assert(writer@ =~= old(writer)@ + seq![Self::spec_packet_id()] + Self::spec_serialize(self@));
        Ok(())
    }
}

#[derive(Debug)]
pub struct AddResourcePack {
    /// The unique identifier of the resource pack.
    pub uuid: Uuid,
    /// The URL to the resource pack.
    pub url: String,
    /// A 40 character hexadecimal, case-insensitive SHA-1 hash of the resource pack file.
    /// If it's not a 40-character hexadecimal string, the client will not use it for hash
    /// verification and likely waste bandwidth.
    pub hash: String,
    /// The vanilla client will be forced to use the resource pack from the server.
    /// If they decline, they will be kicked from the server.
    pub forced: Boolean,
    /// This is shown in the prompt making the client accept or decline the
    /// resource pack (only if present).
    pub prompt_message: PrefixedOptional<Nbt>,
}

impl View for AddResourcePack {
    type V = (Seq<u8>, Seq<char>, Seq<char>, bool, Option<Seq<u8>>);

    open spec fn view(&self) -> Self::V {
        (self.uuid@, self.url@, self.hash@, self.forced@, self.prompt_message@)
    }
}

impl AddResourcePack {
    pub open spec fn spec_packet_id() -> u8 {
        0x09
    }

    pub fn packet_id() -> (id: u8)
        ensures
            id == Self::spec_packet_id(),
    {
        0x09
    }

    /// The fields on the wire, in order.
    pub open spec fn spec_serialize(v: (Seq<u8>, Seq<char>, Seq<char>, bool, Option<Seq<u8>>)) -> Seq<
        u8,
    > {
        Uuid::spec_serialize(v.0) + String::spec_serialize(v.1) + String::spec_serialize(v.2)
            + Boolean::spec_serialize(v.3) + optional_nbt_serialize(v.4)
    }

    /// Writing terminates: both strings fit a non-negative 32-bit length prefix.
    pub open spec fn spec_writable(v: (Seq<u8>, Seq<char>, Seq<char>, bool, Option<Seq<u8>>)) -> bool {
        String::spec_writable(v.1) && String::spec_writable(v.2)
    }

    pub fn is_writable(&self) -> (b: bool)
        ensures
            b == Self::spec_writable(self@),
    {
        self.url.is_writable() && self.hash.is_writable()
    }

    /// Writes the id, then the fields.
    pub fn write(&self, writer: &mut Vec<u8>) -> (res: Result<(), ProtocolError>)
        requires
            Self::spec_writable(self@),
        ensures
            res is Ok,
            final(writer)@ == old(writer)@ + seq![Self::spec_packet_id()] + Self::spec_serialize(self@),
    {
        writer.push(Self::packet_id());
        self.uuid.write(writer)?;
        self.url.write(writer)?;
        self.hash.write(writer)?;
        self.forced.write(writer)?;
        write_optional_nbt(&self.prompt_message.0, writer);
        assert(optional_nbt_view(self.prompt_message.0) == self.prompt_message@);
        assert(writer@ =~= old(writer)@ + seq![Self::spec_packet_id()] + Self::spec_serialize(self@));
        Ok(())
    }
}

/// This packet contains a list of links that the vanilla client will display in the menu
/// available from the pause menu. Link labels can be built-in or custom (i.e., any text).
#[derive(Debug)]
pub struct ServerLinks {
    pub links: PrefixedArray<(Or<VarInt, Nbt>, String)>,
}

impl View for ServerLinks {
    type V = Seq<(Either<i32, Seq<u8>>, Seq<char>)>;

    open spec fn view(&self) -> Self::V {
        self.links@
    }
}

/// The encoding of a link label: a boolean saying which kind, then a built-in
/// label's number or a custom label's text.
pub open spec fn link_label_serialize(label: Either<i32, Seq<u8>>) -> Seq<u8> {
    match label {
        Either::Left(n) => seq![0x01u8] + VarInt::spec_serialize(n),
        Either::Right(text) => seq![0x00u8] + text,
    }
}

/// The encoding of the links, one after the other: each is its label, then its URL.
pub open spec fn links_serialize(links: Seq<(Either<i32, Seq<u8>>, Seq<char>)>) -> Seq<u8>
    decreases links.len(),
{
    if links.len() == 0 {
        Seq::empty()
    } else {
        links_serialize(links.drop_last()) + link_label_serialize(links.last().0)
            + String::spec_serialize(links.last().1)
    }
}

/// Writing a link terminates: a built-in label's number is not negative and the URL
/// fits a non-negative 32-bit length prefix.
pub open spec fn link_writable(link: (Either<i32, Seq<u8>>, Seq<char>)) -> bool {
    &&& (link.0 matches Either::Left(n) ==> n >= 0)
    &&& String::spec_writable(link.1)
}

impl ServerLinks {
    pub open spec fn spec_packet_id() -> u8 {
        0x10
    }

    pub fn packet_id() -> (id: u8)
        ensures
            id == Self::spec_packet_id(),
    {
        0x10
    }

    /// The fields on the wire: the number of links, then the links.
    pub open spec fn spec_serialize(v: Seq<(Either<i32, Seq<u8>>, Seq<char>)>) -> Seq<u8> {
        VarInt::spec_serialize(wrap_i32(v.len() as int)) + links_serialize(v)
    }

    /// Writing terminates: the count and every link can be written.
    pub open spec fn spec_writable(v: Seq<(Either<i32, Seq<u8>>, Seq<char>)>) -> bool {
        &&& wrap_i32(v.len() as int) >= 0
        &&& forall|i: int| 0 <= i < v.len() ==> link_writable(#[trigger] v[i])
    }

    pub fn is_writable(&self) -> (b: bool)
        ensures
            b == Self::spec_writable(self@),
    {
        if wrap_length(self.links.0.len()) < 0 {
            return false;
        }
        let mut i: usize = 0;
        while i < self.links.0.len()
            invariant
                i <= self.links.0@.len(),
                forall|j: int| 0 <= j < i ==> link_writable(#[trigger] self@[j]),
            decreases self.links.0.len() - i,
        {
            let link = &self.links.0[i];
            assert(self@[i as int] == (link.0@, link.1@));
            let label_ok = match &link.0 {
                Or::A(n) => n.0 >= 0,
                Or::B(_) => true,
            };
            if !label_ok || !link.1.is_writable() {
                return false;
            }
            i = i + 1;
        }
        true
    }

    /// Writes the id, then the fields.
    pub fn write(&self, writer: &mut Vec<u8>) -> (res: Result<(), ProtocolError>)
        requires
            Self::spec_writable(self@),
        ensures
            res is Ok,
            final(writer)@ == old(writer)@ + seq![Self::spec_packet_id()] + Self::spec_serialize(self@),
    {
        writer.push(Self::packet_id());
        VarInt(wrap_length(self.links.0.len())).write(writer)?;
        let ghost start = writer@;
        let mut i: usize = 0;
        while i < self.links.0.len()
            invariant
                i <= self.links.0@.len(),
                Self::spec_writable(self@),
                writer@ == start + links_serialize(self@.take(i as int)),
            decreases self.links.0.len() - i,
        {
            let link = &self.links.0[i];
            proof {
                assert(self@.take(i + 1).drop_last() =~= self@.take(i as int));
                assert(self@[i as int] == (link.0@, link.1@));
                assert(link_writable(self@[i as int]));
            }
            let ghost before = writer@;
            match &link.0 {
                Or::A(n) => {
                    let _ = write_u8(writer, 0x01);
                    n.write(writer)?;
                },
                Or::B(text) => {
                    let _ = write_u8(writer, 0x00);
                    text.write(writer);
                },
            }
            assert(writer@ =~= before + link_label_serialize(link.0@));
            link.1.write(writer)?;
            assert(writer@ =~= start + links_serialize(self@.take(i + 1)));
            i = i + 1;
        }
        assert(self@.take(i as int) =~= self@);
        assert(writer@ =~= old(writer)@ + seq![Self::spec_packet_id()] + Self::spec_serialize(self@));
        Ok(())
    }
}

/// Show a custom dialog screen to the client.
#[derive(Debug)]
pub struct ShowDialog {
    /// Inline definition as described at Registry_data#Dialog.
    pub dialog: Nbt,
}

impl View for ShowDialog {
    type V = Seq<u8>;

    open spec fn view(&self) -> Self::V {
        self.dialog@
    }
}

impl ShowDialog {
    pub open spec fn spec_packet_id() -> u8 {
        0x12
    }

    pub fn packet_id() -> (id: u8)
        ensures
            id == Self::spec_packet_id(),
    {
        0x12
    }

    /// Writes the id, then the dialog.
    pub fn write(&self, writer: &mut Vec<u8>) -> (res: Result<(), ProtocolError>)
        ensures
            res is Ok,
            final(writer)@ == old(writer)@ + seq![Self::spec_packet_id()] + self@,
    {
        writer.push(Self::packet_id());
        self.dialog.write(writer);
        assert(writer@ =~= old(writer)@ + seq![Self::spec_packet_id()] + self@);
        Ok(())
    }
}

/// Sent when the client clicks a Text Component with the minecraft:custom click action.
/// This is meant as an alternative to running a command, but it will not have any effect on vanilla servers.
#[derive(Debug)]
pub struct CustomClickAction {
    /// The identifier for the click action.
    pub id: Identifier,
    /// The data to send with the click action. May be a TAG_END (0).
    pub payload: Nbt,
}

impl View for CustomClickAction {
    type V = (Seq<char>, Seq<u8>);

    open spec fn view(&self) -> Self::V {
        (self.id@, self.payload@)
    }
}

/// The NBT decoder `nbt_extent`, given bytes whose view is `rest`, may answer `n`.
#[verifier::opaque]
pub open spec fn extent_answers<F: Fn(&[u8]) -> Option<usize>>(
    nbt_extent: F,
    rest: Seq<u8>,
    n: Option<usize>,
) -> bool {
    exists|b: &[u8]| b@ == rest && #[trigger] nbt_extent.ensures((b,), n)
}

/// What reading the fields of a custom click action gives when the identifier
/// `id` took `k` bytes of `s` and the NBT decoder found a value of `n` bytes in
/// what follows, or none.
pub open spec fn click_action_outcome(
    s: Seq<u8>,
    id: Seq<char>,
    k: nat,
    n: Option<usize>,
    res: Result<(Seq<char>, Seq<u8>), ProtocolError>,
) -> bool {
    match n {
        None => res == Err::<(Seq<char>, Seq<u8>), ProtocolError>(ProtocolError::InvalidNbt),
        Some(len) => if k + len <= s.len() {
            res == Ok::<(Seq<char>, Seq<u8>), ProtocolError>((id, s.subrange(k as int, k + len)))
        } else {
            res == Err::<(Seq<char>, Seq<u8>), ProtocolError>(ProtocolError::UnexpectedEof)
        },
    }
}

/// One way in which reading the fields of a custom click action from the front of
/// `s` can go, when the NBT decoder `nbt_extent` answers `n` for the bytes after
/// the identifier: the identifier's error, or what follows from that answer.
pub open spec fn click_action_step<F: Fn(&[u8]) -> Option<usize>>(
    nbt_extent: F,
    s: Seq<u8>,
    n: Option<usize>,
    res: Result<(Seq<char>, Seq<u8>), ProtocolError>,
) -> bool {
    match Identifier::spec_parse(s) {
        Err(e) => res == Err::<(Seq<char>, Seq<u8>), ProtocolError>(e),
        Ok((id, k)) => extent_answers(nbt_extent, s.skip(k as int), n) && click_action_outcome(
            s,
            id,
            k,
            n,
            res,
        ),
    }
}

/// What reading the fields of a custom click action from the front of `s` gives
/// with the NBT decoder `nbt_extent`, for some answer of the decoder.
pub open spec fn click_action_read<F: Fn(&[u8]) -> Option<usize>>(
    nbt_extent: F,
    s: Seq<u8>,
    res: Result<(Seq<char>, Seq<u8>), ProtocolError>,
) -> bool {
    exists|n: Option<usize>| #[trigger] click_action_step(nbt_extent, s, n, res)
}

/// A custom click action reads back as the fields it was written from, when the
/// NBT decoder answers, for the bytes after the identifier, the length of the
/// value that was written there.
pub proof fn law_click_action_roundtrip<F: Fn(&[u8]) -> Option<usize>>(
    nbt_extent: F,
    v: (Seq<char>, Seq<u8>),
    rest: Seq<u8>,
    res: Result<(Seq<char>, Seq<u8>), ProtocolError>,
)
    requires
        Identifier::spec_wf(v.0),
        v.1.len() <= usize::MAX,
        click_action_step(
            nbt_extent,
            CustomClickAction::spec_serialize(v) + rest,
            Some(v.1.len() as usize),
            res,
        ),
    ensures
        res == Ok::<(Seq<char>, Seq<u8>), ProtocolError>(v),
{
    let id_bytes = Identifier::spec_serialize(v.0);
    let s = CustomClickAction::spec_serialize(v) + rest;
    Identifier::lemma_wf_writable(v.0);
    Identifier::lemma_roundtrip(v.0, v.1 + rest);
    assert(s =~= id_bytes + (v.1 + rest));
    assert(s.subrange(id_bytes.len() as int, (id_bytes.len() + v.1.len()) as int) =~= v.1);
}

/// The model of a result of reading a custom click action.
pub open spec fn click_result_view(res: Result<CustomClickAction, ProtocolError>) -> Result<
    (Seq<char>, Seq<u8>),
    ProtocolError,
> {
    match res {
        Ok(c) => Ok(c@),
        Err(e) => Err(e),
    }
}

impl CustomClickAction {
    pub open spec fn spec_packet_id() -> u8 {
        0x08
    }

    pub fn packet_id() -> (id: u8)
        ensures
            id == Self::spec_packet_id(),
    {
        0x08
    }

    /// The fields on the wire: the identifier, then the NBT value.
    pub open spec fn spec_serialize(v: (Seq<char>, Seq<u8>)) -> Seq<u8> {
        Identifier::spec_serialize(v.0) + v.1
    }

    /// Writes the id, then the fields.
    pub fn write(&self, writer: &mut Vec<u8>) -> (res: Result<(), ProtocolError>)
        requires
            Identifier::spec_writable(self.id@),
        ensures
            res is Ok,
            final(writer)@ == old(writer)@ + seq![Self::spec_packet_id()] + Self::spec_serialize(self@),
    {
        writer.push(Self::packet_id());
        self.id.write(writer)?;
        self.payload.write(writer);
        assert(writer@ =~= old(writer)@ + seq![Self::spec_packet_id()] + Self::spec_serialize(self@));
        Ok(())
    }

    /// Reads the fields: the identifier, then one NBT value, whose length the
    /// decoder `nbt_extent` finds in the bytes that follow the identifier.
    pub fn read<F: Fn(&[u8]) -> Option<usize>>(reader: &mut Reader<'_>, nbt_extent: &F) -> (res:
        Result<Self, ProtocolError>)
        requires
            old(reader).wf(),
            !Identifier::spec_panics(old(reader).remaining()),
            forall|b: &[u8]| #[trigger] nbt_extent.requires((b,)),
        ensures
            final(reader).wf(),
            final(reader).data == old(reader).data,
            click_action_read(*nbt_extent, old(reader).remaining(), click_result_view(res)),
    {
        let ghost s = reader.remaining();
        let ghost start = reader.pos;
        let id = match Identifier::read(reader) {
            Ok(id) => id,
            Err(e) => {
                assert(click_action_step(*nbt_extent, s, None, Err(e)));
                return Err(e);
            },
        };
        let ghost k = (reader.pos - start) as nat;
        proof {
            assert(reader.remaining() =~= s.skip(k as int));
            assert(s == old(reader).remaining());
            assert(Identifier::spec_parse(s) == Ok::<(Seq<char>, nat), ProtocolError>((id@, k)));
        }
        let rest = &reader.data[reader.pos..reader.data.len()];
        assert(rest@ =~= reader.remaining());
        let n = nbt_extent(rest);
        assert(extent_answers(*nbt_extent, s.skip(k as int), n)) by {
            reveal(extent_answers);
        }
        let ghost id_view = id@;
        let res = match n {
            None => Err(ProtocolError::InvalidNbt),
            Some(len) => match Nbt::read(reader, len) {
                Err(e) => Err(e),
                Ok(payload) => {
                    assert(payload@ =~= s.subrange(k as int, k + len));
                    Ok(CustomClickAction { id, payload })
                },
            },
        };
        assert(click_action_outcome(s, id_view, k, n, click_result_view(res)));
        assert(click_action_step(*nbt_extent, s, n, click_result_view(res)));
        res
    }
}

} // verus!
