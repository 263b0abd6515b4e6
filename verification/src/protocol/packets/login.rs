use crate::protocol::error::ProtocolError;
use crate::protocol::packets::Packet;
use crate::protocol::types::{
    Boolean, Byte, ByteArray, GameProfile, Identifier, PrefixedArray, PrefixedOptional, Reader,
    String, Type, Uuid, VarInt,
};
use vstd::prelude::*;

verus! {

/// Ends the login with a reason, a JSON text component.
#[derive(Debug)]
pub struct DisconnectClient {
    pub reason: String,
}

impl View for DisconnectClient {
    type V = Seq<char>;

    open spec fn view(&self) -> Self::V {
        self.reason@
    }
}

impl Packet for DisconnectClient {
    open spec fn spec_packet_id() -> u8 {
        0x00
    }

    fn packet_id() -> (id: u8) {
        0x00
    }

    open spec fn spec_parse(s: Seq<u8>) -> Result<(Self::V, nat), ProtocolError> {
        <String>::spec_parse(s)
    }

    open spec fn spec_panics(s: Seq<u8>) -> bool {
        <String>::spec_panics(s)
    }

    open spec fn spec_serialize(v: Self::V) -> Seq<u8> {
        <String>::spec_serialize(v)
    }

    open spec fn spec_writable(v: Self::V) -> bool {
        <String>::spec_writable(v)
    }

    open spec fn spec_wf(v: Self::V) -> bool {
        <String>::spec_wf(v)
    }

    proof fn lemma_roundtrip(v: Self::V) {
        <String>::lemma_wf_writable(v);
        <String>::lemma_roundtrip(v, Seq::empty());
        assert(Self::spec_serialize(v) + Seq::<u8>::empty() =~= Self::spec_serialize(v));
    }

    fn read(reader: &mut Reader<'_>) -> (res: Result<Self, ProtocolError>) {
        let reason = <String>::read(reader)?;
        Ok(Self { reason })
    }

    fn write(&self, writer: &mut Vec<u8>) -> (res: Result<(), ProtocolError>) {
        writer.push(Self::packet_id());
        self.reason.write(writer)?;
        assert(writer@ =~= old(writer)@ + seq![Self::spec_packet_id()] + Self::spec_serialize(self@));
        Ok(())
    }

    fn is_writable(&self) -> (b: bool) {
        self.reason.is_writable()
    }

    fn read_panics(reader: &Reader<'_>) -> (b: bool) {
        <String>::read_panics(reader)
    }
}

/// Asks the client to start encryption with the server's public key.
#[derive(Debug)]
pub struct EncryptionRequest {
    pub server_id: String,
    pub public_key: PrefixedArray<Byte>,
    pub verify_token: PrefixedArray<Byte>,
    pub should_authenticate: Boolean,
}

impl View for EncryptionRequest {
    type V = (Seq<char>, (Seq<u8>, (Seq<u8>, bool)));

    open spec fn view(&self) -> Self::V {
        (self.server_id@, (self.public_key@, (self.verify_token@, self.should_authenticate@)))
    }
}

impl Packet for EncryptionRequest {
    open spec fn spec_packet_id() -> u8 {
        0x01
    }

    fn packet_id() -> (id: u8) {
        0x01
    }

    open spec fn spec_parse(s: Seq<u8>) -> Result<(Self::V, nat), ProtocolError> {
        <(String, (PrefixedArray<Byte>, (PrefixedArray<Byte>, Boolean)))>::spec_parse(s)
    }

    open spec fn spec_panics(s: Seq<u8>) -> bool {
        <(String, (PrefixedArray<Byte>, (PrefixedArray<Byte>, Boolean)))>::spec_panics(s)
    }

    open spec fn spec_serialize(v: Self::V) -> Seq<u8> {
        <(String, (PrefixedArray<Byte>, (PrefixedArray<Byte>, Boolean)))>::spec_serialize(v)
    }

    open spec fn spec_writable(v: Self::V) -> bool {
        <(String, (PrefixedArray<Byte>, (PrefixedArray<Byte>, Boolean)))>::spec_writable(v)
    }

    open spec fn spec_wf(v: Self::V) -> bool {
        <(String, (PrefixedArray<Byte>, (PrefixedArray<Byte>, Boolean)))>::spec_wf(v)
    }

    proof fn lemma_roundtrip(v: Self::V) {
        <(String, (PrefixedArray<Byte>, (PrefixedArray<Byte>, Boolean)))>::lemma_wf_writable(v);
        <(String, (PrefixedArray<Byte>, (PrefixedArray<Byte>, Boolean)))>::lemma_roundtrip(v, Seq::empty());
        assert(Self::spec_serialize(v) + Seq::<u8>::empty() =~= Self::spec_serialize(v));
    }

    fn read(reader: &mut Reader<'_>) -> (res: Result<Self, ProtocolError>) {
        let (server_id, (public_key, (verify_token, should_authenticate))) = <(String, (PrefixedArray<Byte>, (PrefixedArray<Byte>, Boolean)))>::read(reader)?;
        Ok(Self { server_id, public_key, verify_token, should_authenticate })
    }

    fn write(&self, writer: &mut Vec<u8>) -> (res: Result<(), ProtocolError>) {
        writer.push(Self::packet_id());
        self.server_id.write(writer)?;
        self.public_key.write(writer)?;
        self.verify_token.write(writer)?;
        self.should_authenticate.write(writer)?;
        assert(writer@ =~= old(writer)@ + seq![Self::spec_packet_id()] + Self::spec_serialize(self@));
        Ok(())
    }

    fn is_writable(&self) -> (b: bool) {
        self.server_id.is_writable() && self.public_key.is_writable() && self.verify_token.is_writable() && self.should_authenticate.is_writable()
    }

    fn read_panics(reader: &Reader<'_>) -> (b: bool) {
        <(String, (PrefixedArray<Byte>, (PrefixedArray<Byte>, Boolean)))>::read_panics(reader)
    }
}

/// Accepts the login, with the player's profile.
#[derive(Debug)]
pub struct LoginSuccess {
    pub profile: GameProfile,
}

impl View for LoginSuccess {
    type V = (Seq<u8>, Seq<char>, Seq<(Seq<char>, Seq<char>, Option<Seq<char>>)>);

    open spec fn view(&self) -> Self::V {
        self.profile@
    }
}

impl Packet for LoginSuccess {
    open spec fn spec_packet_id() -> u8 {
        0x02
    }

    fn packet_id() -> (id: u8) {
        0x02
    }

    open spec fn spec_parse(s: Seq<u8>) -> Result<(Self::V, nat), ProtocolError> {
        <GameProfile>::spec_parse(s)
    }

    open spec fn spec_panics(s: Seq<u8>) -> bool {
        <GameProfile>::spec_panics(s)
    }

    open spec fn spec_serialize(v: Self::V) -> Seq<u8> {
        <GameProfile>::spec_serialize(v)
    }

    open spec fn spec_writable(v: Self::V) -> bool {
        <GameProfile>::spec_writable(v)
    }

    open spec fn spec_wf(v: Self::V) -> bool {
        <GameProfile>::spec_wf(v)
    }

    proof fn lemma_roundtrip(v: Self::V) {
        <GameProfile>::lemma_wf_writable(v);
        <GameProfile>::lemma_roundtrip(v, Seq::empty());
        assert(Self::spec_serialize(v) + Seq::<u8>::empty() =~= Self::spec_serialize(v));
    }

    fn read(reader: &mut Reader<'_>) -> (res: Result<Self, ProtocolError>) {
        let profile = <GameProfile>::read(reader)?;
        Ok(Self { profile })
    }

    fn write(&self, writer: &mut Vec<u8>) -> (res: Result<(), ProtocolError>) {
        writer.push(Self::packet_id());
        self.profile.write(writer)?;
        assert(writer@ =~= old(writer)@ + seq![Self::spec_packet_id()] + Self::spec_serialize(self@));
        Ok(())
    }

    fn is_writable(&self) -> (b: bool) {
        self.profile.is_writable()
    }

    fn read_panics(reader: &Reader<'_>) -> (b: bool) {
        <GameProfile>::read_panics(reader)
    }
}

/// Sets the size from which packets are compressed.
#[derive(Debug)]
pub struct SetCompression {
    pub threshold: VarInt,
}

impl View for SetCompression {
    type V = i32;

    open spec fn view(&self) -> Self::V {
        self.threshold@
    }
}

impl Packet for SetCompression {
    open spec fn spec_packet_id() -> u8 {
        0x03
    }

    fn packet_id() -> (id: u8) {
        0x03
    }

    open spec fn spec_parse(s: Seq<u8>) -> Result<(Self::V, nat), ProtocolError> {
        <VarInt>::spec_parse(s)
    }

    open spec fn spec_panics(s: Seq<u8>) -> bool {
        <VarInt>::spec_panics(s)
    }

    open spec fn spec_serialize(v: Self::V) -> Seq<u8> {
        <VarInt>::spec_serialize(v)
    }

    open spec fn spec_writable(v: Self::V) -> bool {
        <VarInt>::spec_writable(v)
    }

    open spec fn spec_wf(v: Self::V) -> bool {
        <VarInt>::spec_wf(v)
    }

    proof fn lemma_roundtrip(v: Self::V) {
        <VarInt>::lemma_wf_writable(v);
        <VarInt>::lemma_roundtrip(v, Seq::empty());
        assert(Self::spec_serialize(v) + Seq::<u8>::empty() =~= Self::spec_serialize(v));
    }

    fn read(reader: &mut Reader<'_>) -> (res: Result<Self, ProtocolError>) {
        let threshold = <VarInt>::read(reader)?;
        Ok(Self { threshold })
    }

    fn write(&self, writer: &mut Vec<u8>) -> (res: Result<(), ProtocolError>) {
        writer.push(Self::packet_id());
        self.threshold.write(writer)?;
        assert(writer@ =~= old(writer)@ + seq![Self::spec_packet_id()] + Self::spec_serialize(self@));
        Ok(())
    }

    fn is_writable(&self) -> (b: bool) {
        self.threshold.is_writable()
    }

    fn read_panics(reader: &Reader<'_>) -> (b: bool) {
        <VarInt>::read_panics(reader)
    }
}

/// A message on a plugin channel during login.
#[derive(Debug)]
pub struct LoginPluginRequest {
    pub message_id: VarInt,
    pub channel: Identifier,
    pub data: ByteArray,
}

impl View for LoginPluginRequest {
    type V = (i32, (Seq<char>, Seq<u8>));

    open spec fn view(&self) -> Self::V {
        (self.message_id@, (self.channel@, self.data@))
    }
}

impl Packet for LoginPluginRequest {
    open spec fn spec_packet_id() -> u8 {
        0x04
    }

    fn packet_id() -> (id: u8) {
        0x04
    }

    open spec fn spec_parse(s: Seq<u8>) -> Result<(Self::V, nat), ProtocolError> {
        <(VarInt, (Identifier, ByteArray))>::spec_parse(s)
    }

    open spec fn spec_panics(s: Seq<u8>) -> bool {
        <(VarInt, (Identifier, ByteArray))>::spec_panics(s)
    }

    open spec fn spec_serialize(v: Self::V) -> Seq<u8> {
        <(VarInt, (Identifier, ByteArray))>::spec_serialize(v)
    }

    open spec fn spec_writable(v: Self::V) -> bool {
        <(VarInt, (Identifier, ByteArray))>::spec_writable(v)
    }

    open spec fn spec_wf(v: Self::V) -> bool {
        <(VarInt, (Identifier, ByteArray))>::spec_wf(v)
    }

    proof fn lemma_roundtrip(v: Self::V) {
        <(VarInt, (Identifier, ByteArray))>::lemma_wf_writable(v);
        <(VarInt, (Identifier, ByteArray))>::lemma_roundtrip(v, Seq::empty());
        assert(Self::spec_serialize(v) + Seq::<u8>::empty() =~= Self::spec_serialize(v));
    }

    fn read(reader: &mut Reader<'_>) -> (res: Result<Self, ProtocolError>) {
        let (message_id, (channel, data)) = <(VarInt, (Identifier, ByteArray))>::read(reader)?;
        Ok(Self { message_id, channel, data })
    }

    fn write(&self, writer: &mut Vec<u8>) -> (res: Result<(), ProtocolError>) {
        writer.push(Self::packet_id());
        self.message_id.write(writer)?;
        self.channel.write(writer)?;
        self.data.write(writer)?;
        assert(writer@ =~= old(writer)@ + seq![Self::spec_packet_id()] + Self::spec_serialize(self@));
        Ok(())
    }

    fn is_writable(&self) -> (b: bool) {
        self.message_id.is_writable() && self.channel.is_writable() && self.data.is_writable()
    }

    fn read_panics(reader: &Reader<'_>) -> (b: bool) {
        <(VarInt, (Identifier, ByteArray))>::read_panics(reader)
    }
}

/// Requests a cookie that was previously stored.
#[derive(Debug)]
pub struct CookieRequest {
    pub key: Identifier,
}

impl View for CookieRequest {
    type V = Seq<char>;

    open spec fn view(&self) -> Self::V {
        self.key@
    }
}

impl Packet for CookieRequest {
    open spec fn spec_packet_id() -> u8 {
        0x05
    }

    fn packet_id() -> (id: u8) {
        0x05
    }

    open spec fn spec_parse(s: Seq<u8>) -> Result<(Self::V, nat), ProtocolError> {
        <Identifier>::spec_parse(s)
    }

    open spec fn spec_panics(s: Seq<u8>) -> bool {
        <Identifier>::spec_panics(s)
    }

    open spec fn spec_serialize(v: Self::V) -> Seq<u8> {
        <Identifier>::spec_serialize(v)
    }

    open spec fn spec_writable(v: Self::V) -> bool {
        <Identifier>::spec_writable(v)
    }

    open spec fn spec_wf(v: Self::V) -> bool {
        <Identifier>::spec_wf(v)
    }

    proof fn lemma_roundtrip(v: Self::V) {
        <Identifier>::lemma_wf_writable(v);
        <Identifier>::lemma_roundtrip(v, Seq::empty());
        assert(Self::spec_serialize(v) + Seq::<u8>::empty() =~= Self::spec_serialize(v));
    }

    fn read(reader: &mut Reader<'_>) -> (res: Result<Self, ProtocolError>) {
        let key = <Identifier>::read(reader)?;
        Ok(Self { key })
    }

    fn write(&self, writer: &mut Vec<u8>) -> (res: Result<(), ProtocolError>) {
        writer.push(Self::packet_id());
        self.key.write(writer)?;
        assert(writer@ =~= old(writer)@ + seq![Self::spec_packet_id()] + Self::spec_serialize(self@));
        Ok(())
    }

    fn is_writable(&self) -> (b: bool) {
        self.key.is_writable()
    }

    fn read_panics(reader: &Reader<'_>) -> (b: bool) {
        <Identifier>::read_panics(reader)
    }
}

/// Starts the login with the player's name and identifier.
#[derive(Debug)]
pub struct LoginStart {
    pub name: String,
    pub uuid: Uuid,
}

impl View for LoginStart {
    type V = (Seq<char>, Seq<u8>);

    open spec fn view(&self) -> Self::V {
        (self.name@, self.uuid@)
    }
}

impl Packet for LoginStart {
    open spec fn spec_packet_id() -> u8 {
        0x00
    }

    fn packet_id() -> (id: u8) {
        0x00
    }

    open spec fn spec_parse(s: Seq<u8>) -> Result<(Self::V, nat), ProtocolError> {
        <(String, Uuid)>::spec_parse(s)
    }

    open spec fn spec_panics(s: Seq<u8>) -> bool {
        <(String, Uuid)>::spec_panics(s)
    }

    open spec fn spec_serialize(v: Self::V) -> Seq<u8> {
        <(String, Uuid)>::spec_serialize(v)
    }

    open spec fn spec_writable(v: Self::V) -> bool {
        <(String, Uuid)>::spec_writable(v)
    }

    open spec fn spec_wf(v: Self::V) -> bool {
        <(String, Uuid)>::spec_wf(v)
    }

    proof fn lemma_roundtrip(v: Self::V) {
        <(String, Uuid)>::lemma_wf_writable(v);
        <(String, Uuid)>::lemma_roundtrip(v, Seq::empty());
        assert(Self::spec_serialize(v) + Seq::<u8>::empty() =~= Self::spec_serialize(v));
    }

    fn read(reader: &mut Reader<'_>) -> (res: Result<Self, ProtocolError>) {
        let (name, uuid) = <(String, Uuid)>::read(reader)?;
        Ok(Self { name, uuid })
    }

    fn write(&self, writer: &mut Vec<u8>) -> (res: Result<(), ProtocolError>) {
        writer.push(Self::packet_id());
        self.name.write(writer)?;
        self.uuid.write(writer)?;
        assert(writer@ =~= old(writer)@ + seq![Self::spec_packet_id()] + Self::spec_serialize(self@));
        Ok(())
    }

    fn is_writable(&self) -> (b: bool) {
        self.name.is_writable() && self.uuid.is_writable()
    }

    fn read_panics(reader: &Reader<'_>) -> (b: bool) {
        <(String, Uuid)>::read_panics(reader)
    }
}

/// The shared secret and the verify token, both encrypted with the server's
/// public key.
#[derive(Debug)]
pub struct EncryptionResponse {
    pub shared_secret: PrefixedArray<Byte>,
    pub verify_token: PrefixedArray<Byte>,
}

impl View for EncryptionResponse {
    type V = (Seq<u8>, Seq<u8>);

    open spec fn view(&self) -> Self::V {
        (self.shared_secret@, self.verify_token@)
    }
}

impl Packet for EncryptionResponse {
    open spec fn spec_packet_id() -> u8 {
        0x01
    }

    fn packet_id() -> (id: u8) {
        0x01
    }

    open spec fn spec_parse(s: Seq<u8>) -> Result<(Self::V, nat), ProtocolError> {
        <(PrefixedArray<Byte>, PrefixedArray<Byte>)>::spec_parse(s)
    }

    open spec fn spec_panics(s: Seq<u8>) -> bool {
        <(PrefixedArray<Byte>, PrefixedArray<Byte>)>::spec_panics(s)
    }

    open spec fn spec_serialize(v: Self::V) -> Seq<u8> {
        <(PrefixedArray<Byte>, PrefixedArray<Byte>)>::spec_serialize(v)
    }

    open spec fn spec_writable(v: Self::V) -> bool {
        <(PrefixedArray<Byte>, PrefixedArray<Byte>)>::spec_writable(v)
    }

    open spec fn spec_wf(v: Self::V) -> bool {
        <(PrefixedArray<Byte>, PrefixedArray<Byte>)>::spec_wf(v)
    }

    proof fn lemma_roundtrip(v: Self::V) {
        <(PrefixedArray<Byte>, PrefixedArray<Byte>)>::lemma_wf_writable(v);
        <(PrefixedArray<Byte>, PrefixedArray<Byte>)>::lemma_roundtrip(v, Seq::empty());
        assert(Self::spec_serialize(v) + Seq::<u8>::empty() =~= Self::spec_serialize(v));
    }

    fn read(reader: &mut Reader<'_>) -> (res: Result<Self, ProtocolError>) {
        let (shared_secret, verify_token) = <(PrefixedArray<Byte>, PrefixedArray<Byte>)>::read(reader)?;
        Ok(Self { shared_secret, verify_token })
    }

    fn write(&self, writer: &mut Vec<u8>) -> (res: Result<(), ProtocolError>) {
        writer.push(Self::packet_id());
        self.shared_secret.write(writer)?;
        self.verify_token.write(writer)?;
        assert(writer@ =~= old(writer)@ + seq![Self::spec_packet_id()] + Self::spec_serialize(self@));
        Ok(())
    }

    fn is_writable(&self) -> (b: bool) {
        self.shared_secret.is_writable() && self.verify_token.is_writable()
    }

    fn read_panics(reader: &Reader<'_>) -> (b: bool) {
        <(PrefixedArray<Byte>, PrefixedArray<Byte>)>::read_panics(reader)
    }
}

/// The answer to a login plugin request.
#[derive(Debug)]
pub struct LoginPluginResponse {
    pub message_id: VarInt,
    pub data: PrefixedOptional<ByteArray>,
}

impl View for LoginPluginResponse {
    type V = (i32, Option<Seq<u8>>);

    open spec fn view(&self) -> Self::V {
        (self.message_id@, self.data@)
    }
}

impl Packet for LoginPluginResponse {
    open spec fn spec_packet_id() -> u8 {
        0x02
    }

    fn packet_id() -> (id: u8) {
        0x02
    }

    open spec fn spec_parse(s: Seq<u8>) -> Result<(Self::V, nat), ProtocolError> {
        <(VarInt, PrefixedOptional<ByteArray>)>::spec_parse(s)
    }

    open spec fn spec_panics(s: Seq<u8>) -> bool {
        <(VarInt, PrefixedOptional<ByteArray>)>::spec_panics(s)
    }

    open spec fn spec_serialize(v: Self::V) -> Seq<u8> {
        <(VarInt, PrefixedOptional<ByteArray>)>::spec_serialize(v)
    }

    open spec fn spec_writable(v: Self::V) -> bool {
        <(VarInt, PrefixedOptional<ByteArray>)>::spec_writable(v)
    }

    open spec fn spec_wf(v: Self::V) -> bool {
        <(VarInt, PrefixedOptional<ByteArray>)>::spec_wf(v)
    }

    proof fn lemma_roundtrip(v: Self::V) {
        <(VarInt, PrefixedOptional<ByteArray>)>::lemma_wf_writable(v);
        <(VarInt, PrefixedOptional<ByteArray>)>::lemma_roundtrip(v, Seq::empty());
        assert(Self::spec_serialize(v) + Seq::<u8>::empty() =~= Self::spec_serialize(v));
    }

    fn read(reader: &mut Reader<'_>) -> (res: Result<Self, ProtocolError>) {
        let (message_id, data) = <(VarInt, PrefixedOptional<ByteArray>)>::read(reader)?;
        Ok(Self { message_id, data })
    }

    fn write(&self, writer: &mut Vec<u8>) -> (res: Result<(), ProtocolError>) {
        writer.push(Self::packet_id());
        self.message_id.write(writer)?;
        self.data.write(writer)?;
        assert(writer@ =~= old(writer)@ + seq![Self::spec_packet_id()] + Self::spec_serialize(self@));
        Ok(())
    }

    fn is_writable(&self) -> (b: bool) {
        self.message_id.is_writable() && self.data.is_writable()
    }

    fn read_panics(reader: &Reader<'_>) -> (b: bool) {
        <(VarInt, PrefixedOptional<ByteArray>)>::read_panics(reader)
    }
}

/// Acknowledges the login success; the connection moves to configuration.
#[derive(Debug)]
pub struct LoginAcknowledged {}

impl View for LoginAcknowledged {
    type V = ();

    open spec fn view(&self) -> () {
        ()
    }
}

impl Packet for LoginAcknowledged {
    open spec fn spec_packet_id() -> u8 {
        0x03
    }

    fn packet_id() -> (id: u8) {
        0x03
    }

    open spec fn spec_parse(s: Seq<u8>) -> Result<((), nat), ProtocolError> {
        Ok(((), 0))
    }

    open spec fn spec_panics(s: Seq<u8>) -> bool {
        false
    }

    open spec fn spec_serialize(v: ()) -> Seq<u8> {
        Seq::empty()
    }

    open spec fn spec_writable(v: ()) -> bool {
        true
    }

    open spec fn spec_wf(v: ()) -> bool {
        true
    }

    proof fn lemma_roundtrip(v: ()) {
    }

    fn read(reader: &mut Reader<'_>) -> (res: Result<Self, ProtocolError>) {
        Ok(Self {})
    }

    fn write(&self, writer: &mut Vec<u8>) -> (res: Result<(), ProtocolError>) {
        writer.push(Self::packet_id());
        assert(writer@ =~= old(writer)@ + seq![Self::spec_packet_id()] + Seq::<u8>::empty());
        Ok(())
    }

    fn is_writable(&self) -> (b: bool) {
        true
    }

    fn read_panics(reader: &Reader<'_>) -> (b: bool) {
        false
    }
}

/// The answer to a cookie request.
#[derive(Debug)]
pub struct CookieResponse {
    pub key: Identifier,
    pub payload: PrefixedOptional<PrefixedArray<Byte>>,
}

impl View for CookieResponse {
    type V = (Seq<char>, Option<Seq<u8>>);

    open spec fn view(&self) -> Self::V {
        (self.key@, self.payload@)
    }
}

impl Packet for CookieResponse {
    open spec fn spec_packet_id() -> u8 {
        0x04
    }

    fn packet_id() -> (id: u8) {
        0x04
    }

    open spec fn spec_parse(s: Seq<u8>) -> Result<(Self::V, nat), ProtocolError> {
        <(Identifier, PrefixedOptional<PrefixedArray<Byte>>)>::spec_parse(s)
    }

    open spec fn spec_panics(s: Seq<u8>) -> bool {
        <(Identifier, PrefixedOptional<PrefixedArray<Byte>>)>::spec_panics(s)
    }

    open spec fn spec_serialize(v: Self::V) -> Seq<u8> {
        <(Identifier, PrefixedOptional<PrefixedArray<Byte>>)>::spec_serialize(v)
    }

    open spec fn spec_writable(v: Self::V) -> bool {
        <(Identifier, PrefixedOptional<PrefixedArray<Byte>>)>::spec_writable(v)
    }

    open spec fn spec_wf(v: Self::V) -> bool {
        <(Identifier, PrefixedOptional<PrefixedArray<Byte>>)>::spec_wf(v)
    }

    proof fn lemma_roundtrip(v: Self::V) {
        <(Identifier, PrefixedOptional<PrefixedArray<Byte>>)>::lemma_wf_writable(v);
        <(Identifier, PrefixedOptional<PrefixedArray<Byte>>)>::lemma_roundtrip(v, Seq::empty());
        assert(Self::spec_serialize(v) + Seq::<u8>::empty() =~= Self::spec_serialize(v));
    }

    fn read(reader: &mut Reader<'_>) -> (res: Result<Self, ProtocolError>) {
        let (key, payload) = <(Identifier, PrefixedOptional<PrefixedArray<Byte>>)>::read(reader)?;
        Ok(Self { key, payload })
    }

    fn write(&self, writer: &mut Vec<u8>) -> (res: Result<(), ProtocolError>) {
        writer.push(Self::packet_id());
        self.key.write(writer)?;
        self.payload.write(writer)?;
        assert(writer@ =~= old(writer)@ + seq![Self::spec_packet_id()] + Self::spec_serialize(self@));
        Ok(())
    }

    fn is_writable(&self) -> (b: bool) {
        self.key.is_writable() && self.payload.is_writable()
    }

    fn read_panics(reader: &Reader<'_>) -> (b: bool) {
        <(Identifier, PrefixedOptional<PrefixedArray<Byte>>)>::read_panics(reader)
    }
}

} // verus!
