use crate::protocol::error::ProtocolError;
use crate::protocol::packets::Packet;
use crate::protocol::types::{Long, Reader, String, Type};
use vstd::prelude::*;

verus! {

/// Status response packet with server information
#[derive(Debug)]
pub struct StatusResponse {
    /// Json-formatted string with server information
    pub response: String,
}

impl View for StatusResponse {
    type V = Seq<char>;

    open spec fn view(&self) -> Self::V {
        self.response@
    }
}

impl Packet for StatusResponse {
    open spec fn spec_packet_id() -> u8 {
        0x00
    }

    fn packet_id() -> (id: u8) {
        0x00
    }

    open spec fn spec_parse(s: Seq<u8>) -> Result<(Self::V, nat), ProtocolError> {
        <String>::spec_parse(s)
    }

    open spec fn spec_panics(s: Seq<u8>) -> bool {
        <String>::spec_panics(s)
    }

    open spec fn spec_serialize(v: Self::V) -> Seq<u8> {
        <String>::spec_serialize(v)
    }

    open spec fn spec_writable(v: Self::V) -> bool {
        <String>::spec_writable(v)
    }

    open spec fn spec_wf(v: Self::V) -> bool {
        <String>::spec_wf(v)
    }

    proof fn lemma_roundtrip(v: Self::V) {
        <String>::lemma_wf_writable(v);
        <String>::lemma_roundtrip(v, Seq::empty());
        assert(Self::spec_serialize(v) + Seq::<u8>::empty() =~= Self::spec_serialize(v));
    }

    fn read(reader: &mut Reader<'_>) -> (res: Result<Self, ProtocolError>) {
        let response = <String>::read(reader)?;
        Ok(Self { response })
    }

    fn write(&self, writer: &mut Vec<u8>) -> (res: Result<(), ProtocolError>) {
        writer.push(Self::packet_id());
        self.response.write(writer)?;
        assert(writer@ =~= old(writer)@ + seq![Self::spec_packet_id()] + Self::spec_serialize(self@));
        Ok(())
    }

    fn is_writable(&self) -> (b: bool) {
        self.response.is_writable()
    }

    fn read_panics(reader: &Reader<'_>) -> (b: bool) {
        <String>::read_panics(reader)
    }
}

/// Pong!
#[derive(Debug)]
pub struct PongResponse {
    /// Timestamp, should be identical with PingRequest
    pub timestamp: Long,
}

impl View for PongResponse {
    type V = i64;

    open spec fn view(&self) -> Self::V {
        self.timestamp@
    }
}

impl Packet for PongResponse {
    open spec fn spec_packet_id() -> u8 {
        0x01
    }

    fn packet_id() -> (id: u8) {
        0x01
    }

    open spec fn spec_parse(s: Seq<u8>) -> Result<(Self::V, nat), ProtocolError> {
        <Long>::spec_parse(s)
    }

    open spec fn spec_panics(s: Seq<u8>) -> bool {
        <Long>::spec_panics(s)
    }

    open spec fn spec_serialize(v: Self::V) -> Seq<u8> {
        <Long>::spec_serialize(v)
    }

    open spec fn spec_writable(v: Self::V) -> bool {
        <Long>::spec_writable(v)
    }

    open spec fn spec_wf(v: Self::V) -> bool {
        <Long>::spec_wf(v)
    }

    proof fn lemma_roundtrip(v: Self::V) {
        <Long>::lemma_wf_writable(v);
        <Long>::lemma_roundtrip(v, Seq::empty());
        assert(Self::spec_serialize(v) + Seq::<u8>::empty() =~= Self::spec_serialize(v));
    }

    fn read(reader: &mut Reader<'_>) -> (res: Result<Self, ProtocolError>) {
        let timestamp = <Long>::read(reader)?;
        Ok(Self { timestamp })
    }

    fn write(&self, writer: &mut Vec<u8>) -> (res: Result<(), ProtocolError>) {
        writer.push(Self::packet_id());
        self.timestamp.write(writer)?;
        assert(writer@ =~= old(writer)@ + seq![Self::spec_packet_id()] + Self::spec_serialize(self@));
        Ok(())
    }

    fn is_writable(&self) -> (b: bool) {
        self.timestamp.is_writable()
    }

    fn read_panics(reader: &Reader<'_>) -> (b: bool) {
        <Long>::read_panics(reader)
    }
}

/// Asks for the server's status.
#[derive(Debug)]
pub struct StatusRequest {}

impl View for StatusRequest {
    type V = ();

    open spec fn view(&self) -> () {
        ()
    }
}

impl Packet for StatusRequest {
    open spec fn spec_packet_id() -> u8 {
        0x00
    }

    fn packet_id() -> (id: u8) {
        0x00
    }

    open spec fn spec_parse(s: Seq<u8>) -> Result<((), nat), ProtocolError> {
        Ok(((), 0))
    }

    open spec fn spec_panics(s: Seq<u8>) -> bool {
        false
    }

    open spec fn spec_serialize(v: ()) -> Seq<u8> {
        Seq::empty()
    }

    open spec fn spec_writable(v: ()) -> bool {
        true
    }

    open spec fn spec_wf(v: ()) -> bool {
        true
    }

    proof fn lemma_roundtrip(v: ()) {
    }

    fn read(reader: &mut Reader<'_>) -> (res: Result<Self, ProtocolError>) {
        Ok(Self {})
    }

    fn write(&self, writer: &mut Vec<u8>) -> (res: Result<(), ProtocolError>) {
        writer.push(Self::packet_id());
        assert(writer@ =~= old(writer)@ + seq![Self::spec_packet_id()] + Seq::<u8>::empty());
        Ok(())
    }

    fn is_writable(&self) -> (b: bool) {
        true
    }

    fn read_panics(reader: &Reader<'_>) -> (b: bool) {
        false
    }
}

/// Asks the server to echo a timestamp.
#[derive(Debug)]
pub struct PingRequest {
    pub timestamp: Long,
}

impl View for PingRequest {
    type V = i64;

    open spec fn view(&self) -> Self::V {
        self.timestamp@
    }
}

impl Packet for PingRequest {
    open spec fn spec_packet_id() -> u8 {
        0x01
    }

    fn packet_id() -> (id: u8) {
        0x01
    }

    open spec fn spec_parse(s: Seq<u8>) -> Result<(Self::V, nat), ProtocolError> {
        <Long>::spec_parse(s)
    }

    open spec fn spec_panics(s: Seq<u8>) -> bool {
        <Long>::spec_panics(s)
    }

    open spec fn spec_serialize(v: Self::V) -> Seq<u8> {
        <Long>::spec_serialize(v)
    }

    open spec fn spec_writable(v: Self::V) -> bool {
        <Long>::spec_writable(v)
    }

    open spec fn spec_wf(v: Self::V) -> bool {
        <Long>::spec_wf(v)
    }

    proof fn lemma_roundtrip(v: Self::V) {
        <Long>::lemma_wf_writable(v);
        <Long>::lemma_roundtrip(v, Seq::empty());
        assert(Self::spec_serialize(v) + Seq::<u8>::empty() =~= Self::spec_serialize(v));
    }

    fn read(reader: &mut Reader<'_>) -> (res: Result<Self, ProtocolError>) {
        let timestamp = <Long>::read(reader)?;
        Ok(Self { timestamp })
    }

    fn write(&self, writer: &mut Vec<u8>) -> (res: Result<(), ProtocolError>) {
        writer.push(Self::packet_id());
        self.timestamp.write(writer)?;
        assert(writer@ =~= old(writer)@ + seq![Self::spec_packet_id()] + Self::spec_serialize(self@));
        Ok(())
    }

    fn is_writable(&self) -> (b: bool) {
        self.timestamp.is_writable()
    }

    fn read_panics(reader: &Reader<'_>) -> (b: bool) {
        <Long>::read_panics(reader)
    }
}

} // verus!
