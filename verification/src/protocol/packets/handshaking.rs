use crate::protocol::error::ProtocolError;
use crate::protocol::packets::Packet;
use crate::protocol::types::{Reader, String, Type, UnsignedShort, VarInt};
use vstd::prelude::*;

verus! {

/// The first packet a client sends: the protocol it speaks, the address it
/// used, and what it wants next.
#[derive(Debug)]
pub struct Handshake {
    /// Protocol version, 1.20.10 -> 773
    pub protocol_version: VarInt,
    /// Server address
    pub server_address: String,
    /// Server port
    pub server_port: UnsignedShort,
    /// Next intent, 1 -> Status, 2 -> Login
    pub intent: VarInt,
}

impl View for Handshake {
    type V = (i32, (Seq<char>, (u16, i32)));

    open spec fn view(&self) -> Self::V {
        (self.protocol_version@, (self.server_address@, (self.server_port@, self.intent@)))
    }
}

impl Packet for Handshake {
    open spec fn spec_packet_id() -> u8 {
        0x00
    }

    fn packet_id() -> (id: u8) {
        0x00
    }

    open spec fn spec_parse(s: Seq<u8>) -> Result<(Self::V, nat), ProtocolError> {
        <(VarInt, (String, (UnsignedShort, VarInt)))>::spec_parse(s)
    }

    open spec fn spec_panics(s: Seq<u8>) -> bool {
        <(VarInt, (String, (UnsignedShort, VarInt)))>::spec_panics(s)
    }

    open spec fn spec_serialize(v: Self::V) -> Seq<u8> {
        <(VarInt, (String, (UnsignedShort, VarInt)))>::spec_serialize(v)
    }

    open spec fn spec_writable(v: Self::V) -> bool {
        <(VarInt, (String, (UnsignedShort, VarInt)))>::spec_writable(v)
    }

    open spec fn spec_wf(v: Self::V) -> bool {
        <(VarInt, (String, (UnsignedShort, VarInt)))>::spec_wf(v)
    }

    proof fn lemma_roundtrip(v: Self::V) {
        <(VarInt, (String, (UnsignedShort, VarInt)))>::lemma_wf_writable(v);
        <(VarInt, (String, (UnsignedShort, VarInt)))>::lemma_roundtrip(v, Seq::empty());
        assert(Self::spec_serialize(v) + Seq::<u8>::empty() =~= Self::spec_serialize(v));
    }

    fn read(reader: &mut Reader<'_>) -> (res: Result<Self, ProtocolError>) {
        let (protocol_version, (server_address, (server_port, intent))) = <(VarInt, (String, (UnsignedShort, VarInt)))>::read(reader)?;
        Ok(Self { protocol_version, server_address, server_port, intent })
    }

    fn write(&self, writer: &mut Vec<u8>) -> (res: Result<(), ProtocolError>) {
        writer.push(Self::packet_id());
        self.protocol_version.write(writer)?;
        self.server_address.write(writer)?;
        self.server_port.write(writer)?;
        self.intent.write(writer)?;
        assert(writer@ =~= old(writer)@ + seq![Self::spec_packet_id()] + Self::spec_serialize(self@));
        Ok(())
    }

    fn is_writable(&self) -> (b: bool) {
        self.protocol_version.is_writable() && self.server_address.is_writable() && self.server_port.is_writable() && self.intent.is_writable()
    }

    fn read_panics(reader: &Reader<'_>) -> (b: bool) {
        <(VarInt, (String, (UnsignedShort, VarInt)))>::read_panics(reader)
    }
}

} // verus!
