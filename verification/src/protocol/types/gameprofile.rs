use crate::protocol::error::ProtocolError;
use crate::protocol::types::{PrefixedArray, Property, Reader, String, Type, Uuid};
use vstd::prelude::*;

verus! {

/// A player's profile: identifier, name and properties.
#[derive(Debug)]
pub struct GameProfile {
    pub uuid: Uuid,
    pub username: String,
    pub properties: PrefixedArray<Property>,
}

impl View for GameProfile {
    type V = (Seq<u8>, Seq<char>, Seq<(Seq<char>, Seq<char>, Option<Seq<char>>)>);

    open spec fn view(&self) -> Self::V {
        (self.uuid@, self.username@, self.properties@)
    }
}

impl Type for GameProfile {
    open spec fn spec_parse(s: Seq<u8>) -> Result<(Self::V, nat), ProtocolError> {
        <(Uuid, String, PrefixedArray<Property>)>::spec_parse(s)
    }

    open spec fn spec_panics(s: Seq<u8>) -> bool {
        <(Uuid, String, PrefixedArray<Property>)>::spec_panics(s)
    }

    open spec fn spec_serialize(v: Self::V) -> Seq<u8> {
        <(Uuid, String, PrefixedArray<Property>)>::spec_serialize(v)
    }

    open spec fn spec_writable(v: Self::V) -> bool {
        <(Uuid, String, PrefixedArray<Property>)>::spec_writable(v)
    }

    open spec fn spec_wf(v: Self::V) -> bool {
        <(Uuid, String, PrefixedArray<Property>)>::spec_wf(v)
    }

    open spec fn prefix_secure() -> bool {
        true
    }

    proof fn lemma_parse_length(s: Seq<u8>) {
        <(Uuid, String, PrefixedArray<Property>)>::lemma_parse_length(s);
    }

    proof fn lemma_wf_writable(v: Self::V) {
        <(Uuid, String, PrefixedArray<Property>)>::lemma_wf_writable(v);
    }

    proof fn lemma_roundtrip(v: Self::V, rest: Seq<u8>) {
        <(Uuid, String, PrefixedArray<Property>)>::lemma_roundtrip(v, rest);
    }

    fn read(reader: &mut Reader<'_>) -> (res: Result<Self, ProtocolError>) {
        let (uuid, username, properties) = <(Uuid, String, PrefixedArray<Property>)>::read(reader)?;
        Ok(GameProfile { uuid, username, properties })
    }

    fn write(&self, writer: &mut Vec<u8>) -> (res: Result<(), ProtocolError>) {
        self.uuid.write(writer)?;
        self.username.write(writer)?;
        self.properties.write(writer)?;
        assert(writer@ =~= old(writer)@ + Self::spec_serialize(self@));
        Ok(())
    }

    fn is_writable(&self) -> (b: bool) {
        self.uuid.is_writable() && self.username.is_writable() && self.properties.is_writable()
    }

    fn read_panics(reader: &Reader<'_>) -> (b: bool) {
        <(Uuid, String, PrefixedArray<Property>)>::read_panics(reader)
    }
}

} // verus!
