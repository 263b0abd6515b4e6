use crate::protocol::error::ProtocolError;
use crate::protocol::types::{PrefixedOptional, Reader, String, Type};
use vstd::prelude::*;

verus! {

/// A signed profile property, such as the skin texture of a player.
#[derive(Debug)]
pub struct Property {
    pub name: String,
    pub value: String,
    pub signature: PrefixedOptional<String>,
}

impl View for Property {
    type V = (Seq<char>, Seq<char>, Option<Seq<char>>);

    open spec fn view(&self) -> (Seq<char>, Seq<char>, Option<Seq<char>>) {
        (self.name@, self.value@, self.signature@)
    }
}

impl Type for Property {
    open spec fn spec_parse(s: Seq<u8>) -> Result<(Self::V, nat), ProtocolError> {
        <(String, String, PrefixedOptional<String>)>::spec_parse(s)
    }

    open spec fn spec_panics(s: Seq<u8>) -> bool {
        <(String, String, PrefixedOptional<String>)>::spec_panics(s)
    }

    open spec fn spec_serialize(v: Self::V) -> Seq<u8> {
        <(String, String, PrefixedOptional<String>)>::spec_serialize(v)
    }

    open spec fn spec_writable(v: Self::V) -> bool {
        <(String, String, PrefixedOptional<String>)>::spec_writable(v)
    }

    open spec fn spec_wf(v: Self::V) -> bool {
        <(String, String, PrefixedOptional<String>)>::spec_wf(v)
    }

    open spec fn prefix_secure() -> bool {
        true
    }

    proof fn lemma_parse_length(s: Seq<u8>) {
        <(String, String, PrefixedOptional<String>)>::lemma_parse_length(s);
    }

    proof fn lemma_wf_writable(v: Self::V) {
        <(String, String, PrefixedOptional<String>)>::lemma_wf_writable(v);
    }

    proof fn lemma_roundtrip(v: Self::V, rest: Seq<u8>) {
        <(String, String, PrefixedOptional<String>)>::lemma_roundtrip(v, rest);
    }

    fn read(reader: &mut Reader<'_>) -> (res: Result<Self, ProtocolError>) {
        let (name, value, signature) = <(String, String, PrefixedOptional<String>)>::read(reader)?;
        Ok(Property { name, value, signature })
    }

    fn write(&self, writer: &mut Vec<u8>) -> (res: Result<(), ProtocolError>) {
        self.name.write(writer)?;
        self.value.write(writer)?;
        self.signature.write(writer)?;
        assert(writer@ =~= old(writer)@ + Self::spec_serialize(self@));
        Ok(())
    }

    fn is_writable(&self) -> (b: bool) {
        self.name.is_writable() && self.value.is_writable() && self.signature.is_writable()
    }

    fn read_panics(reader: &Reader<'_>) -> (b: bool) {
        <(String, String, PrefixedOptional<String>)>::read_panics(reader)
    }
}

} // verus!
