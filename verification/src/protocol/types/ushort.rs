use crate::protocol::error::ProtocolError;
use crate::protocol::types::bigendian::{
    be_bytes, be_parse, lemma_be_roundtrip, lemma_be_value_bound, lemma_pow256_values, read_be, write_be,
};
use crate::protocol::types::{Reader, Type};
use vstd::prelude::*;

verus! {

/// A 16-bit unsigned integer, big-endian.
#[derive(Debug)]
pub struct UnsignedShort(pub u16);

impl View for UnsignedShort {
    type V = u16;

    open spec fn view(&self) -> u16 {
        self.0
    }
}

impl Type for UnsignedShort {
    open spec fn spec_parse(s: Seq<u8>) -> Result<(u16, nat), ProtocolError> {
        match be_parse(s, 2) {
            Ok((n, k)) => Ok((n as u16, k)),
            Err(e) => Err(e),
        }
    }

    open spec fn spec_panics(s: Seq<u8>) -> bool {
        false
    }

    open spec fn spec_serialize(v: u16) -> Seq<u8> {
        be_bytes(v as nat, 2)
    }

    open spec fn spec_writable(v: u16) -> bool {
        true
    }

    open spec fn spec_wf(v: u16) -> bool {
        true
    }

    open spec fn prefix_secure() -> bool {
        true
    }

    proof fn lemma_parse_length(s: Seq<u8>) {
    }

    proof fn lemma_wf_writable(v: u16) {
    }

    proof fn lemma_roundtrip(v: u16, rest: Seq<u8>) {
        lemma_pow256_values();
        lemma_be_roundtrip(v as nat, 2);
        assert((be_bytes(v as nat, 2) + rest).take(2) =~= be_bytes(v as nat, 2));
    }

    fn read(reader: &mut Reader<'_>) -> (res: Result<Self, ProtocolError>) {
        let v = read_be(reader, 2)?;
        proof {
            lemma_pow256_values();
            lemma_be_value_bound(old(reader).remaining().take(2));
        }
        Ok(UnsignedShort(v as u16))
    }

    fn write(&self, writer: &mut Vec<u8>) -> (res: Result<(), ProtocolError>) {
        write_be(writer, self.0 as u64, 2);
        Ok(())
    }

    fn is_writable(&self) -> (b: bool) {
        true
    }

    fn read_panics(reader: &Reader<'_>) -> (b: bool) {
        false
    }
}

} // verus!
