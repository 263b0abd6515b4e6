use crate::protocol::error::ProtocolError;
use crate::protocol::types::{Reader, Type};
use crate::protocol::utils::{read_u8, write_u8};
use vstd::prelude::*;

verus! {

/// A single unsigned byte.
#[derive(Debug)]
pub struct Byte(pub u8);

impl View for Byte {
    type V = u8;

    open spec fn view(&self) -> u8 {
        self.0
    }
}

impl Type for Byte {
    open spec fn spec_parse(s: Seq<u8>) -> Result<(u8, nat), ProtocolError> {
        if s.len() == 0 {
            Err(ProtocolError::UnexpectedEof)
        } else {
            Ok((s[0], 1))
        }
    }

    open spec fn spec_panics(s: Seq<u8>) -> bool {
        false
    }

    open spec fn spec_serialize(v: u8) -> Seq<u8> {
        seq![v]
    }

    open spec fn spec_writable(v: u8) -> bool {
        true
    }

    open spec fn spec_wf(v: u8) -> bool {
        true
    }

    open spec fn prefix_secure() -> bool {
        true
    }

    proof fn lemma_parse_length(s: Seq<u8>) {
    }

    proof fn lemma_wf_writable(v: u8) {
    }

    proof fn lemma_roundtrip(v: u8, rest: Seq<u8>) {
    }

    fn read(reader: &mut Reader<'_>) -> (res: Result<Self, ProtocolError>) {
        let b = read_u8(reader)?;
        Ok(Self(b))
    }

    fn write(&self, writer: &mut Vec<u8>) -> (res: Result<(), ProtocolError>) {
        write_u8(writer, self.0)?;
        assert(writer@ =~= old(writer)@ + seq![self.0]);
        Ok(())
    }

    fn is_writable(&self) -> (b: bool) {
        true
    }

    fn read_panics(reader: &Reader<'_>) -> (b: bool) {
        false
    }
}

} // verus!
