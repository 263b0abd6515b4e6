use crate::protocol::error::ProtocolError;
use crate::protocol::types::{Reader, Type};
use crate::protocol::utils::write_u8;
use vstd::prelude::*;

verus! {

/// A truth value, one byte: `0x01` for true, `0x00` for false.
///
/// Decoding takes any byte other than `0x01` as false, and at the end of the
/// input reads false without consuming anything.
#[derive(Debug)]
pub struct Boolean(pub bool);

impl View for Boolean {
    type V = bool;

    open spec fn view(&self) -> bool {
        self.0
    }
}

impl Type for Boolean {
    open spec fn spec_parse(s: Seq<u8>) -> Result<(bool, nat), ProtocolError> {
        if s.len() == 0 {
            Ok((false, 0))
        } else {
            Ok((s[0] == 0x01, 1))
        }
    }

    open spec fn spec_panics(s: Seq<u8>) -> bool {
        false
    }

    open spec fn spec_serialize(v: bool) -> Seq<u8> {
        if v {
            seq![0x01u8]
        } else {
            seq![0x00u8]
        }
    }

    open spec fn spec_writable(v: bool) -> bool {
        true
    }

    open spec fn spec_wf(v: bool) -> bool {
        true
    }

    open spec fn prefix_secure() -> bool {
        true
    }

    proof fn lemma_parse_length(s: Seq<u8>) {
    }

    proof fn lemma_wf_writable(v: bool) {
    }

    proof fn lemma_roundtrip(v: bool, rest: Seq<u8>) {
    }

    fn read(reader: &mut Reader<'_>) -> (res: Result<Self, ProtocolError>) {
        if reader.pos < reader.data.len() {
            let b = reader.data[reader.pos];
            reader.pos = reader.pos + 1;
            Ok(Boolean(b == 0x01))
        } else {
            Ok(Boolean(false))
        }
    }

    fn write(&self, writer: &mut Vec<u8>) -> (res: Result<(), ProtocolError>) {
        write_u8(
            writer,
            if self.0 {
                0x01
            } else {
                0x00
            },
        )?;
        assert(writer@ =~= old(writer)@ + Self::spec_serialize(self@));
        Ok(())
    }

    fn is_writable(&self) -> (b: bool) {
        true
    }

    fn read_panics(reader: &Reader<'_>) -> (b: bool) {
        false
    }
}

} // verus!
