use crate::protocol::error::ProtocolError;
use crate::protocol::types::bigendian::{
    be_bytes, be_parse, lemma_be_roundtrip, lemma_be_value_bound, lemma_pow256_values, read_be, write_be,
};
use crate::protocol::types::varint::wrap_i32;
use crate::protocol::types::{Reader, Type};
use vstd::prelude::*;

verus! {

/// A 32-bit signed integer, big-endian two's complement.
#[derive(Debug)]
pub struct Int(i32);

impl View for Int {
    type V = i32;

    closed spec fn view(&self) -> i32 {
        self.0
    }
}

/// The two's-complement bit pattern of a 32-bit value, as a number.
pub open spec fn u32_bits(v: i32) -> nat {
    if v < 0 {
        (v + 0x1_0000_0000) as nat
    } else {
        v as nat
    }
}

impl Type for Int {
    open spec fn spec_parse(s: Seq<u8>) -> Result<(i32, nat), ProtocolError> {
        match be_parse(s, 4) {
            Ok((n, k)) => Ok((wrap_i32(n as int), k)),
            Err(e) => Err(e),
        }
    }

    open spec fn spec_panics(s: Seq<u8>) -> bool {
        false
    }

    open spec fn spec_serialize(v: i32) -> Seq<u8> {
        be_bytes(u32_bits(v), 4)
    }

    open spec fn spec_writable(v: i32) -> bool {
        true
    }

    open spec fn spec_wf(v: i32) -> bool {
        true
    }

    open spec fn prefix_secure() -> bool {
        true
    }

    proof fn lemma_parse_length(s: Seq<u8>) {
    }

    proof fn lemma_wf_writable(v: i32) {
    }

    proof fn lemma_roundtrip(v: i32, rest: Seq<u8>) {
        lemma_pow256_values();
        lemma_be_roundtrip(u32_bits(v), 4);
        assert((be_bytes(u32_bits(v), 4) + rest).take(4) =~= be_bytes(u32_bits(v), 4));
    }

    fn read(reader: &mut Reader<'_>) -> (res: Result<Self, ProtocolError>) {
        let n = read_be(reader, 4)?;
        proof {
            lemma_pow256_values();
            lemma_be_value_bound(old(reader).remaining().take(4));
        }
        let v: i32 = if n >= 0x8000_0000 {
            (n as i64 - 0x1_0000_0000) as i32
        } else {
            n as i32
        };
        Ok(Int(v))
    }

    fn write(&self, writer: &mut Vec<u8>) -> (res: Result<(), ProtocolError>) {
        let bits: u64 = if self.0 < 0 {
            (self.0 as i64 + 0x1_0000_0000) as u64
        } else {
            self.0 as u64
        };
        write_be(writer, bits, 4);
        Ok(())
    }

    fn is_writable(&self) -> (b: bool) {
        true
    }

    fn read_panics(reader: &Reader<'_>) -> (b: bool) {
        false
    }
}

} // verus!
