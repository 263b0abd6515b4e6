use crate::protocol::error::ProtocolError;
use crate::protocol::types::bigendian::{
    be_bytes, be_parse, lemma_be_roundtrip, lemma_be_value_bound, lemma_pow256_values, read_be, write_be,
};
use crate::protocol::types::{Reader, Type};
use vstd::prelude::*;

verus! {

/// A 64-bit signed integer, big-endian two's complement.
#[derive(Debug)]
pub struct Long(i64);

impl View for Long {
    type V = i64;

    closed spec fn view(&self) -> i64 {
        self.0
    }
}

/// The 64-bit two's-complement value of a number below `2^64`.
pub open spec fn wrap_i64(n: nat) -> i64 {
    if n >= 0x8000_0000_0000_0000 {
        (n - 0x1_0000_0000_0000_0000) as i64
    } else {
        n as i64
    }
}

/// The two's-complement bit pattern of a 64-bit value, as a number.
pub open spec fn u64_bits(v: i64) -> nat {
    if v < 0 {
        (v + 0x1_0000_0000_0000_0000) as nat
    } else {
        v as nat
    }
}

impl Type for Long {
    open spec fn spec_parse(s: Seq<u8>) -> Result<(i64, nat), ProtocolError> {
        match be_parse(s, 8) {
            Ok((n, k)) => Ok((wrap_i64(n), k)),
            Err(e) => Err(e),
        }
    }

    open spec fn spec_panics(s: Seq<u8>) -> bool {
        false
    }

    open spec fn spec_serialize(v: i64) -> Seq<u8> {
        be_bytes(u64_bits(v), 8)
    }

    open spec fn spec_writable(v: i64) -> bool {
        true
    }

    open spec fn spec_wf(v: i64) -> bool {
        true
    }

    open spec fn prefix_secure() -> bool {
        true
    }

    proof fn lemma_parse_length(s: Seq<u8>) {
    }

    proof fn lemma_wf_writable(v: i64) {
    }

    proof fn lemma_roundtrip(v: i64, rest: Seq<u8>) {
        lemma_pow256_values();
        lemma_be_roundtrip(u64_bits(v), 8);
        assert((be_bytes(u64_bits(v), 8) + rest).take(8) =~= be_bytes(u64_bits(v), 8));
    }

    fn read(reader: &mut Reader<'_>) -> (res: Result<Self, ProtocolError>) {
        let n = read_be(reader, 8)?;
        let v: i64 = if n >= 0x8000_0000_0000_0000 {
            (n as i128 - 0x1_0000_0000_0000_0000) as i64
        } else {
            n as i64
        };
        Ok(Long(v))
    }

    fn write(&self, writer: &mut Vec<u8>) -> (res: Result<(), ProtocolError>) {
        let bits: u64 = if self.0 < 0 {
            (self.0 as i128 + 0x1_0000_0000_0000_0000) as u64
        } else {
            self.0 as u64
        };
        write_be(writer, bits, 8);
        Ok(())
    }

    fn is_writable(&self) -> (b: bool) {
        true
    }

    fn read_panics(reader: &Reader<'_>) -> (b: bool) {
        false
    }
}

} // verus!
