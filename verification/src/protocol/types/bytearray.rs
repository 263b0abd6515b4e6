use crate::protocol::error::ProtocolError;
use crate::protocol::types::{Reader, Type};
use vstd::prelude::*;

verus! {

/// Raw bytes without a length: decoding takes everything up to the end of the
/// input.
#[derive(Debug)]
pub struct ByteArray(pub Vec<u8>);

impl View for ByteArray {
    type V = Seq<u8>;

    open spec fn view(&self) -> Seq<u8> {
        self.0@
    }
}

impl Type for ByteArray {
    open spec fn spec_parse(s: Seq<u8>) -> Result<(Seq<u8>, nat), ProtocolError> {
        Ok((s, s.len()))
    }

    open spec fn spec_panics(s: Seq<u8>) -> bool {
        false
    }

    open spec fn spec_serialize(v: Seq<u8>) -> Seq<u8> {
        v
    }

    open spec fn spec_writable(v: Seq<u8>) -> bool {
        true
    }

    open spec fn spec_wf(v: Seq<u8>) -> bool {
        true
    }

    open spec fn prefix_secure() -> bool {
        false
    }

    proof fn lemma_parse_length(s: Seq<u8>) {
    }

    proof fn lemma_wf_writable(v: Seq<u8>) {
    }

    proof fn lemma_roundtrip(v: Seq<u8>, rest: Seq<u8>) {
        assert(v + rest =~= v);
    }

    fn read(reader: &mut Reader<'_>) -> (res: Result<Self, ProtocolError>) {
        let mut buffer: Vec<u8> = Vec::new();
        let ghost s = reader.remaining();
        let ghost start = reader.pos;
        while reader.pos < reader.data.len()
            invariant
                reader.wf(),
                reader.data == old(reader).data,
                s == old(reader).remaining(),
                start == old(reader).pos,
                start <= reader.pos,
                buffer@ =~= s.take(reader.pos - start),
            decreases reader.data.len() - reader.pos,
        {
            buffer.push(reader.data[reader.pos]);
            reader.pos = reader.pos + 1;
        }
        assert(s.take(reader.pos - start) =~= s);
        Ok(ByteArray(buffer))
    }

    fn write(&self, writer: &mut Vec<u8>) -> (res: Result<(), ProtocolError>) {
        let mut i: usize = 0;
        while i < self.0.len()
            invariant
                i <= self.0@.len(),
                writer@ =~= old(writer)@ + self.0@.take(i as int),
            decreases self.0.len() - i,
        {
            writer.push(self.0[i]);
            i = i + 1;
        }
        assert(self.0@.take(i as int) =~= self.0@);
        Ok(())
    }

    fn is_writable(&self) -> (b: bool) {
        true
    }

    fn read_panics(reader: &Reader<'_>) -> (b: bool) {
        false
    }
}

} // verus!
