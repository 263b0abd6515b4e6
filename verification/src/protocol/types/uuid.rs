use crate::protocol::error::ProtocolError;
use crate::protocol::types::{Reader, Type};
use vstd::prelude::*;

verus! {

/// A 128-bit identifier as its sixteen bytes, most significant first.
///
/// Decoding copies as many of the sixteen bytes as the input still holds and
/// leaves the others zero; it never fails.
#[derive(Debug)]
pub struct Uuid(pub [u8; 16]);

impl View for Uuid {
    type V = Seq<u8>;

    open spec fn view(&self) -> Seq<u8> {
        self.0@
    }
}

/// How many bytes decoding a UUID from `s` consumes.
pub open spec fn uuid_taken(s: Seq<u8>) -> nat {
    if s.len() < 16 {
        s.len()
    } else {
        16
    }
}

impl Type for Uuid {
    open spec fn spec_parse(s: Seq<u8>) -> Result<(Seq<u8>, nat), ProtocolError> {
        let k = uuid_taken(s);
        Ok((s.take(k as int) + Seq::new((16 - k) as nat, |i: int| 0u8), k))
    }

    open spec fn spec_panics(s: Seq<u8>) -> bool {
        false
    }

    open spec fn spec_serialize(v: Seq<u8>) -> Seq<u8> {
        v
    }

    open spec fn spec_writable(v: Seq<u8>) -> bool {
        true
    }

    open spec fn spec_wf(v: Seq<u8>) -> bool {
        v.len() == 16
    }

    open spec fn prefix_secure() -> bool {
        true
    }

    proof fn lemma_parse_length(s: Seq<u8>) {
    }

    proof fn lemma_wf_writable(v: Seq<u8>) {
    }

    proof fn lemma_roundtrip(v: Seq<u8>, rest: Seq<u8>) {
        assert((v + rest).take(16) + Seq::new(0, |i: int| 0u8) =~= v);
    }

    fn read(reader: &mut Reader<'_>) -> (res: Result<Self, ProtocolError>) {
        let ghost s = reader.remaining();
        let ghost start = reader.pos;
        let mut bytes: [u8; 16] = [0, 0, 0, 0, 0, 0, 0, 0, 0, 0, 0, 0, 0, 0, 0, 0];
        let mut i: usize = 0;
        while i < 16 && reader.pos < reader.data.len()
            invariant
                reader.wf(),
                reader.data == old(reader).data,
                s == old(reader).remaining(),
                start == old(reader).pos,
                i <= 16,
                reader.pos == start + i,
                forall|j: int| 0 <= j < i ==> bytes@[j] == s[j],
                forall|j: int| i <= j < 16 ==> bytes@[j] == 0,
            decreases 16 - i,
        {
            bytes[i] = reader.data[reader.pos];
            reader.pos = reader.pos + 1;
            i = i + 1;
        }
        let ghost k = uuid_taken(s);
        assert(i == k);
        assert(bytes@ =~= s.take(k as int) + Seq::new((16 - k) as nat, |i: int| 0u8));
        Ok(Uuid(bytes))
    }

    fn write(&self, writer: &mut Vec<u8>) -> (res: Result<(), ProtocolError>) {
        let mut i: usize = 0;
        while i < 16
            invariant
                i <= 16,
                self.0@.len() == 16,
                writer@ =~= old(writer)@ + self.0@.take(i as int),
            decreases 16 - i,
        {
            writer.push(self.0[i]);
            i = i + 1;
        }
        assert(self.0@.take(16) =~= self.0@);
        Ok(())
    }

    fn is_writable(&self) -> (b: bool) {
        true
    }

    fn read_panics(reader: &Reader<'_>) -> (b: bool) {
        false
    }
}

} // verus!
