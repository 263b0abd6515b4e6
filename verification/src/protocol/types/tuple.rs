use crate::protocol::error::ProtocolError;
use crate::protocol::types::{Reader, Type};
use vstd::prelude::*;

verus! {

/// Decoding `A` then `B` from the front of `s`.
pub open spec fn pair_parse<A: Type, B: Type>(s: Seq<u8>) -> Result<((A::V, B::V), nat), ProtocolError> {
    match A::spec_parse(s) {
        Err(e) => Err(e),
        Ok((a, n)) => match B::spec_parse(s.skip(n as int)) {
            Err(e) => Err(e),
            Ok((b, m)) => Ok(((a, b), n + m)),
        },
    }
}

pub open spec fn pair_panics<A: Type, B: Type>(s: Seq<u8>) -> bool {
    ||| A::spec_panics(s)
    ||| (A::spec_parse(s) matches Ok((a, n)) && B::spec_panics(s.skip(n as int)))
}

/// Two values one after the other.
impl<A: Type, B: Type> Type for (A, B) {
    open spec fn spec_parse(s: Seq<u8>) -> Result<((A::V, B::V), nat), ProtocolError> {
        pair_parse::<A, B>(s)
    }

    open spec fn spec_panics(s: Seq<u8>) -> bool {
        pair_panics::<A, B>(s)
    }

    open spec fn spec_serialize(v: (A::V, B::V)) -> Seq<u8> {
        A::spec_serialize(v.0) + B::spec_serialize(v.1)
    }

    open spec fn spec_writable(v: (A::V, B::V)) -> bool {
        A::spec_writable(v.0) && B::spec_writable(v.1)
    }

    open spec fn spec_wf(v: (A::V, B::V)) -> bool {
        &&& A::spec_wf(v.0)
        &&& B::spec_wf(v.1)
        &&& A::prefix_secure()
    }

    open spec fn prefix_secure() -> bool {
        A::prefix_secure() && B::prefix_secure()
    }

    proof fn lemma_parse_length(s: Seq<u8>) {
        A::lemma_parse_length(s);
        if let Ok((a, n)) = A::spec_parse(s) {
            B::lemma_parse_length(s.skip(n as int));
            assert(s.skip(n as int).len() == s.len() - n);
            if let Ok((b, m)) = B::spec_parse(s.skip(n as int)) {
                assert(pair_parse::<A, B>(s) == Ok::<((A::V, B::V), nat), ProtocolError>(
                    ((a, b), n + m),
                ));
                assert(n + m <= s.len());
                assert(Self::spec_parse(s) == pair_parse::<A, B>(s));
            }
        }
    }

    proof fn lemma_wf_writable(v: (A::V, B::V)) {
        A::lemma_wf_writable(v.0);
        B::lemma_wf_writable(v.1);
    }

    proof fn lemma_roundtrip(v: (A::V, B::V), rest: Seq<u8>) {
        let sa = A::spec_serialize(v.0);
        let sb = B::spec_serialize(v.1);
        A::lemma_roundtrip(v.0, sb + rest);
        B::lemma_roundtrip(v.1, rest);
        assert(sa + sb + rest =~= sa + (sb + rest));
        assert((sa + (sb + rest)).skip(sa.len() as int) =~= sb + rest);
    }

    fn read(reader: &mut Reader<'_>) -> (res: Result<Self, ProtocolError>) {
        let ghost s = reader.remaining();
        let a = A::read(reader)?;
        proof {
            assert(reader.remaining() =~= s.skip((reader.pos - old(reader).pos) as int));
        }
        let b = B::read(reader)?;
        Ok((a, b))
    }

    fn write(&self, writer: &mut Vec<u8>) -> (res: Result<(), ProtocolError>) {
        self.0.write(writer)?;
        self.1.write(writer)?;
        assert(writer@ =~= old(writer)@ + Self::spec_serialize(self@));
        Ok(())
    }

    fn is_writable(&self) -> (b: bool) {
        self.0.is_writable() && self.1.is_writable()
    }

    fn read_panics(reader: &Reader<'_>) -> (b: bool) {
        if A::read_panics(reader) {
            return true;
        }
        let mut r = reader.fork();
        match A::read(&mut r) {
            Ok(_) => {
                proof {
                    assert(r.remaining() =~= reader.remaining().skip(r.pos - reader.pos));
                }
                B::read_panics(&r)
            },
            Err(_) => false,
        }
    }
}

/// Decoding `A`, `B` then `C` from the front of `s`.
pub open spec fn triple_parse<A: Type, B: Type, C: Type>(s: Seq<u8>) -> Result<
    ((A::V, B::V, C::V), nat),
    ProtocolError,
> {
    match pair_parse::<A, B>(s) {
        Err(e) => Err(e),
        Ok((ab, n)) => match C::spec_parse(s.skip(n as int)) {
            Err(e) => Err(e),
            Ok((c, m)) => Ok(((ab.0, ab.1, c), n + m)),
        },
    }
}

/// Three values one after the other.
impl<A: Type, B: Type, C: Type> Type for (A, B, C) {
    open spec fn spec_parse(s: Seq<u8>) -> Result<((A::V, B::V, C::V), nat), ProtocolError> {
        triple_parse::<A, B, C>(s)
    }

    open spec fn spec_panics(s: Seq<u8>) -> bool {
        ||| pair_panics::<A, B>(s)
        ||| (pair_parse::<A, B>(s) matches Ok((ab, n)) && C::spec_panics(s.skip(n as int)))
    }

    open spec fn spec_serialize(v: (A::V, B::V, C::V)) -> Seq<u8> {
        A::spec_serialize(v.0) + B::spec_serialize(v.1) + C::spec_serialize(v.2)
    }

    open spec fn spec_writable(v: (A::V, B::V, C::V)) -> bool {
        A::spec_writable(v.0) && B::spec_writable(v.1) && C::spec_writable(v.2)
    }

    open spec fn spec_wf(v: (A::V, B::V, C::V)) -> bool {
        &&& A::spec_wf(v.0)
        &&& B::spec_wf(v.1)
        &&& C::spec_wf(v.2)
        &&& A::prefix_secure()
        &&& B::prefix_secure()
    }

    open spec fn prefix_secure() -> bool {
        A::prefix_secure() && B::prefix_secure() && C::prefix_secure()
    }

    proof fn lemma_parse_length(s: Seq<u8>) {
        <(A, B)>::lemma_parse_length(s);
        if let Ok((ab, n)) = pair_parse::<A, B>(s) {
            C::lemma_parse_length(s.skip(n as int));
            assert(s.skip(n as int).len() == s.len() - n);
        }
    }

    proof fn lemma_wf_writable(v: (A::V, B::V, C::V)) {
        A::lemma_wf_writable(v.0);
        B::lemma_wf_writable(v.1);
        C::lemma_wf_writable(v.2);
    }

    proof fn lemma_roundtrip(v: (A::V, B::V, C::V), rest: Seq<u8>) {
        let sa = A::spec_serialize(v.0);
        let sb = B::spec_serialize(v.1);
        let sc = C::spec_serialize(v.2);
        <(A, B)>::lemma_roundtrip((v.0, v.1), sc + rest);
        C::lemma_roundtrip(v.2, rest);
        assert(sa + sb + sc + rest =~= (sa + sb) + (sc + rest));
        assert(((sa + sb) + (sc + rest)).skip((sa + sb).len() as int) =~= sc + rest);
    }

    fn read(reader: &mut Reader<'_>) -> (res: Result<Self, ProtocolError>) {
        let ghost s = reader.remaining();
        let a = A::read(reader)?;
        proof {
            assert(reader.remaining() =~= s.skip((reader.pos - old(reader).pos) as int));
        }
        let ghost mid = reader.pos;
        let b = B::read(reader)?;
        proof {
            assert(reader.remaining() =~= s.skip((reader.pos - old(reader).pos) as int));
            assert(s.skip((mid - old(reader).pos) as int) =~= reader.data@.skip(mid as int));
        }
        let c = C::read(reader)?;
        Ok((a, b, c))
    }

    fn write(&self, writer: &mut Vec<u8>) -> (res: Result<(), ProtocolError>) {
        self.0.write(writer)?;
        self.1.write(writer)?;
        self.2.write(writer)?;
        assert(writer@ =~= old(writer)@ + Self::spec_serialize(self@));
        Ok(())
    }

    fn is_writable(&self) -> (b: bool) {
        self.0.is_writable() && self.1.is_writable() && self.2.is_writable()
    }

    fn read_panics(reader: &Reader<'_>) -> (b: bool) {
        if <(A, B)>::read_panics(reader) {
            return true;
        }
        let mut r = reader.fork();
        match <(A, B)>::read(&mut r) {
            Ok(_) => {
                proof {
                    assert(r.remaining() =~= reader.remaining().skip(r.pos - reader.pos));
                }
                C::read_panics(&r)
            },
            Err(_) => false,
        }
    }
}

} // verus!
