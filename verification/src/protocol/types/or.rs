use crate::protocol::error::ProtocolError;
use crate::protocol::types::{Boolean, Reader, Type};
use vstd::prelude::*;

verus! {

/// One of two kinds of value: a boolean saying which (true for `A`), then the
/// value.
#[derive(Debug)]
pub enum Or<A, B> {
    A(A),
    B(B),
}

/// The model of an [`Or`]: which side, and that side's value.
pub enum Either<L, R> {
    Left(L),
    Right(R),
}

impl<A: View, B: View> View for Or<A, B> {
    type V = Either<A::V, B::V>;

    open spec fn view(&self) -> Either<A::V, B::V> {
        match self {
            Or::A(a) => Either::Left(a@),
            Or::B(b) => Either::Right(b@),
        }
    }
}

/// The result of decoding an [`Or`] at the front of `s`.
pub open spec fn or_parse<A: Type, B: Type>(s: Seq<u8>) -> Result<(Either<A::V, B::V>, nat), ProtocolError> {
    match Boolean::spec_parse(s) {
        Ok((true, k)) => match A::spec_parse(s.skip(k as int)) {
            Err(e) => Err(e),
            Ok((a, m)) => Ok((Either::Left(a), k + m)),
        },
        Ok((false, k)) => match B::spec_parse(s.skip(k as int)) {
            Err(e) => Err(e),
            Ok((b, m)) => Ok((Either::Right(b), k + m)),
        },
        Err(e) => Err(e),
    }
}

impl<A: Type, B: Type> Type for Or<A, B> {
    open spec fn spec_parse(s: Seq<u8>) -> Result<(Either<A::V, B::V>, nat), ProtocolError> {
        or_parse::<A, B>(s)
    }

    open spec fn spec_panics(s: Seq<u8>) -> bool {
        if s.len() > 0 && s[0] == 0x01 {
            A::spec_panics(s.skip(1))
        } else if s.len() > 0 {
            B::spec_panics(s.skip(1))
        } else {
            B::spec_panics(s)
        }
    }

    open spec fn spec_serialize(v: Either<A::V, B::V>) -> Seq<u8> {
        match v {
            Either::Left(a) => seq![0x01u8] + A::spec_serialize(a),
            Either::Right(b) => seq![0x00u8] + B::spec_serialize(b),
        }
    }

    open spec fn spec_writable(v: Either<A::V, B::V>) -> bool {
        match v {
            Either::Left(a) => A::spec_writable(a),
            Either::Right(b) => B::spec_writable(b),
        }
    }

    open spec fn spec_wf(v: Either<A::V, B::V>) -> bool {
        match v {
            Either::Left(a) => A::spec_wf(a),
            Either::Right(b) => B::spec_wf(b),
        }
    }

    open spec fn prefix_secure() -> bool {
        A::prefix_secure() && B::prefix_secure()
    }

    proof fn lemma_parse_length(s: Seq<u8>) {
        if s.len() > 0 {
            A::lemma_parse_length(s.skip(1));
            B::lemma_parse_length(s.skip(1));
        } else {
            B::lemma_parse_length(s);
            assert(s.skip(0) =~= s);
        }
    }

    proof fn lemma_wf_writable(v: Either<A::V, B::V>) {
        match v {
            Either::Left(a) => A::lemma_wf_writable(a),
            Either::Right(b) => B::lemma_wf_writable(b),
        }
    }

    proof fn lemma_roundtrip(v: Either<A::V, B::V>, rest: Seq<u8>) {
        match v {
            Either::Left(a) => {
                A::lemma_roundtrip(a, rest);
                assert((seq![0x01u8] + A::spec_serialize(a) + rest).skip(1) =~= A::spec_serialize(a)
                    + rest);
            },
            Either::Right(b) => {
                B::lemma_roundtrip(b, rest);
                assert((seq![0x00u8] + B::spec_serialize(b) + rest).skip(1) =~= B::spec_serialize(b)
                    + rest);
            },
        }
    }

    fn read(reader: &mut Reader<'_>) -> (res: Result<Self, ProtocolError>) {
        let ghost s = reader.remaining();
        let ghost start = reader.pos;
        let present = Boolean::read(reader)?.0;
        proof {
            assert(reader.remaining() =~= s.skip((reader.pos - start) as int));
            assert(s.skip(0) =~= s);
        }
        if present {
            Ok(Or::A(A::read(reader)?))
        } else {
            Ok(Or::B(B::read(reader)?))
        }
    }

    fn write(&self, writer: &mut Vec<u8>) -> (res: Result<(), ProtocolError>) {
        match self {
            Or::A(a) => {
                Boolean(true).write(writer)?;
                a.write(writer)?;
            },
            Or::B(b) => {
                Boolean(false).write(writer)?;
                b.write(writer)?;
            },
        }
        assert(writer@ =~= old(writer)@ + Self::spec_serialize(self@));
        Ok(())
    }

    fn is_writable(&self) -> (b: bool) {
        match self {
            Or::A(a) => a.is_writable(),
            Or::B(b) => b.is_writable(),
        }
    }

    fn read_panics(reader: &Reader<'_>) -> (b: bool) {
        if reader.pos < reader.data.len() {
            let r = Reader { data: reader.data, pos: reader.pos + 1 };
            assert(r.remaining() =~= reader.remaining().skip(1));
            if reader.data[reader.pos] == 0x01 {
                A::read_panics(&r)
            } else {
                B::read_panics(&r)
            }
        } else {
            B::read_panics(reader)
        }
    }
}

} // verus!
