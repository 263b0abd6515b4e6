use crate::protocol::error::ProtocolError;
use vstd::prelude::*;

pub mod bigendian;
pub mod boolean;
pub mod byte;
pub mod bytearray;
pub mod gameprofile;
pub mod integer;
pub mod long;
pub mod nbt;
pub mod or;
pub mod prefixed;
pub mod property;
pub mod string;
pub mod tuple;
pub mod ushort;
pub mod uuid;
pub mod varint;

pub use boolean::Boolean;
pub use byte::Byte;
pub use bytearray::ByteArray;
pub use gameprofile::GameProfile;
pub use integer::Int;
pub use long::Long;
pub use nbt::Nbt;
pub use or::Or;
pub use prefixed::{PrefixedArray, PrefixedOptional};
pub use property::Property;
pub use string::{Identifier, String};
pub use ushort::UnsignedShort;
pub use uuid::Uuid;
pub use varint::VarInt;

verus! {

/// A position in a byte buffer from which values are decoded, in the manner of
/// an in-memory cursor.
pub struct Reader<'a> {
    pub data: &'a [u8],
    pub pos: usize,
}

impl<'a> Reader<'a> {
    /// A second reader at the same position.
    pub fn fork(&self) -> (r: Reader<'a>)
        ensures
            r.data == self.data,
            r.pos == self.pos,
    {
        Reader { data: self.data, pos: self.pos }
    }

    /// The position lies within the buffer.
    pub open spec fn wf(&self) -> bool {
        self.pos <= self.data@.len()
    }

    /// The bytes that have not been consumed yet.
    pub open spec fn remaining(&self) -> Seq<u8> {
        self.data@.skip(self.pos as int)
    }

    /// A reader at the start of `data`.
    pub fn new(data: &'a [u8]) -> (r: Reader<'a>)
        ensures
            r.data == data,
            r.pos == 0,
            r.wf(),
            r.remaining() == data@,
    {
        let r = Reader { data, pos: 0 };
        assert(r.remaining() =~= data@);
        r
    }
}

/// A value of the protocol, with its wire format.
///
/// `spec_parse` is what decoding the front of a byte sequence gives: the value and
/// the number of bytes consumed, or the error. `spec_panics` marks the inputs on
/// which decoding does not return at all. `spec_serialize` is the encoding of a
/// value, `spec_writable` the values whose encoding terminates, and `spec_wf` the
/// values that read back as themselves after being written.
pub trait Type: View + Sized {
    spec fn spec_parse(s: Seq<u8>) -> Result<(Self::V, nat), ProtocolError>;

    spec fn spec_panics(s: Seq<u8>) -> bool;

    spec fn spec_serialize(v: Self::V) -> Seq<u8>;

    spec fn spec_writable(v: Self::V) -> bool;

    spec fn spec_wf(v: Self::V) -> bool;

    /// Decoding never looks past the end of a value's own encoding.
    spec fn prefix_secure() -> bool;

    proof fn lemma_parse_length(s: Seq<u8>)
        ensures
            Self::spec_parse(s) matches Ok((v, n)) ==> n <= s.len(),
    ;

    proof fn lemma_wf_writable(v: Self::V)
        requires
            Self::spec_wf(v),
        ensures
            Self::spec_writable(v),
    ;

    proof fn lemma_roundtrip(v: Self::V, rest: Seq<u8>)
        requires
            Self::spec_wf(v),
            Self::prefix_secure() || rest.len() == 0,
        ensures
            !Self::spec_panics(Self::spec_serialize(v) + rest),
            Self::spec_parse(Self::spec_serialize(v) + rest) == Ok::<(Self::V, nat), ProtocolError>(
                (v, Self::spec_serialize(v).len()),
            ),
    ;

    fn read(reader: &mut Reader<'_>) -> (res: Result<Self, ProtocolError>)
        requires
            old(reader).wf(),
            !Self::spec_panics(old(reader).remaining()),
        ensures
            final(reader).wf(),
            final(reader).data == old(reader).data,
            res is Ok ==> old(reader).pos <= final(reader).pos,
            match res {
                Ok(v) => Self::spec_parse(old(reader).remaining()) == Ok::<(Self::V, nat), ProtocolError>(
                    (v@, (final(reader).pos - old(reader).pos) as nat),
                ),
                Err(e) => Self::spec_parse(old(reader).remaining()) == Err::<(Self::V, nat), ProtocolError>(e),
            },
    ;

    fn write(&self, writer: &mut Vec<u8>) -> (res: Result<(), ProtocolError>)
        requires
            Self::spec_writable(self@),
        ensures
            res is Ok,
            final(writer)@ == old(writer)@ + Self::spec_serialize(self@),
    ;

    fn is_writable(&self) -> (b: bool)
        ensures
            b == Self::spec_writable(self@),
    ;

    /// Whether decoding at the reader's position would not return.
    fn read_panics(reader: &Reader<'_>) -> (b: bool)
        requires
            reader.wf(),
        ensures
            b == Self::spec_panics(reader.remaining()),
    ;
}

/// What `write` puts out for a well-formed value, `read` takes back: the same
/// value, consuming exactly the bytes written, whatever follows them when the
/// type never reads past its own encoding; and reading it does not stop without
/// a result. A well-formed value can always be written.
pub proof fn law_write_then_read<T: Type>(v: T::V, rest: Seq<u8>)
    requires
        T::spec_wf(v),
        T::prefix_secure() || rest.len() == 0,
    ensures
        T::spec_writable(v),
        !T::spec_panics(T::spec_serialize(v) + rest),
        T::spec_parse(T::spec_serialize(v) + rest) == Ok::<(T::V, nat), ProtocolError>(
            (v, T::spec_serialize(v).len()),
        ),
{
    T::lemma_wf_writable(v);
    T::lemma_roundtrip(v, rest);
}

/// Decoding never consumes more than it is given.
pub proof fn law_read_within_input<T: Type>(s: Seq<u8>)
    ensures
        T::spec_parse(s) matches Ok((v, n)) ==> n <= s.len(),
{
    T::lemma_parse_length(s);
}

} // verus!
