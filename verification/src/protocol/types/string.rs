use crate::protocol::error::ProtocolError;
use crate::protocol::types::varint::{varint_overlong, varint_parse, wrap_i32};
use crate::protocol::types::{Reader, Type, VarInt};
use crate::protocol::utils::write_all;
use vstd::prelude::*;
use vstd::utf8::{decode_utf8, encode_utf8, valid_utf8};

verus! {

/// Text: a variable-length integer giving the number of bytes, then that many
/// bytes of UTF-8.
#[derive(Debug)]
pub struct String(pub std::string::String);

impl View for String {
    type V = Seq<char>;

    open spec fn view(&self) -> Seq<char> {
        self.0@
    }
}

/// `std::string::String::from_utf8`, with its error dropped: the bytes become a
/// string exactly when they are valid UTF-8, and the string holds the characters
/// that they encode.
#[verifier::external_body]
fn string_from_utf8(bytes: Vec<u8>) -> (res: Option<std::string::String>)
    ensures
        res is Some <==> valid_utf8(bytes@),
        res matches Some(s) ==> s@ == decode_utf8(bytes@),
{
    std::string::String::from_utf8(bytes).ok()
}

/// The low 32 bits of a length, as the signed value that a length prefix holds.
pub fn wrap_length(n: usize) -> (r: i32)
    ensures
        r == wrap_i32(n as int),
{
    let m: u64 = (n as u64) % 0x1_0000_0000;
    if m >= 0x8000_0000 {
        (m as i64 - 0x1_0000_0000) as i32
    } else {
        m as i32
    }
}

/// The result of decoding a length-prefixed UTF-8 string at the front of `s`.
pub open spec fn string_parse(s: Seq<u8>) -> Result<(Seq<char>, nat), ProtocolError> {
    match varint_parse(s) {
        Err(e) => Err(e),
        Ok((n, k)) => {
            let rest = s.skip(k as int);
            if n < 0 {
                Err(ProtocolError::NegativeLength)
            } else if rest.len() < n {
                Err(ProtocolError::UnexpectedEof)
            } else if !valid_utf8(rest.take(n as int)) {
                Err(ProtocolError::InvalidUtf8)
            } else {
                Ok((decode_utf8(rest.take(n as int)), k + n as nat))
            }
        },
    }
}

/// Decoding a string does not return: the prefix is overlong, or it is negative
/// and the buffer for the bytes cannot be allocated.
pub open spec fn string_panics(s: Seq<u8>) -> bool {
    ||| varint_overlong(s)
    ||| (varint_parse(s) matches Ok((n, k)) && n < 0)
}

/// The encoding of the characters `v`: the length prefix of their UTF-8 bytes,
/// then the bytes.
pub open spec fn string_serialize(v: Seq<char>) -> Seq<u8> {
    VarInt::spec_serialize(wrap_i32(encode_utf8(v).len() as int)) + encode_utf8(v)
}

impl Type for String {
    open spec fn spec_parse(s: Seq<u8>) -> Result<(Seq<char>, nat), ProtocolError> {
        string_parse(s)
    }

    open spec fn spec_panics(s: Seq<u8>) -> bool {
        string_panics(s)
    }

    open spec fn spec_serialize(v: Seq<char>) -> Seq<u8> {
        string_serialize(v)
    }

    open spec fn spec_writable(v: Seq<char>) -> bool {
        wrap_i32(encode_utf8(v).len() as int) >= 0
    }

    open spec fn spec_wf(v: Seq<char>) -> bool {
        encode_utf8(v).len() <= 0x7fff_ffff
    }

    open spec fn prefix_secure() -> bool {
        true
    }

    proof fn lemma_parse_length(s: Seq<u8>) {
        VarInt::lemma_parse_length(s);
        if let Ok((n, k)) = varint_parse(s) {
            assert(s.skip(k as int).len() == s.len() - k);
        }
    }

    proof fn lemma_wf_writable(v: Seq<char>) {
    }

    proof fn lemma_roundtrip(v: Seq<char>, rest: Seq<u8>) {
        let b = encode_utf8(v);
        let n = wrap_i32(b.len() as int);
        assert(n == b.len());
        let p = VarInt::spec_serialize(n);
        VarInt::lemma_roundtrip(n, b + rest);
        assert(p + (b + rest) =~= string_serialize(v) + rest);
        assert((p + (b + rest)).skip(p.len() as int) =~= b + rest);
        assert((b + rest).take(b.len() as int) =~= b);
        vstd::utf8::encode_utf8_valid_utf8(v);
        vstd::utf8::encode_utf8_decode_utf8(v);
    }

    fn read(reader: &mut Reader<'_>) -> (res: Result<Self, ProtocolError>) {
        let ghost s = reader.remaining();
        let ghost start = reader.pos;
        let length = match VarInt::read(reader) {
            Ok(v) => v.0,
            Err(e) => {
                return Err(e);
            },
        };
        let ghost k = (reader.pos - start) as nat;
        proof {
            assert(varint_parse(s) == Ok::<(i32, nat), ProtocolError>((length, k)));
            assert(reader.remaining() =~= s.skip(k as int));
        }
        let length = length as usize;
        if reader.data.len() - reader.pos < length {
            return Err(ProtocolError::UnexpectedEof);
        }
        let mut buffer: Vec<u8> = Vec::new();
        let mut i: usize = 0;
        let ghost mid = reader.pos;
        while i < length
            invariant
                reader.wf(),
                reader.data == old(reader).data,
                reader.pos == mid + i,
                mid + length <= reader.data@.len(),
                i <= length,
                buffer@ =~= reader.data@.subrange(mid as int, mid + i),
            decreases length - i,
        {
            buffer.push(reader.data[reader.pos]);
            reader.pos = reader.pos + 1;
            i = i + 1;
        }
        proof {
            assert(buffer@ =~= s.skip(k as int).take(length as int));
        }
        match string_from_utf8(buffer) {
            Some(text) => Ok(String(text)),
            None => Err(ProtocolError::InvalidUtf8),
        }
    }

    fn write(&self, writer: &mut Vec<u8>) -> (res: Result<(), ProtocolError>) {
        let bytes = self.0.as_str().as_bytes();
        let length = wrap_length(bytes.len());
        VarInt(length).write(writer)?;
        write_all(writer, bytes);
        assert(writer@ =~= old(writer)@ + string_serialize(self@));
        Ok(())
    }

    fn is_writable(&self) -> (b: bool) {
        wrap_length(self.0.as_str().as_bytes().len()) >= 0
    }

    fn read_panics(reader: &Reader<'_>) -> (b: bool) {
        if VarInt::read_panics(reader) {
            return true;
        }
        let mut r = reader.fork();
        match VarInt::read(&mut r) {
            Ok(n) => n.0 < 0,
            Err(_) => false,
        }
    }
}

/// A namespaced name such as `minecraft:core`, encoded as a string.
#[derive(Debug)]
pub struct Identifier(pub String);

impl View for Identifier {
    type V = Seq<char>;

    open spec fn view(&self) -> Seq<char> {
        self.0@
    }
}

impl Type for Identifier {
    open spec fn spec_parse(s: Seq<u8>) -> Result<(Seq<char>, nat), ProtocolError> {
        string_parse(s)
    }

    open spec fn spec_panics(s: Seq<u8>) -> bool {
        string_panics(s)
    }

    open spec fn spec_serialize(v: Seq<char>) -> Seq<u8> {
        string_serialize(v)
    }

    open spec fn spec_writable(v: Seq<char>) -> bool {
        String::spec_writable(v)
    }

    open spec fn spec_wf(v: Seq<char>) -> bool {
        String::spec_wf(v)
    }

    open spec fn prefix_secure() -> bool {
        true
    }

    proof fn lemma_parse_length(s: Seq<u8>) {
        String::lemma_parse_length(s);
    }

    proof fn lemma_wf_writable(v: Seq<char>) {
    }

    proof fn lemma_roundtrip(v: Seq<char>, rest: Seq<u8>) {
        String::lemma_roundtrip(v, rest);
    }

    fn read(reader: &mut Reader<'_>) -> (res: Result<Self, ProtocolError>) {
        Ok(Self(String::read(reader)?))
    }

    fn write(&self, writer: &mut Vec<u8>) -> (res: Result<(), ProtocolError>) {
        self.0.write(writer)?;
        Ok(())
    }

    fn is_writable(&self) -> (b: bool) {
        self.0.is_writable()
    }

    fn read_panics(reader: &Reader<'_>) -> (b: bool) {
        String::read_panics(reader)
    }
}

} // verus!
