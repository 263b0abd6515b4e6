use crate::protocol::error::ProtocolError;
use crate::protocol::types::Reader;
use crate::protocol::utils::{write_all, write_u8};
use vstd::prelude::*;

verus! {

/// An NBT value, held as the bytes of its encoding. Where one value ends in a
/// packet is decided by an NBT decoder that the caller supplies.
#[derive(Debug)]
pub struct Nbt(pub Vec<u8>);

impl View for Nbt {
    type V = Seq<u8>;

    open spec fn view(&self) -> Seq<u8> {
        self.0@
    }
}

/// The model of an optional NBT value.
pub open spec fn optional_nbt_view(value: Option<Nbt>) -> Option<Seq<u8>> {
    match value {
        Some(nbt) => Some(nbt@),
        None => None,
    }
}

/// An optional NBT value on the wire: a boolean saying whether it is there, then
/// the value.
pub open spec fn optional_nbt_serialize(value: Option<Seq<u8>>) -> Seq<u8> {
    match value {
        Some(bytes) => seq![0x01u8] + bytes,
        None => seq![0x00u8],
    }
}

impl Nbt {
    /// Appends the encoding of the value.
    pub fn write(&self, writer: &mut Vec<u8>)
        ensures
            final(writer)@ == old(writer)@ + self@,
    {
        write_all(writer, self.0.as_slice());
    }

    /// Takes the `len` bytes at the reader's position as one NBT value; fails when
    /// fewer remain.
    pub fn read(reader: &mut Reader<'_>, len: usize) -> (res: Result<Self, ProtocolError>)
        requires
            old(reader).wf(),
        ensures
            final(reader).wf(),
            final(reader).data == old(reader).data,
            len <= old(reader).remaining().len() ==> (res matches Ok(nbt) && nbt@
                == old(reader).remaining().take(len as int) && final(reader).pos == old(reader).pos
                + len),
            len > old(reader).remaining().len() ==> res == Err::<Self, ProtocolError>(
                ProtocolError::UnexpectedEof,
            ) && final(reader).pos == old(reader).pos,
    {
        if len > reader.data.len() - reader.pos {
            return Err(ProtocolError::UnexpectedEof);
        }
        let mut bytes: Vec<u8> = Vec::new();
        let start = reader.pos;
        let end = reader.pos + len;
        write_all(&mut bytes, &reader.data[start..end]);
        reader.pos = end;
        assert(bytes@ =~= old(reader).remaining().take(len as int));
        Ok(Nbt(bytes))
    }
}

/// Appends an optional NBT value: a boolean saying whether it is there, then the
/// value.
pub fn write_optional_nbt(value: &Option<Nbt>, writer: &mut Vec<u8>)
    ensures
        final(writer)@ == old(writer)@ + optional_nbt_serialize(optional_nbt_view(*value)),
{
    match value {
        Some(nbt) => {
            let _ = write_u8(writer, 0x01);
            nbt.write(writer);
            assert(writer@ =~= old(writer)@ + optional_nbt_serialize(optional_nbt_view(*value)));
        },
        None => {
            let _ = write_u8(writer, 0x00);
            assert(writer@ =~= old(writer)@ + optional_nbt_serialize(optional_nbt_view(*value)));
        },
    }
}

} // verus!
