use crate::protocol::error::ProtocolError;
use crate::protocol::types::string::wrap_length;
use crate::protocol::types::varint::{varint_overlong, varint_parse, wrap_i32};
use crate::protocol::types::{Boolean, Reader, Type, VarInt};
use crate::protocol::utils::write_u8;
use vstd::prelude::*;

verus! {

/// A sequence: a variable-length integer giving the number of elements, then the
/// elements one after the other.
#[derive(Debug)]
pub struct PrefixedArray<I>(pub Vec<I>);

impl<I: View> View for PrefixedArray<I> {
    type V = Seq<I::V>;

    open spec fn view(&self) -> Seq<I::V> {
        self.0@.map_values(|e: I| e@)
    }
}

/// Decoding `n` elements one after the other from the front of `s`.
pub open spec fn elements_parse<I: Type>(s: Seq<u8>, n: nat) -> Result<(Seq<I::V>, nat), ProtocolError>
    decreases n,
{
    if n == 0 {
        Ok((Seq::empty(), 0))
    } else {
        match I::spec_parse(s) {
            Err(e) => Err(e),
            Ok((v, k)) => match elements_parse::<I>(s.skip(k as int), (n - 1) as nat) {
                Err(e) => Err(e),
                Ok((vs, m)) => Ok((seq![v] + vs, k + m)),
            },
        }
    }
}

pub open spec fn elements_panics<I: Type>(s: Seq<u8>, n: nat) -> bool
    decreases n,
{
    if n == 0 {
        false
    } else {
        ||| I::spec_panics(s)
        ||| (I::spec_parse(s) matches Ok((v, k)) && elements_panics::<I>(
            s.skip(k as int),
            (n - 1) as nat,
        ))
    }
}

/// The encodings of the elements, one after the other.
pub open spec fn elements_serialize<I: Type>(vs: Seq<I::V>) -> Seq<u8>
    decreases vs.len(),
{
    if vs.len() == 0 {
        Seq::empty()
    } else {
        elements_serialize::<I>(vs.drop_last()) + I::spec_serialize(vs.last())
    }
}

/// The number of elements that the buffer for a count `n` is allocated with.
pub open spec fn capacity_of(n: i32) -> int {
    if n < 0 {
        n + usize::MAX + 1
    } else {
        n as int
    }
}

/// Decoding the elements of a sequence stops without a result when the buffer
/// for them is larger than an allocation may be.
pub open spec fn capacity_overflows<I>(n: i32) -> bool {
    capacity_of(n) * vstd::layout::size_of::<I>() > isize::MAX
}

pub proof fn lemma_elements_serialize_front<I: Type>(vs: Seq<I::V>)
    requires
        vs.len() > 0,
    ensures
        elements_serialize::<I>(vs) == I::spec_serialize(vs[0]) + elements_serialize::<I>(
            vs.drop_first(),
        ),
    decreases vs.len(),
{
    if vs.len() == 1 {
        assert(vs.drop_last() =~= Seq::<I::V>::empty());
        assert(vs.drop_first() =~= Seq::<I::V>::empty());
        assert(elements_serialize::<I>(Seq::<I::V>::empty()) =~= Seq::<u8>::empty());
        assert(vs.last() == vs[0]);
        assert(elements_serialize::<I>(vs) =~= I::spec_serialize(vs[0]));
    } else {
        lemma_elements_serialize_front::<I>(vs.drop_last());
        assert(vs.drop_last().drop_first() =~= vs.drop_first().drop_last());
        assert(vs.drop_first().last() == vs.last());
        assert(elements_serialize::<I>(vs) =~= I::spec_serialize(vs[0]) + elements_serialize::<I>(
            vs.drop_first(),
        ));
    }
}

pub proof fn lemma_elements_parse_length<I: Type>(s: Seq<u8>, n: nat)
    ensures
        elements_parse::<I>(s, n) matches Ok((vs, m)) ==> m <= s.len() && vs.len() == n,
    decreases n,
{
    if n > 0 {
        I::lemma_parse_length(s);
        if let Ok((v, k)) = I::spec_parse(s) {
            lemma_elements_parse_length::<I>(s.skip(k as int), (n - 1) as nat);
        }
    }
}

pub proof fn lemma_elements_roundtrip<I: Type>(vs: Seq<I::V>, rest: Seq<u8>)
    requires
        forall|i: int| 0 <= i < vs.len() ==> I::spec_wf(#[trigger] vs[i]),
        I::prefix_secure() || vs.len() <= 1,
        I::prefix_secure() || rest.len() == 0,
    ensures
        !elements_panics::<I>(elements_serialize::<I>(vs) + rest, vs.len()),
        elements_parse::<I>(elements_serialize::<I>(vs) + rest, vs.len()) == Ok::<
            (Seq<I::V>, nat),
            ProtocolError,
        >((vs, elements_serialize::<I>(vs).len())),
    decreases vs.len(),
{
    if vs.len() == 0 {
        assert(vs =~= Seq::<I::V>::empty());
    } else {
        let tail = vs.drop_first();
        let st = elements_serialize::<I>(tail);
        let sh = I::spec_serialize(vs[0]);
        lemma_elements_serialize_front::<I>(vs);
        assert(I::spec_wf(vs[0]));
        if !I::prefix_secure() {
            assert(tail.len() == 0);
            assert(st =~= Seq::<u8>::empty());
        }
        I::lemma_roundtrip(vs[0], st + rest);
        lemma_elements_roundtrip::<I>(tail, rest);
        assert(elements_serialize::<I>(vs) + rest =~= sh + (st + rest));
        assert((sh + (st + rest)).skip(sh.len() as int) =~= st + rest);
        assert(seq![vs[0]] + tail =~= vs);
    }
}

/// The result of decoding a length-prefixed sequence at the front of `s`.
pub open spec fn array_parse<I: Type>(s: Seq<u8>) -> Result<(Seq<I::V>, nat), ProtocolError> {
    match varint_parse(s) {
        Err(e) => Err(e),
        Ok((n, k)) => if n < 0 {
            if vstd::layout::size_of::<I>() == 0 {
                Ok((Seq::empty(), k))
            } else {
                Err(ProtocolError::NegativeLength)
            }
        } else {
            match elements_parse::<I>(s.skip(k as int), n as nat) {
                Err(e) => Err(e),
                Ok((vs, m)) => Ok((vs, k + m)),
            }
        },
    }
}

impl<I: Type> Type for PrefixedArray<I> {
    open spec fn spec_parse(s: Seq<u8>) -> Result<(Seq<I::V>, nat), ProtocolError> {
        array_parse::<I>(s)
    }

    open spec fn spec_panics(s: Seq<u8>) -> bool {
        ||| varint_overlong(s)
        ||| (varint_parse(s) matches Ok((n, k)) && (capacity_overflows::<I>(n) || (n >= 0
            && elements_panics::<I>(s.skip(k as int), n as nat))))
    }

    open spec fn spec_serialize(v: Seq<I::V>) -> Seq<u8> {
        VarInt::spec_serialize(wrap_i32(v.len() as int)) + elements_serialize::<I>(v)
    }

    open spec fn spec_writable(v: Seq<I::V>) -> bool {
        &&& wrap_i32(v.len() as int) >= 0
        &&& forall|i: int| 0 <= i < v.len() ==> I::spec_writable(#[trigger] v[i])
    }

    open spec fn spec_wf(v: Seq<I::V>) -> bool {
        &&& v.len() <= 0x7fff_ffff
        &&& forall|i: int| 0 <= i < v.len() ==> I::spec_wf(#[trigger] v[i])
        &&& (I::prefix_secure() || v.len() <= 1)
        &&& !capacity_overflows::<I>(v.len() as i32)
    }

    open spec fn prefix_secure() -> bool {
        I::prefix_secure()
    }

    proof fn lemma_parse_length(s: Seq<u8>) {
        VarInt::lemma_parse_length(s);
        if let Ok((n, k)) = varint_parse(s) {
            if n >= 0 {
                lemma_elements_parse_length::<I>(s.skip(k as int), n as nat);
            }
        }
    }

    proof fn lemma_wf_writable(v: Seq<I::V>) {
        assert forall|i: int| 0 <= i < v.len() implies I::spec_writable(#[trigger] v[i]) by {
            I::lemma_wf_writable(v[i]);
        }
    }

    proof fn lemma_roundtrip(v: Seq<I::V>, rest: Seq<u8>) {
        let n = wrap_i32(v.len() as int);
        assert(n == v.len());
        let p = VarInt::spec_serialize(n);
        let e = elements_serialize::<I>(v);
        VarInt::lemma_roundtrip(n, e + rest);
        lemma_elements_roundtrip::<I>(v, rest);
        assert(p + (e + rest) =~= p + e + rest);
        assert((p + (e + rest)).skip(p.len() as int) =~= e + rest);
    }

    fn read(reader: &mut Reader<'_>) -> (res: Result<Self, ProtocolError>) {
        let ghost s = reader.remaining();
        let ghost start = reader.pos;
        let length = match VarInt::read(reader) {
            Ok(v) => v.0,
            Err(e) => {
                return Err(e);
            },
        };
        let ghost k = (reader.pos - start) as nat;
        proof {
            assert(varint_parse(s) == Ok::<(i32, nat), ProtocolError>((length, k)));
        }
        let mut result: Vec<I> = Vec::new();
        if length < 0 {
            proof {
                if vstd::layout::size_of::<I>() > 0 {
                    assert(capacity_of(length) >= 1);
                    assert(capacity_of(length) * vstd::layout::size_of::<I>() >= capacity_of(length))
                        by (nonlinear_arith)
                        requires
                            capacity_of(length) >= 1,
                            vstd::layout::size_of::<I>() >= 1,
                    ;
                    assert(capacity_overflows::<I>(length));
                }
            }
            assert(result@.map_values(|e: I| e@) =~= Seq::<I::V>::empty());
            return Ok(PrefixedArray(result));
        }
        let ghost n = length as nat;
        let mut i: i32 = 0;
        proof {
            assert(reader.remaining() =~= s.skip(k as int));
            assert(result@.map_values(|e: I| e@) =~= Seq::<I::V>::empty());
            assert forall|vs: Seq<I::V>| #![trigger Seq::<I::V>::empty() + vs]
                Seq::<I::V>::empty() + vs =~= vs by {}
        }
        while i < length
            invariant
                reader.wf(),
                reader.data == old(reader).data,
                s == old(reader).remaining(),
                start == old(reader).pos,
                start + k <= reader.pos,
                0 <= i <= length,
                n == length,
                varint_parse(s) == Ok::<(i32, nat), ProtocolError>((length, k)),
                !elements_panics::<I>(s.skip(k as int), n),
                elements_panics::<I>(s.skip(k as int), n) == elements_panics::<I>(
                    reader.remaining(),
                    (n - i) as nat,
                ),
                reader.remaining() == s.skip(reader.pos - start),
                result@.len() == i,
                elements_parse::<I>(s.skip(k as int), n) == match elements_parse::<I>(
                    reader.remaining(),
                    (n - i) as nat,
                ) {
                    Ok((vs, m)) => Ok::<(Seq<I::V>, nat), ProtocolError>(
                        (result@.map_values(|e: I| e@) + vs, (reader.pos - start - k + m) as nat),
                    ),
                    Err(e) => Err(e),
                },
            decreases length - i,
        {
            let ghost t = reader.remaining();
            let ghost before = reader.pos;
            let elem = match I::read(reader) {
                Ok(e) => e,
                Err(e) => {
                    assert(elements_parse::<I>(t, (n - i) as nat) == Err::<(Seq<I::V>, nat), ProtocolError>(e));
                    assert(elements_parse::<I>(s.skip(k as int), n) == Err::<(Seq<I::V>, nat), ProtocolError>(e));
                    assert(array_parse::<I>(s) == Err::<(Seq<I::V>, nat), ProtocolError>(e));
                    return Err(e);
                },
            };
            proof {
                let c = (reader.pos - before) as int;
                assert(reader.remaining() =~= t.skip(c));
                assert(reader.remaining() =~= s.skip(reader.pos - start));
            }
            let ghost old_views = result@.map_values(|e: I| e@);
            result.push(elem);
            proof {
                assert(result@.map_values(|e: I| e@) =~= old_views.push(elem@));
                assert forall|vs: Seq<I::V>|
                    #![trigger old_views + (seq![elem@] + vs)]
                    old_views + (seq![elem@] + vs) =~= old_views.push(elem@) + vs by {}
            }
            i = i + 1;
        }
        proof {
            assert(elements_parse::<I>(reader.remaining(), 0) == Ok::<(Seq<I::V>, nat), ProtocolError>(
                (Seq::empty(), 0),
            ));
            assert(result@.map_values(|e: I| e@) + Seq::<I::V>::empty() =~= result@.map_values(
                |e: I| e@,
            ));
        }
        Ok(PrefixedArray(result))
    }

    fn write(&self, writer: &mut Vec<u8>) -> (res: Result<(), ProtocolError>) {
        let length = wrap_length(self.0.len());
        VarInt(length).write(writer)?;
        let ghost mid = writer@;
        let ghost views = self@;
        let mut i: usize = 0;
        assert(views.take(0) =~= Seq::<I::V>::empty());
        while i < self.0.len()
            invariant
                i <= self.0@.len(),
                views == self@,
                views.len() == self.0@.len(),
                forall|j: int| 0 <= j < views.len() ==> I::spec_writable(#[trigger] views[j]),
                writer@ == mid + elements_serialize::<I>(views.take(i as int)),
            decreases self.0.len() - i,
        {
            assert(views[i as int] == self.0@[i as int]@);
            self.0[i].write(writer)?;
            proof {
                assert(views.take(i + 1).drop_last() =~= views.take(i as int));
                assert(views.take(i + 1).last() == views[i as int]);
                assert(writer@ =~= mid + elements_serialize::<I>(views.take(i + 1)));
            }
            i = i + 1;
        }
        assert(views.take(i as int) =~= views);
        assert(writer@ =~= old(writer)@ + Self::spec_serialize(self@));
        Ok(())
    }

    fn is_writable(&self) -> (b: bool) {
        if wrap_length(self.0.len()) < 0 {
            return false;
        }
        let mut i: usize = 0;
        while i < self.0.len()
            invariant
                i <= self.0@.len(),
                forall|j: int| 0 <= j < i ==> I::spec_writable(#[trigger] self@[j]),
            decreases self.0.len() - i,
        {
            if !self.0[i].is_writable() {
                assert(self@[i as int] == self.0@[i as int]@);
                return false;
            }
            assert(self@[i as int] == self.0@[i as int]@);
            i = i + 1;
        }
        true
    }

    fn read_panics(reader: &Reader<'_>) -> (b: bool) {
        if VarInt::read_panics(reader) {
            return true;
        }
        let ghost s = reader.remaining();
        let mut r = reader.fork();
        let n = match VarInt::read(&mut r) {
            Ok(v) => v.0,
            Err(_) => {
                return false;
            },
        };
        let ghost k = (r.pos - reader.pos) as nat;
        proof {
            assert(varint_parse(s) == Ok::<(i32, nat), ProtocolError>((n, k)));
            assert(r.remaining() =~= s.skip(k as int));
        }
        let cap: u128 = if n < 0 {
            (n as i128 + usize::MAX as i128 + 1) as u128
        } else {
            n as u128
        };
        let size = core::mem::size_of::<I>() as u128;
        assert(cap == capacity_of(n));
        assert(size == vstd::layout::size_of::<I>());
        assert(cap * size <= 0xffff_ffff_ffff_ffff * 0xffff_ffff_ffff_ffff) by (nonlinear_arith)
            requires
                cap <= 0xffff_ffff_ffff_ffff,
                size <= 0xffff_ffff_ffff_ffff,
        ;
        if cap * size > isize::MAX as u128 {
            return true;
        }
        assert(!capacity_overflows::<I>(n));
        if n < 0 {
            return false;
        }
        let ghost total = n as nat;
        let mut i: i32 = 0;
        while i < n
            invariant
                r.wf(),
                r.data == reader.data,
                0 <= i <= n,
                total == n,
                !capacity_overflows::<I>(n),
                !varint_overlong(s),
                varint_parse(s) == Ok::<(i32, nat), ProtocolError>((n, k)),
                s == reader.remaining(),
                reader.pos + k <= r.pos,
                r.remaining() == s.skip(r.pos - reader.pos),
                elements_panics::<I>(s.skip(k as int), total) == elements_panics::<I>(
                    r.remaining(),
                    (total - i) as nat,
                ),
            decreases n - i,
        {
            if I::read_panics(&r) {
                return true;
            }
            let ghost t = r.remaining();
            let ghost before = r.pos;
            match I::read(&mut r) {
                Ok(_) => {
                    proof {
                        assert(r.remaining() =~= t.skip(r.pos - before));
                        assert(r.remaining() =~= s.skip(r.pos - reader.pos));
                    }
                },
                Err(_) => {
                    assert(!elements_panics::<I>(t, (total - i) as nat));
                    return false;
                },
            }
            i = i + 1;
        }
        false
    }
}

/// An optional value: a boolean saying whether it is present, then the value if
/// it is.
#[derive(Debug)]
pub struct PrefixedOptional<I>(pub Option<I>);

impl<I: View> View for PrefixedOptional<I> {
    type V = Option<I::V>;

    open spec fn view(&self) -> Option<I::V> {
        match self.0 {
            Some(v) => Some(v@),
            None => None,
        }
    }
}

/// The result of decoding an optional value at the front of `s`.
pub open spec fn optional_parse<I: Type>(s: Seq<u8>) -> Result<(Option<I::V>, nat), ProtocolError> {
    match Boolean::spec_parse(s) {
        Ok((true, k)) => match I::spec_parse(s.skip(k as int)) {
            Err(e) => Err(e),
            Ok((v, m)) => Ok((Some(v), k + m)),
        },
        Ok((false, k)) => Ok((None, k)),
        Err(e) => Err(e),
    }
}

impl<I: Type> Type for PrefixedOptional<I> {
    open spec fn spec_parse(s: Seq<u8>) -> Result<(Option<I::V>, nat), ProtocolError> {
        optional_parse::<I>(s)
    }

    open spec fn spec_panics(s: Seq<u8>) -> bool {
        s.len() > 0 && s[0] == 0x01 && I::spec_panics(s.skip(1))
    }

    open spec fn spec_serialize(v: Option<I::V>) -> Seq<u8> {
        match v {
            Some(x) => seq![0x01u8] + I::spec_serialize(x),
            None => seq![0x00u8],
        }
    }

    open spec fn spec_writable(v: Option<I::V>) -> bool {
        match v {
            Some(x) => I::spec_writable(x),
            None => true,
        }
    }

    open spec fn spec_wf(v: Option<I::V>) -> bool {
        match v {
            Some(x) => I::spec_wf(x),
            None => true,
        }
    }

    open spec fn prefix_secure() -> bool {
        I::prefix_secure()
    }

    proof fn lemma_parse_length(s: Seq<u8>) {
        if s.len() > 0 {
            I::lemma_parse_length(s.skip(1));
        }
    }

    proof fn lemma_wf_writable(v: Option<I::V>) {
        if let Some(x) = v {
            I::lemma_wf_writable(x);
        }
    }

    proof fn lemma_roundtrip(v: Option<I::V>, rest: Seq<u8>) {
        if let Some(x) = v {
            I::lemma_roundtrip(x, rest);
            assert((seq![0x01u8] + I::spec_serialize(x) + rest).skip(1) =~= I::spec_serialize(x)
                + rest);
        }
    }

    fn read(reader: &mut Reader<'_>) -> (res: Result<Self, ProtocolError>) {
        let ghost s = reader.remaining();
        let Boolean(present) = Boolean::read(reader)?;
        if present {
            proof {
                assert(reader.remaining() =~= s.skip(1));
            }
            Ok(PrefixedOptional(Some(I::read(reader)?)))
        } else {
            Ok(PrefixedOptional(None))
        }
    }

    fn write(&self, writer: &mut Vec<u8>) -> (res: Result<(), ProtocolError>) {
        if let Some(v) = &self.0 {
            write_u8(writer, 0x01)?;
            v.write(writer)?;
        } else {
            write_u8(writer, 0x00)?;
        }
        assert(writer@ =~= old(writer)@ + Self::spec_serialize(self@));
        Ok(())
    }

    fn is_writable(&self) -> (b: bool) {
        match &self.0 {
            Some(v) => v.is_writable(),
            None => true,
        }
    }

    fn read_panics(reader: &Reader<'_>) -> (b: bool) {
        if reader.pos < reader.data.len() && reader.data[reader.pos] == 0x01 {
            let r = Reader { data: reader.data, pos: reader.pos + 1 };
            assert(r.remaining() =~= reader.remaining().skip(1));
            I::read_panics(&r)
        } else {
            false
        }
    }
}

} // verus!
