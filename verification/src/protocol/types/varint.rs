use crate::protocol::error::ProtocolError;
use crate::protocol::types::{Reader, Type};
use crate::protocol::utils::{read_u8, write_u8};
use vstd::prelude::*;

verus! {

/// A 32-bit signed integer in the protocol's variable-length encoding: seven bits
/// per byte, least significant group first, the high bit of each byte telling
/// whether another byte follows.
#[derive(Debug)]
pub struct VarInt(pub i32);

impl View for VarInt {
    type V = i32;

    open spec fn view(&self) -> i32 {
        self.0
    }
}

/// `128` to the power `k`.
pub open spec fn pow128(k: nat) -> nat
    decreases k,
{
    if k == 0 {
        1
    } else {
        128 * pow128((k - 1) as nat)
    }
}

/// The number that the seven-bit groups of `s` spell, least significant first.
pub open spec fn varint_digits(s: Seq<u8>) -> int
    decreases s.len(),
{
    if s.len() == 0 {
        0
    } else {
        (s[0] % 128) as int + 128 * varint_digits(s.drop_first())
    }
}

/// Looking from index `i` among the first five bytes of `s`, the length of the
/// encoding up to and including the first byte without its continuation bit.
pub open spec fn varint_end(s: Seq<u8>, i: nat) -> Option<nat>
    decreases 5 - i,
{
    if i >= 5 || i >= s.len() {
        None
    } else if s[i as int] < 128 {
        Some(i + 1)
    } else {
        varint_end(s, i + 1)
    }
}

/// Decoding reaches a sixth byte: the shift for its group exceeds the width of
/// the value, and decoding stops there without a result.
pub open spec fn varint_overlong(s: Seq<u8>) -> bool {
    &&& s.len() >= 6
    &&& forall|i: int| 0 <= i < 5 ==> s[i] >= 128
}

/// The 32-bit two's-complement value of the low 32 bits of `n`.
pub open spec fn wrap_i32(n: int) -> i32 {
    let m = n % 0x1_0000_0000;
    if m >= 0x8000_0000 {
        (m - 0x1_0000_0000) as i32
    } else {
        m as i32
    }
}

/// The encoding of a non-negative number.
pub open spec fn varint_encode(n: nat) -> Seq<u8>
    decreases n,
{
    if n < 128 {
        seq![n as u8]
    } else {
        seq![(n % 128 + 128) as u8] + varint_encode(n / 128)
    }
}

/// The result of decoding a variable-length integer at the front of `s`.
pub open spec fn varint_parse(s: Seq<u8>) -> Result<(i32, nat), ProtocolError> {
    match varint_end(s, 0) {
        Some(k) => Ok((wrap_i32(varint_digits(s.take(k as int))), k)),
        None => Err(ProtocolError::UnexpectedEof),
    }
}

proof fn lemma_digits_step(s: Seq<u8>, i: nat)
    requires
        i < s.len(),
    ensures
        varint_digits(s.take((i + 1) as int)) == varint_digits(s.take(i as int)) + (s[i as int] % 128) as int
            * pow128(i),
    decreases i,
{
    if i == 0 {
        assert(s.take(1).drop_first() =~= Seq::<u8>::empty());
        assert(s.take(0) =~= Seq::<u8>::empty());
        assert(varint_digits(Seq::<u8>::empty()) == 0);
        assert(pow128(0) == 1);
        assert(varint_digits(s.take(1)) == (s[0] % 128) as int + 128 * varint_digits(
            s.take(1).drop_first(),
        ));
    } else {
        let t = s.drop_first();
        lemma_digits_step(t, (i - 1) as nat);
        assert(s.take((i + 1) as int).drop_first() =~= t.take(i as int));
        assert(s.take(i as int).drop_first() =~= t.take(i - 1));
        let a = varint_digits(t.take(i - 1));
        let d = (s[i as int] % 128) as int;
        let p = pow128((i - 1) as nat);
        assert(t[i - 1] == s[i as int]);
        assert(pow128(i) == 128 * p);
        assert(s.take((i + 1) as int)[0] == s[0]);
        assert(s.take(i as int)[0] == s[0]);
        assert(varint_digits(s.take((i + 1) as int)) == (s[0] % 128) as int + 128 * varint_digits(
            t.take(i as int),
        ));
        assert(varint_digits(s.take(i as int)) == (s[0] % 128) as int + 128 * a);
        assert(128 * (a + d * p) == 128 * a + d * (128 * p)) by (nonlinear_arith);
    }
}

proof fn lemma_digits_bound(s: Seq<u8>)
    ensures
        0 <= varint_digits(s) < pow128(s.len()),
    decreases s.len(),
{
    if s.len() > 0 {
        lemma_digits_bound(s.drop_first());
        let a = varint_digits(s.drop_first());
        let p = pow128(s.drop_first().len());
        assert(0 <= 128 * a && 128 * a + 127 < 128 * p) by (nonlinear_arith)
            requires
                0 <= a < p,
        ;
    }
}

pub proof fn lemma_pow128_five()
    ensures
        pow128(5) == 34359738368,
{
    assert(pow128(0) == 1);
    assert(pow128(1) == 128);
    assert(pow128(2) == 16384);
    assert(pow128(3) == 2097152);
    assert(pow128(4) == 268435456);
}

proof fn lemma_pow128_mono(a: nat, b: nat)
    requires
        a <= b,
    ensures
        pow128(a) <= pow128(b),
    decreases b,
{
    if a < b {
        lemma_pow128_mono(a, (b - 1) as nat);
    }
}

pub proof fn lemma_encode_shape(n: nat)
    ensures
        varint_encode(n).len() >= 1,
        varint_digits(varint_encode(n)) == n,
        varint_encode(n)[varint_encode(n).len() - 1] < 128,
        forall|i: int| 0 <= i < varint_encode(n).len() - 1 ==> varint_encode(n)[i] >= 128,
        forall|j: nat| j >= 1 && n < #[trigger] pow128(j) ==> varint_encode(n).len() <= j,
    decreases n,
{
    if n >= 128 {
        lemma_encode_shape(n / 128);
        let e = varint_encode(n);
        let t = varint_encode(n / 128);
        assert(e.drop_first() =~= t);
        assert(e[0] % 128 == n % 128);
        assert(varint_digits(e) == n % 128 + 128 * (n / 128));
        assert forall|j: nat| j >= 1 && n < #[trigger] pow128(j) implies e.len() <= j by {
            assert(pow128(j) == 128 * pow128((j - 1) as nat));
            if j == 1 {
                assert(pow128(0) == 1);
            } else {
                assert(n / 128 < pow128((j - 1) as nat));
            }
        }
        assert forall|i: int| 0 <= i < e.len() - 1 implies e[i] >= 128 by {
            if i > 0 {
                assert(e[i] == t[i - 1]);
            }
        }
    } else {
        assert(varint_encode(n).drop_first() =~= Seq::<u8>::empty());
        assert(varint_digits(Seq::<u8>::empty()) == 0);
    }
}

proof fn lemma_end_of_encoding(e: Seq<u8>, rest: Seq<u8>, i: nat)
    requires
        1 <= e.len() <= 5,
        i < e.len(),
        e[e.len() - 1] < 128,
        forall|j: int| 0 <= j < e.len() - 1 ==> e[j] >= 128,
    ensures
        varint_end(e + rest, i) == Some(e.len()),
    decreases e.len() - i,
{
    if i + 1 < e.len() {
        lemma_end_of_encoding(e, rest, i + 1);
    }
}

/// A non-negative value reads back from its encoding, whatever follows it.
proof fn lemma_varint_roundtrip(v: i32, rest: Seq<u8>)
    requires
        v >= 0,
    ensures
        !varint_overlong(varint_encode(v as nat) + rest),
        varint_parse(varint_encode(v as nat) + rest) == Ok::<(i32, nat), ProtocolError>(
            (v, varint_encode(v as nat).len()),
        ),
{
    let e = varint_encode(v as nat);
    lemma_encode_shape(v as nat);
    lemma_pow128_five();
    assert(v < pow128(5));
    lemma_end_of_encoding(e, rest, 0);
    assert((e + rest).take(e.len() as int) =~= e);
    let s = e + rest;
    assert(s[e.len() - 1] < 128);
}

proof fn lemma_end_bound(s: Seq<u8>, i: nat)
    ensures
        varint_end(s, i) matches Some(k) ==> i < k <= s.len() && k <= 5 && s[k - 1] < 128 && (
        forall|j: int| i <= j < k - 1 ==> s[j] >= 128),
        varint_end(s, i) is None ==> forall|j: int| i <= j < s.len() && j < 5 ==> s[j] >= 128,
    decreases 5 - i,
{
    if i < 5 && i < s.len() && s[i as int] >= 128 {
        lemma_end_bound(s, i + 1);
    }
}

/// A non-negative 32-bit value takes between one and five bytes, and decoding
/// any proper prefix of its encoding runs out of input.
pub proof fn law_varint_length(v: i32)
    requires
        v >= 0,
    ensures
        1 <= varint_encode(v as nat).len() <= 5,
        forall|j: int|
            0 < j < varint_encode(v as nat).len() ==> #[trigger] varint_parse(
                varint_encode(v as nat).take(j),
            ) == Err::<(i32, nat), ProtocolError>(ProtocolError::UnexpectedEof),
{
    let e = varint_encode(v as nat);
    lemma_encode_shape(v as nat);
    lemma_pow128_five();
    assert(v < pow128(5));
    assert forall|j: int| 0 < j < e.len() implies #[trigger] varint_parse(e.take(j)) == Err::<
        (i32, nat),
        ProtocolError,
    >(ProtocolError::UnexpectedEof) by {
        let t = e.take(j);
        lemma_end_bound(t, 0);
        if let Some(k) = varint_end(t, 0) {
            assert(t[k - 1] == e[k - 1]);
        }
    }
}

impl Type for VarInt {
    open spec fn spec_parse(s: Seq<u8>) -> Result<(i32, nat), ProtocolError> {
        varint_parse(s)
    }

    open spec fn spec_panics(s: Seq<u8>) -> bool {
        varint_overlong(s)
    }

    open spec fn spec_serialize(v: i32) -> Seq<u8> {
        if v >= 0 {
            varint_encode(v as nat)
        } else {
            Seq::empty()
        }
    }

    open spec fn spec_writable(v: i32) -> bool {
        v >= 0
    }

    open spec fn spec_wf(v: i32) -> bool {
        v >= 0
    }

    open spec fn prefix_secure() -> bool {
        true
    }

    proof fn lemma_parse_length(s: Seq<u8>) {
        lemma_end_bound(s, 0);
    }

    proof fn lemma_wf_writable(v: i32) {
    }

    proof fn lemma_roundtrip(v: i32, rest: Seq<u8>) {
        lemma_varint_roundtrip(v, rest);
    }

    fn read(reader: &mut Reader<'_>) -> (res: Result<Self, ProtocolError>) {
        let ghost s = reader.remaining();
        let ghost start = reader.pos;
        let mut value: u64 = 0;
        let mut scale: u64 = 1;
        let mut idx: usize = 0;
        proof {
            assert(s.take(0) =~= Seq::<u8>::empty());
        }
        loop
            invariant_except_break
                reader.wf(),
                reader.data == old(reader).data,
                start == old(reader).pos,
                s == old(reader).remaining(),
                !varint_overlong(s),
                idx <= 5,
                reader.pos == start + idx,
                forall|j: int| 0 <= j < idx ==> s[j] >= 128,
                scale == pow128(idx as nat),
                value == varint_digits(s.take(idx as int)),
                varint_end(s, 0) == varint_end(s, idx as nat),
            ensures
                reader.wf(),
                reader.data == old(reader).data,
                idx < 5,
                reader.pos == start + idx + 1,
                varint_end(s, 0) == Some((idx + 1) as nat),
                value == varint_digits(s.take(idx + 1)),
            decreases 5 - idx,
        {
            proof {
                lemma_digits_bound(s.take(idx as int));
                assert(s.take(idx as int).len() == idx);
            }
            let ghost before = reader.pos;
            let byte = match read_u8(reader) {
                Ok(b) => b,
                Err(e) => {
                    return Err(e);
                },
            };
            proof {
                assert(s[idx as int] == byte);
                if idx == 5 {
                    assert(varint_overlong(s));
                }
                lemma_digits_step(s, idx as nat);
                lemma_pow128_five();
                assert(idx < 5);
                lemma_pow128_mono(idx as nat, 4);
                assert(pow128(4) == 268435456) by {
                    lemma_pow128_five();
                }
                assert(value < scale);
                assert(value + ((byte % 128) as int) * scale < 128 * scale) by (nonlinear_arith)
                    requires
                        value < scale,
                        byte % 128 < 128,
                ;
            }
            value = value + ((byte % 128) as u64) * scale;
            if byte < 128 {
                break ;
            }
            idx = idx + 1;
            scale = scale * 128;
        }
        proof {
            lemma_digits_bound(s.take(idx + 1));
            lemma_pow128_mono((idx + 1) as nat, 5);
            lemma_pow128_five();
        }
        let low = value % 0x1_0000_0000;
        let v: i32 = if low >= 0x8000_0000 {
            (low as i64 - 0x1_0000_0000) as i32
        } else {
            low as i32
        };
        Ok(VarInt(v))
    }

    fn write(&self, writer: &mut Vec<u8>) -> (res: Result<(), ProtocolError>) {
        let ghost start = writer@;
        let mut value = self.0;
        loop
            invariant_except_break
                0 <= value,
                start + varint_encode(self.0 as nat) == writer@ + varint_encode(value as nat),
            ensures
                writer@ == start + varint_encode(self.0 as nat),
            decreases value,
        {
            let b = (value % 128) as u8;
            value = value / 128;
            if value != 0 {
                assert(b | 0x80 == b + 128) by (bit_vector)
                    requires
                        b < 128,
                ;
                let ghost w = writer@;
                write_u8(writer, b | 0b1000_0000)?;
                assert(w + varint_encode((value * 128 + b) as nat) =~= writer@ + varint_encode(
                    value as nat,
                ));
            } else {
                let ghost w = writer@;
                write_u8(writer, b)?;
                assert(w + varint_encode(b as nat) =~= writer@);
                break ;
            }
        }
        Ok(())
    }

    fn is_writable(&self) -> (b: bool) {
        self.0 >= 0
    }

    fn read_panics(reader: &Reader<'_>) -> (b: bool) {
        if reader.data.len() - reader.pos < 6 {
            return false;
        }
        let mut i: usize = 0;
        while i < 5
            invariant
                i <= 5,
                reader.wf(),
                reader.data@.len() - reader.pos >= 6,
                reader.data@.len() <= usize::MAX,
                forall|j: int| 0 <= j < i ==> reader.remaining()[j] >= 128,
            decreases 5 - i,
        {
            if reader.data[reader.pos + i] < 128 {
                assert(reader.remaining()[i as int] < 128);
                return false;
            }
            i = i + 1;
        }
        true
    }
}

impl From<VarInt> for i32 {
    fn from(value: VarInt) -> (r: i32) {
        value.0
    }
}

impl vstd::std_specs::convert::FromSpecImpl<VarInt> for i32 {
    open spec fn obeys_from_spec() -> bool {
        true
    }

    open spec fn from_spec(value: VarInt) -> i32 {
        value.0
    }
}

impl From<VarInt> for usize {
    fn from(value: VarInt) -> (r: usize) {
        value.0 as usize
    }
}

impl vstd::std_specs::convert::FromSpecImpl<VarInt> for usize {
    open spec fn obeys_from_spec() -> bool {
        true
    }

    open spec fn from_spec(value: VarInt) -> usize {
        value.0 as usize
    }
}

impl From<VarInt> for u32 {
    fn from(value: VarInt) -> (r: u32) {
        value.0 as u32
    }
}

impl vstd::std_specs::convert::FromSpecImpl<VarInt> for u32 {
    open spec fn obeys_from_spec() -> bool {
        true
    }

    open spec fn from_spec(value: VarInt) -> u32 {
        value.0 as u32
    }
}

} // verus!
