use crate::protocol::error::ProtocolError;
use crate::protocol::types::Reader;
use crate::protocol::utils::read_u8;
use vstd::prelude::*;

verus! {

/// `256` to the power `k`.
pub open spec fn pow256(k: nat) -> nat
    decreases k,
{
    if k == 0 {
        1
    } else {
        256 * pow256((k - 1) as nat)
    }
}

/// The unsigned number that `s` spells, most significant byte first.
pub open spec fn be_value(s: Seq<u8>) -> nat
    decreases s.len(),
{
    if s.len() == 0 {
        0
    } else {
        be_value(s.drop_last()) * 256 + s.last() as nat
    }
}

/// The low `k` bytes of `n`, most significant first.
pub open spec fn be_bytes(n: nat, k: nat) -> Seq<u8>
    decreases k,
{
    if k == 0 {
        Seq::empty()
    } else {
        be_bytes(n / 256, (k - 1) as nat).push((n % 256) as u8)
    }
}

/// The result of reading a `k`-byte big-endian number at the front of `s`.
pub open spec fn be_parse(s: Seq<u8>, k: nat) -> Result<(nat, nat), ProtocolError> {
    if s.len() < k {
        Err(ProtocolError::UnexpectedEof)
    } else {
        Ok((be_value(s.take(k as int)), k))
    }
}

pub proof fn lemma_pow256_values()
    ensures
        pow256(0) == 1,
        pow256(1) == 0x100,
        pow256(2) == 0x1_0000,
        pow256(3) == 0x100_0000,
        pow256(4) == 0x1_0000_0000,
        pow256(5) == 0x100_0000_0000,
        pow256(6) == 0x1_0000_0000_0000,
        pow256(7) == 0x100_0000_0000_0000,
        pow256(8) == 0x1_0000_0000_0000_0000,
{
    assert(pow256(0) == 1);
    assert(pow256(1) == 0x100);
    assert(pow256(2) == 0x1_0000);
    assert(pow256(3) == 0x100_0000);
    assert(pow256(4) == 0x1_0000_0000);
    assert(pow256(5) == 0x100_0000_0000);
    assert(pow256(6) == 0x1_0000_0000_0000);
    assert(pow256(7) == 0x100_0000_0000_0000);
}

pub proof fn lemma_be_value_bound(s: Seq<u8>)
    ensures
        be_value(s) < pow256(s.len()),
    decreases s.len(),
{
    if s.len() > 0 {
        lemma_be_value_bound(s.drop_last());
        let a = be_value(s.drop_last());
        let p = pow256(s.drop_last().len());
        assert(a * 256 + 255 < 256 * p) by (nonlinear_arith)
            requires
                a < p,
        ;
    }
}

/// A number below `256^k` reads back from its `k` bytes.
pub proof fn lemma_be_roundtrip(n: nat, k: nat)
    requires
        n < pow256(k),
    ensures
        be_bytes(n, k).len() == k,
        be_value(be_bytes(n, k)) == n,
    decreases k,
{
    if k > 0 {
        assert(n / 256 < pow256((k - 1) as nat));
        lemma_be_roundtrip(n / 256, (k - 1) as nat);
        assert(be_bytes(n, k).drop_last() =~= be_bytes(n / 256, (k - 1) as nat));
    }
}

/// Reads a `k`-byte big-endian number.
pub fn read_be(reader: &mut Reader<'_>, k: usize) -> (res: Result<u64, ProtocolError>)
    requires
        old(reader).wf(),
        k <= 8,
    ensures
        final(reader).wf(),
        final(reader).data == old(reader).data,
        match res {
            Ok(v) => be_parse(old(reader).remaining(), k as nat) == Ok::<(nat, nat), ProtocolError>(
                (v as nat, k as nat),
            ) && final(reader).pos == old(reader).pos + k,
            Err(e) => be_parse(old(reader).remaining(), k as nat) == Err::<(nat, nat), ProtocolError>(
                e,
            ),
        },
{
    let ghost s = reader.remaining();
    if reader.data.len() - reader.pos < k {
        return Err(ProtocolError::UnexpectedEof);
    }
    let mut acc: u64 = 0;
    let mut i: usize = 0;
    assert(s.take(0) =~= Seq::<u8>::empty());
    while i < k
        invariant
            reader.wf(),
            reader.data == old(reader).data,
            s == old(reader).remaining(),
            s.len() >= k,
            k <= 8,
            i <= k,
            reader.pos == old(reader).pos + i,
            acc == be_value(s.take(i as int)),
        decreases k - i,
    {
        proof {
            lemma_be_value_bound(s.take(i as int));
            lemma_pow256_values();
            assert(pow256(i as nat) <= pow256(7)) by {
                lemma_pow256_mono(i as nat, 7);
            }
        }
        let b = read_u8(reader).unwrap();
        proof {
            assert(s.take(i + 1).drop_last() =~= s.take(i as int));
            assert(s[i as int] == b);
        }
        acc = acc * 256 + b as u64;
        i = i + 1;
    }
    Ok(acc)
}

pub proof fn lemma_pow256_mono(a: nat, b: nat)
    requires
        a <= b,
    ensures
        pow256(a) <= pow256(b),
    decreases b,
{
    if a < b {
        lemma_pow256_mono(a, (b - 1) as nat);
    }
}

/// Appends the low `k` bytes of `n`, most significant first.
pub fn write_be(writer: &mut Vec<u8>, n: u64, k: usize)
    requires
        k <= 8,
    ensures
        final(writer)@ == old(writer)@ + be_bytes(n as nat, k as nat),
    decreases k,
{
    if k > 0 {
        write_be(writer, n / 256, k - 1);
        writer.push((n % 256) as u8);
        assert(be_bytes(n as nat, k as nat) == be_bytes((n / 256) as nat, (k - 1) as nat).push(
            (n % 256) as u8,
        ));
    } else {
        assert(be_bytes(n as nat, 0) =~= Seq::<u8>::empty());
    }
}

} // verus!
