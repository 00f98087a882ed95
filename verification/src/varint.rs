//! Unsigned varints (LEB128): the mathematical model of the encoding and the
//! two calls into the `unsigned-varint` crate that produce and read it.

use vstd::prelude::*;

verus! {

/// The varint encoding of `n`: seven bits per byte, least significant group
/// first, the top bit set on every byte but the last.
pub open spec fn varint_bytes(n: nat) -> Seq<u8>
    decreases n,
{
    if n < 128 {
        seq![n as u8]
    } else {
        seq![((n % 128) + 128) as u8] + varint_bytes(n / 128)
    }
}

/// The number that a run of seven-bit groups stands for, least significant
/// group first. The top bit of each byte is ignored.
pub open spec fn varint_value(bytes: Seq<u8>) -> nat
    decreases bytes.len(),
{
    if bytes.len() == 0 {
        0
    } else {
        (bytes[0] % 128) as nat + 128 * varint_value(bytes.drop_first())
    }
}

/// How many bytes at the front of `bytes` have their top bit set.
pub open spec fn continuation_run(bytes: Seq<u8>) -> nat
    decreases bytes.len(),
{
    if bytes.len() == 0 || bytes[0] < 128 {
        0
    } else {
        1 + continuation_run(bytes.drop_first())
    }
}

/// Two to the power sixty-four: decoded values are kept modulo this.
pub open spec fn word_modulus() -> nat {
    0x1_0000_0000_0000_0000
}

/// What decoding `bytes` as a 64-bit varint gives. The varint ends at the
/// first byte whose top bit is clear; it must lie among the first ten bytes
/// and, unless it is the only byte, must not be zero. Bits of the tenth
/// group that do not fit in 64 bits are dropped.
pub open spec fn decoded_length(bytes: Seq<u8>) -> Option<u64> {
    let run = continuation_run(bytes);
    if run >= bytes.len() || run > 9 {
        None
    } else if bytes[run as int] == 0 && run > 0 {
        None
    } else {
        Some((varint_value(bytes.take((run + 1) as int)) % word_modulus()) as u64)
    }
}

/// `unsigned_varint::encode::usize`, copied out of its scratch buffer. The
/// contract claims that the bytes written are the varint encoding of `n`.
#[verifier::external_body]
pub(crate) fn encode_length(n: usize) -> (out: Vec<u8>)
    ensures
        out@ == varint_bytes(n as nat),
{
    let mut buf = unsigned_varint::encode::usize_buffer();
    unsigned_varint::encode::usize(n, &mut buf).to_vec()
}

/// `unsigned_varint::decode::u64`, with the rest of the slice and the kind of
/// error dropped. The contract claims that the call succeeds exactly when
/// `decoded_length` is `Some`, and then returns that value.
#[verifier::external_body]
pub(crate) fn decode_length(buf: &[u8]) -> (res: Option<u64>)
    ensures
        res == decoded_length(buf@),
{
    match unsigned_varint::decode::u64(buf) {
        Ok((n, _)) => Some(n),
        Err(_) => None,
    }
}

/// A run of continuation bytes that stops at `i` (at a terminator or at the
/// end of the sequence) has length `i`.
pub proof fn lemma_continuation_run(bytes: Seq<u8>, i: nat)
    requires
        i <= bytes.len(),
        forall|j: int| 0 <= j < i ==> bytes[j] >= 128,
        i == bytes.len() || bytes[i as int] < 128,
    ensures
        continuation_run(bytes) == i,
    decreases i,
{
    if i > 0 {
        let rest = bytes.drop_first();
        assert forall|j: int| 0 <= j < i - 1 implies rest[j] >= 128 by {
            assert(rest[j] == bytes[j + 1]);
        }
        lemma_continuation_run(rest, (i - 1) as nat);
    }
}

/// Bytes after the first terminator do not change where the run stops.
pub proof fn lemma_continuation_run_append(head: Seq<u8>, tail: Seq<u8>)
    requires
        continuation_run(head) < head.len(),
    ensures
        continuation_run(head + tail) == continuation_run(head),
    decreases head.len(),
{
    let all = head + tail;
    assert(all[0] == head[0]);
    if head[0] >= 128 {
        assert(all.drop_first() =~= head.drop_first() + tail);
        lemma_continuation_run_append(head.drop_first(), tail);
    }
}

/// Powers of 128, the weight of each varint group.
pub open spec fn pow128(k: nat) -> nat
    decreases k,
{
    if k == 0 {
        1
    } else {
        128 * pow128((k - 1) as nat)
    }
}

/// The shape of an encoding: it is never empty, only its last byte has the
/// top bit clear, the last byte is zero only when it is the only byte, and
/// the bytes stand for `n` again.
pub proof fn lemma_varint_bytes_shape(n: nat)
    ensures
        varint_bytes(n).len() >= 1,
        continuation_run(varint_bytes(n)) == varint_bytes(n).len() - 1,
        varint_bytes(n).last() < 128,
        varint_bytes(n).last() == 0 ==> varint_bytes(n).len() == 1,
        varint_value(varint_bytes(n)) == n,
    decreases n,
{
    let v = varint_bytes(n);
    if n < 128 {
        assert(v =~= seq![n as u8]);
        assert(v.drop_first() =~= Seq::<u8>::empty());
        assert(varint_value(v.drop_first()) == 0);
    } else {
        let rest = varint_bytes(n / 128);
        lemma_varint_bytes_shape(n / 128);
        assert(v =~= seq![((n % 128) + 128) as u8] + rest);
        assert(v.drop_first() =~= rest);
        assert(v[0] >= 128);
        assert(v.last() == rest.last());
        assert(n / 128 >= 1);
        if rest.last() == 0 {
            assert(rest.len() == 1);
            assert(rest[0] == 0);
            assert(varint_value(rest) == n / 128);
            assert(rest.drop_first() =~= Seq::<u8>::empty());
            assert(varint_value(rest) == 0);
        }
        assert(v[0] % 128 == n % 128);
        assert(n == (n % 128) + 128 * (n / 128));
    }
}

/// A number below `128^k` is encoded in at most `k` bytes.
pub proof fn lemma_varint_bytes_len(n: nat, k: nat)
    requires
        k >= 1,
        n < pow128(k),
    ensures
        varint_bytes(n).len() <= k,
    decreases n,
{
    if n >= 128 {
        if k == 1 {
            assert(pow128(1) == 128 * pow128(0));
        }
        assert(pow128(k) == 128 * pow128((k - 1) as nat));
        assert(n / 128 < pow128((k - 1) as nat));
        if k == 2 {
            assert(pow128(1) == 128 * pow128(0));
        }
        lemma_varint_bytes_len(n / 128, (k - 1) as nat);
    }
}

/// Every 64-bit number is encoded in at most ten bytes.
pub proof fn lemma_varint_bytes_len_u64(n: nat)
    requires
        n < word_modulus(),
    ensures
        varint_bytes(n).len() <= 10,
{
    assert(pow128(0) == 1);
    assert(pow128(1) == 128 * pow128(0));
    assert(pow128(2) == 128 * pow128(1));
    assert(pow128(3) == 128 * pow128(2));
    assert(pow128(4) == 128 * pow128(3));
    assert(pow128(5) == 128 * pow128(4));
    assert(pow128(6) == 128 * pow128(5));
    assert(pow128(7) == 128 * pow128(6));
    assert(pow128(8) == 128 * pow128(7));
    assert(pow128(9) == 128 * pow128(8));
    assert(pow128(10) == 128 * pow128(9));
    lemma_varint_bytes_len(n, 10);
}

/// Decoding the encoding of a 64-bit number, whatever follows it, gives the
/// number back.
pub proof fn lemma_decode_encoded(n: nat, tail: Seq<u8>)
    requires
        n < word_modulus(),
    ensures
        decoded_length(varint_bytes(n)) == Some(n as u64),
        continuation_run(varint_bytes(n) + tail) == varint_bytes(n).len() - 1,
{
    let v = varint_bytes(n);
    lemma_varint_bytes_shape(n);
    lemma_varint_bytes_len_u64(n);
    lemma_continuation_run_append(v, tail);
    assert(v.take(v.len() as int) =~= v);
}

} // verus!
