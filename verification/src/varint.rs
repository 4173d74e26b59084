use vstd::prelude::*;

verus! {

/// Mathematical reading of an unsigned LEB128 integer at the head of `s`:
/// each byte contributes its low 7 bits, least-significant group first, and a
/// set high bit means another byte follows. Yields the decoded value and the
/// number of bytes the encoding occupies, or `None` when no terminating byte
/// (high bit clear) is present in `s`.
pub open spec fn leb128_decode(s: Seq<u8>) -> Option<(nat, nat)>
    decreases s.len(),
{
    if s.len() == 0 {
        None
    } else if s[0] < 0x80 {
        Some((s[0] as nat, 1 as nat))
    } else {
        match leb128_decode(s.skip(1)) {
            Some((v, n)) => Some((((s[0] - 0x80) + v * 128) as nat, (n + 1) as nat)),
            None => None,
        }
    }
}

/// The exact outcome of reading an unsigned LEB128 integer into a `u64`:
/// reading fails when no terminating byte is present, and also when the
/// encoding runs past 10 bytes or its value past 64 bits.
pub open spec fn leb128_u64(s: Seq<u8>) -> Option<(nat, nat)> {
    match leb128_decode(s) {
        Some((v, n)) => if v < 0x1_0000_0000_0000_0000 && n <= 10 {
            Some((v, n))
        } else {
            None
        },
        None => None,
    }
}

/// The unsigned LEB128 encoding of `v`: seven low bits per byte,
/// least-significant group first, the high bit marking a continuation.
pub open spec fn leb128_encode(v: nat) -> Seq<u8>
    decreases v,
{
    if v < 128 {
        seq![v as u8]
    } else {
        seq![(128 + v % 128) as u8] + leb128_encode(v / 128)
    }
}

/// 128 raised to `k`: the number of values that `k` LEB128 bytes can carry.
pub open spec fn pow128(k: nat) -> nat
    decreases k,
{
    if k == 0 {
        1
    } else {
        128 * pow128((k - 1) as nat)
    }
}

/// Decoding what `leb128_encode` produced yields the encoded value back and
/// consumes the whole encoding.
proof fn lemma_leb128_decode_encode(v: nat)
    ensures
        leb128_decode(leb128_encode(v)) == Some((v, leb128_encode(v).len() as nat)),
    decreases v,
{
    if v < 128 {
    } else {
        lemma_leb128_decode_encode(v / 128);
        let e = leb128_encode(v);
        assert(e.skip(1) =~= leb128_encode(v / 128));
        vstd::arithmetic::div_mod::lemma_fundamental_div_mod(v as int, 128);
    }
}

/// A value below `pow128(k)` encodes in at most `k` bytes.
proof fn lemma_leb128_encode_len(v: nat, k: nat)
    requires
        1 <= k,
        v < pow128(k),
    ensures
        leb128_encode(v).len() <= k,
    decreases k,
{
    if v < 128 {
    } else {
        assert(pow128(1) == 128 * pow128(0));
        if k == 1 {
            assert(false);
        } else {
            assert(pow128(k) == 128 * pow128((k - 1) as nat));
            assert((v / 128) * 128 <= v) by {
                vstd::arithmetic::div_mod::lemma_fundamental_div_mod(v as int, 128);
            }
            assert(v / 128 < pow128((k - 1) as nat)) by {
                if v / 128 >= pow128((k - 1) as nat) {
                    assert((v / 128) * 128 >= pow128((k - 1) as nat) * 128) by (nonlinear_arith)
                        requires v / 128 >= pow128((k - 1) as nat);
                }
            }
            lemma_leb128_encode_len(v / 128, (k - 1) as nat);
        }
    }
}

/// Law (varint round-trip): for every unsigned 64-bit value, decoding the
/// unsigned LEB128 encoding of that value yields the value back and consumes
/// exactly the number of bytes the encoding produced.
pub proof fn lemma_leb128_round_trip(v: u64)
    ensures
        leb128_u64(leb128_encode(v as nat)) == Some((v as nat, leb128_encode(v as nat).len() as nat)),
{
    lemma_leb128_decode_encode(v as nat);
    assert(pow128(1) == 128 * pow128(0));
    assert(pow128(2) == 128 * pow128(1));
    assert(pow128(3) == 128 * pow128(2));
    assert(pow128(4) == 128 * pow128(3));
    assert(pow128(5) == 128 * pow128(4));
    assert(pow128(6) == 128 * pow128(5));
    assert(pow128(7) == 128 * pow128(6));
    assert(pow128(8) == 128 * pow128(7));
    assert(pow128(9) == 128 * pow128(8));
    assert(pow128(10) == 128 * pow128(9));
    lemma_leb128_encode_len(v as nat, 10);
}

/// Relies on leb128::read::unsigned: reads one unsigned LEB128 integer from
/// the front of the window `bytes[start..end]`. On success it returns the
/// value and how many bytes of the window are left unread; it fails exactly
/// when no terminating byte lies in the window, or when the encoding runs
/// past 10 bytes or its value past 64 bits (a 10th byte above 0x01).
#[verifier::external_body]
pub(crate) fn leb128_read(bytes: &Vec<u8>, start: usize, end: usize) -> (r: Result<(u64, usize), ()>)
    requires
        start <= end <= bytes.len(),
    ensures
        match r {
            Ok(vr) => vr.1 <= end - start && leb128_u64(
                bytes@.subrange(start as int, end as int),
            ) == Some((vr.0 as nat, ((end - start) - vr.1) as nat)),
            Err(_) => leb128_u64(bytes@.subrange(start as int, end as int)) is None,
        },
{
    let mut s: &[u8] = &bytes[start..end];
    match leb128::read::unsigned(&mut s) {
        Ok(v) => Ok((v, s.len())),
        Err(_) => Err(()),
    }
}

} // verus!
