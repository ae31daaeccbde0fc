//! Variable-length unsigned integer codec used by numeric options.
//!
//! A value is encoded as its minimal big-endian byte sequence: leading zero
//! bytes are dropped, and zero encodes as the empty sequence. Decoding treats
//! the byte sequence as big-endian, zero-extended if shorter than the target
//! width. The codec itself has no error path; length policing is the caller's
//! responsibility.

use vstd::prelude::*;

verus! {

/// The unsigned integer a big-endian byte sequence stands for.
pub open spec fn be_val(b: Seq<u8>) -> nat
    decreases b.len(),
{
    if b.len() == 0 {
        0
    } else {
        (be_val(b.drop_last()) * 256 + b.last()) as nat
    }
}

/// The minimal big-endian encoding of a value: no leading zero byte, and
/// zero encodes as the empty sequence.
pub open spec fn min_be(v: nat) -> Seq<u8>
    decreases v,
{
    if v == 0 {
        Seq::empty()
    } else {
        min_be(v / 256).push((v % 256) as u8)
    }
}

/// Decoding inverts the minimal encoding.
pub proof fn lemma_be_val_min_be(v: nat)
    ensures
        be_val(min_be(v)) == v,
    decreases v,
{
    if v != 0 {
        lemma_be_val_min_be(v / 256);
        assert(min_be(v).drop_last() =~= min_be(v / 256));
    }
}

/// A byte sequence of length k decodes to a value below 256^k.
pub proof fn lemma_be_val_bound(b: Seq<u8>)
    ensures
        be_val(b) < pow256(b.len() as nat),
    decreases b.len(),
{
    if b.len() != 0 {
        lemma_be_val_bound(b.drop_last());
        assert(be_val(b.drop_last()) * 256 + b.last() < pow256(b.len() as nat)) by (nonlinear_arith)
            requires
                be_val(b.drop_last()) < pow256((b.len() - 1) as nat),
                b.last() < 256,
                pow256(b.len() as nat) == pow256((b.len() - 1) as nat) * 256,
        ;
    }
}

/// A byte sequence with a nonzero first byte decodes to a positive value.
pub proof fn lemma_be_val_pos(b: Seq<u8>)
    requires
        b.len() > 0,
        b[0] != 0,
    ensures
        be_val(b) >= 1,
    decreases b.len(),
{
    if b.len() > 1 {
        lemma_be_val_pos(b.drop_last());
    }
}

/// Larger exponents give no smaller powers.
pub proof fn lemma_pow256_monotone(j: nat, k: nat)
    requires
        j <= k,
    ensures
        pow256(j) <= pow256(k),
    decreases k,
{
    if j < k {
        lemma_pow256_monotone(j, (k - 1) as nat);
    }
}

/// Encoding inverts decoding on sequences without a leading zero byte: the
/// minimal encoding of a decoded value reproduces the bytes.
pub proof fn lemma_min_be_of_be_val(b: Seq<u8>)
    requires
        b.len() == 0 || b[0] != 0,
    ensures
        min_be(be_val(b)) == b,
    decreases b.len(),
{
    reveal_with_fuel(min_be, 3);
    if b.len() == 0 {
        assert(min_be(0) =~= b);
    } else {
        let dl = b.drop_last();
        let v = be_val(b);
        assert(v == be_val(dl) * 256 + b.last());
        assert(v / 256 == be_val(dl) && v % 256 == b.last()) by (nonlinear_arith)
            requires
                v == be_val(dl) * 256 + b.last(),
                0 <= b.last() < 256,
        ;
        if dl.len() == 0 {
            assert(v == b.last());
            assert(v != 0);
            assert(min_be(v) =~= b);
        } else {
            assert(dl[0] == b[0]);
            lemma_be_val_pos(dl);
            lemma_min_be_of_be_val(dl);
            assert(v != 0);
            assert(min_be(v) == min_be(be_val(dl)).push(b.last()));
            assert(dl.push(b.last()) =~= b);
        }
    }
}

/// 256 raised to the k-th power.
pub open spec fn pow256(k: nat) -> nat
    decreases k,
{
    if k == 0 {
        1
    } else {
        pow256((k - 1) as nat) * 256
    }
}

/// Encodes a value below 256 into its minimal big-endian form (at most one byte).
pub fn encode_var_len_u8(value: u8) -> (r: Vec<u8>)
    ensures
        r@ == min_be(value as nat),
        r@.len() <= 1,
{
    let mut r: Vec<u8> = Vec::new();
    if value != 0 {
        r.push(value);
    }
    proof {
        reveal_with_fuel(min_be, 3);
        assert(min_be(value as nat) =~= r@);
    }
    r
}

/// Encodes a value below 2^16 into its minimal big-endian form (at most two bytes).
pub fn encode_var_len_u16(value: u16) -> (r: Vec<u8>)
    ensures
        r@ == min_be(value as nat),
        r@.len() <= 2,
{
    let mut r: Vec<u8> = Vec::new();
    if value >= 256 {
        r.push((value / 256) as u8);
    }
    if value != 0 {
        r.push((value % 256) as u8);
    }
    proof {
        reveal_with_fuel(min_be, 4);
        assert(min_be(value as nat) =~= r@);
    }
    r
}

/// Encodes a value below 2^32 into its minimal big-endian form (at most four bytes).
pub fn encode_var_len_u32(value: u32) -> (r: Vec<u8>)
    ensures
        r@ == min_be(value as nat),
        r@.len() <= 4,
{
    let mut r: Vec<u8> = Vec::new();
    if value >= 16777216 {
        r.push((value / 16777216) as u8);
    }
    if value >= 65536 {
        r.push((value / 65536 % 256) as u8);
    }
    if value >= 256 {
        r.push((value / 256 % 256) as u8);
    }
    if value != 0 {
        r.push((value % 256) as u8);
    }
    proof {
        reveal_with_fuel(min_be, 6);
        let v = value as int;
        if value >= 65536 {
            vstd::arithmetic::div_mod::lemma_div_denominator(v, 256, 256);
            assert(v / 256 / 256 == v / 65536);
        }
        if value >= 16777216 {
            vstd::arithmetic::div_mod::lemma_div_denominator(v, 65536, 256);
            assert(v / 65536 / 256 == v / 16777216);
        }
        assert(min_be(value as nat) =~= r@);
    }
    r
}

/// Decodes a big-endian byte sequence of at most two bytes, zero-extending
/// shorter sequences.
pub fn decode_var_len_u16(bytes: &Vec<u8>) -> (r: u16)
    requires
        bytes@.len() <= 2,
    ensures
        r == be_val(bytes@),
{
    let mut r: u16 = 0;
    let mut i: usize = 0;
    proof {
        assert(bytes@.take(0) =~= Seq::<u8>::empty());
    }
    while i < bytes.len()
        invariant
            i <= bytes@.len(),
            bytes@.len() <= 2,
            r == be_val(bytes@.take(i as int)),
            r < pow256(i as nat),
        decreases bytes@.len() - i,
    {
        proof {
            reveal_with_fuel(pow256, 6);
            assert(bytes@.take(i + 1).drop_last() =~= bytes@.take(i as int));
            assert(bytes@.take(i + 1).last() == bytes@[i as int]);
        }
        r = r * 256 + bytes[i] as u16;
        i = i + 1;
    }
    proof {
        assert(bytes@.take(bytes@.len() as int) =~= bytes@);
    }
    r
}

/// Decodes a big-endian byte sequence of at most four bytes, zero-extending
/// shorter sequences.
pub fn decode_var_len_u32(bytes: &Vec<u8>) -> (r: u32)
    requires
        bytes@.len() <= 4,
    ensures
        r == be_val(bytes@),
{
    let mut r: u32 = 0;
    let mut i: usize = 0;
    proof {
        assert(bytes@.take(0) =~= Seq::<u8>::empty());
    }
    while i < bytes.len()
        invariant
            i <= bytes@.len(),
            bytes@.len() <= 4,
            r == be_val(bytes@.take(i as int)),
            r < pow256(i as nat),
        decreases bytes@.len() - i,
    {
        proof {
            reveal_with_fuel(pow256, 6);
            assert(bytes@.take(i + 1).drop_last() =~= bytes@.take(i as int));
            assert(bytes@.take(i + 1).last() == bytes@[i as int]);
        }
        r = r * 256 + bytes[i] as u32;
        i = i + 1;
    }
    proof {
        assert(bytes@.take(bytes@.len() as int) =~= bytes@);
    }
    r
}

} // verus!
