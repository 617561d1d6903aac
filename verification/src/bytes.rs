//! Big-endian interpretation of byte strings as natural numbers, and the
//! inverse encoding at a fixed width. The pairing verifier and the
//! hash-to-field construction state their contracts in terms of these.

use vstd::arithmetic::div_mod::{
    lemma_breakdown, lemma_fundamental_div_mod, lemma_small_mod,
};
use vstd::prelude::*;

verus! {

/// 256^n, the number of byte strings of length n.
pub open spec fn pow256(n: nat) -> nat
    decreases n,
{
    if n == 0 {
        1
    } else {
        256 * pow256((n - 1) as nat)
    }
}

/// The natural number that a byte string denotes, most significant byte first.
pub open spec fn bytes_be_nat(s: Seq<u8>) -> nat
    decreases s.len(),
{
    if s.len() == 0 {
        0
    } else {
        bytes_be_nat(s.drop_last()) * 256nat + (s.last() as nat)
    }
}

/// The `len`-byte big-endian encoding of `v % 256^len`.
pub open spec fn nat_to_bytes_be(v: nat, len: nat) -> Seq<u8>
    decreases len,
{
    if len == 0 {
        Seq::empty()
    } else {
        nat_to_bytes_be(v / 256, (len - 1) as nat).push((v % 256) as u8)
    }
}

pub proof fn lemma_pow256_pos(n: nat)
    ensures
        pow256(n) >= 1,
    decreases n,
{
    if n > 0 {
        lemma_pow256_pos((n - 1) as nat);
    }
}

/// A byte string of length n denotes a value below 256^n.
pub proof fn lemma_bytes_be_nat_bound(s: Seq<u8>)
    ensures
        bytes_be_nat(s) < pow256(s.len()),
    decreases s.len(),
{
    if s.len() > 0 {
        lemma_bytes_be_nat_bound(s.drop_last());
    }
}

pub proof fn lemma_nat_to_bytes_be_len(v: nat, len: nat)
    ensures
        nat_to_bytes_be(v, len).len() == len,
    decreases len,
{
    if len > 0 {
        lemma_nat_to_bytes_be_len(v / 256, (len - 1) as nat);
    }
}

/// Decoding the fixed-width encoding gives back the value, reduced to width.
pub proof fn lemma_nat_to_bytes_be_decodes(v: nat, len: nat)
    ensures
        bytes_be_nat(nat_to_bytes_be(v, len)) == v % pow256(len),
    decreases len,
{
    if len == 0 {
        vstd::arithmetic::div_mod::lemma_mod_division_less_than_divisor(v as int, 1);
    } else {
        let m = pow256((len - 1) as nat);
        let prefix = nat_to_bytes_be(v / 256, (len - 1) as nat);
        let whole = prefix.push((v % 256) as u8);
        lemma_nat_to_bytes_be_decodes(v / 256, (len - 1) as nat);
        lemma_pow256_pos((len - 1) as nat);
        assert(whole.drop_last() =~= prefix);
        assert(bytes_be_nat(whole) == ((v / 256) % m) * 256 + v % 256);
        lemma_breakdown(v as int, 256, m as int);
        assert(pow256(len) == 256 * m);
        assert(v % (256 * m) as nat == 256 * ((v / 256) % m) + v % 256);
    }
}

pub proof fn lemma_nat_to_bytes_be_exact(v: nat, len: nat)
    requires
        v < pow256(len),
    ensures
        bytes_be_nat(nat_to_bytes_be(v, len)) == v,
{
    lemma_nat_to_bytes_be_decodes(v, len);
    lemma_small_mod(v, pow256(len));
}

/// At a fixed length the big-endian denotation is injective: two byte strings
/// of the same length with the same value are equal.
pub proof fn lemma_bytes_be_nat_injective(a: Seq<u8>, b: Seq<u8>)
    requires
        a.len() == b.len(),
        bytes_be_nat(a) == bytes_be_nat(b),
    ensures
        a == b,
    decreases a.len(),
{
    if a.len() > 0 {
        let va = bytes_be_nat(a.drop_last());
        let vb = bytes_be_nat(b.drop_last());
        assert(va * 256 + a.last() == vb * 256 + b.last());
        lemma_fundamental_div_mod((va * 256 + a.last()) as int, 256);
        lemma_small_mod(a.last() as nat, 256);
        lemma_small_mod(b.last() as nat, 256);
        assert((va * 256 + a.last()) as nat % 256 == a.last()) by {
            lemma_mod_multiple_plus_rest(va as int, a.last() as int);
        }
        assert((vb * 256 + b.last()) as nat % 256 == b.last()) by {
            lemma_mod_multiple_plus_rest(vb as int, b.last() as int);
        }
        assert(a.last() == b.last());
        assert(va == vb);
        lemma_bytes_be_nat_injective(a.drop_last(), b.drop_last());
        assert(a =~= a.drop_last().push(a.last()));
        assert(b =~= b.drop_last().push(b.last()));
    } else {
        assert(a =~= b);
    }
}

proof fn lemma_mod_multiple_plus_rest(q: int, r: int)
    requires
        0 <= q,
        0 <= r < 256,
    ensures
        (q * 256 + r) % 256 == r,
{
    vstd::arithmetic::div_mod::lemma_mod_multiples_vanish(q, r, 256);
    lemma_small_mod(r as nat, 256);
}

/// For a byte array the deep view and the plain view agree.
pub proof fn lemma_bytes_array_deep_view<const N: usize>(a: [u8; N])
    ensures
        a.deep_view() == a@,
{
    assert(a.deep_view() =~= a@);
}

/// Pointwise exclusive-or of two byte strings of equal length.
pub open spec fn xor_bytes(a: Seq<u8>, b: Seq<u8>) -> Seq<u8> {
    Seq::new(a.len(), |i: int| a[i] ^ b[i])
}

} // verus!
