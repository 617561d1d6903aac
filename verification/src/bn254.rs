//! Trusted boundary to the BN254 curve primitives: scalar-field arithmetic
//! from ark-ff/ark-bn254 and the G1 scalar-multiplication and multi-pairing
//! operations from solana-bn254. Everything else in the crate is verified
//! against the contracts stated here.

use crate::bytes::{bytes_be_nat, pow256};
use crate::error::Groth16Error;
use vstd::prelude::*;

verus! {

/// The order of the BN254 scalar field.
pub open spec fn fr_modulus() -> nat {
    21888242871839275222246405745257275088548364400416034343698204186575808495617nat
}

/// The scalar field order fits in 32 bytes.
pub proof fn lemma_fr_modulus_fits()
    ensures
        1 < fr_modulus() < pow256(32),
{
    assert(pow256(32) == 0x10000000000000000000000000000000000000000000000000000000000000000nat)
        by {
        reveal_with_fuel(pow256, 33);
    }
}

/// c^i in the scalar field: the i-th power of c, reduced modulo the field
/// order at every step.
pub open spec fn fr_pow(c: nat, i: nat) -> nat
    decreases i,
{
    if i == 0 {
        1nat % fr_modulus()
    } else {
        (fr_pow(c, (i - 1) as nat) * c) % fr_modulus()
    }
}

/// For a canonical scalar (below the field order), the first power is the
/// scalar itself.
pub proof fn lemma_fr_pow_one(c: nat)
    requires
        c < fr_modulus(),
    ensures
        fr_pow(c, 1) == c,
{
    lemma_fr_modulus_fits();
    vstd::arithmetic::div_mod::lemma_small_mod(1nat, fr_modulus());
    vstd::arithmetic::div_mod::lemma_small_mod(c, fr_modulus());
    assert(fr_pow(c, 0) == 1nat % fr_modulus());
    assert(fr_pow(c, 1) == (fr_pow(c, 0) * c) % fr_modulus());
    assert(1nat * c == c);
}

/// Every power is a canonical scalar.
pub proof fn lemma_fr_pow_bound(c: nat, i: nat)
    ensures
        fr_pow(c, i) < fr_modulus(),
{
    lemma_fr_modulus_fits();
    if i == 0 {
        vstd::arithmetic::div_mod::lemma_small_mod(1nat, fr_modulus());
    } else {
        vstd::arithmetic::div_mod::lemma_mod_division_less_than_divisor(
            (fr_pow(c, (i - 1) as nat) * c) as int,
            fr_modulus() as int,
        );
    }
}

#[verifier::external_type_specification]
#[verifier::external_body]
pub struct ExAltBn128Error(solana_bn254::AltBn128Error);

/// What `alt_bn128_g1_multiplication_be` returns on a given input buffer:
/// `None` where the call is rejected, otherwise the 64 result bytes. The
/// operation is deterministic, so the outcome is a function of the bytes.
pub uninterp spec fn g1_mul_spec(input: Seq<u8>) -> Option<Seq<u8>>;

/// What `alt_bn128_pairing_be` returns on a given input buffer: `None` where
/// the call is rejected, otherwise the 32 result bytes.
pub uninterp spec fn pairing_spec(input: Seq<u8>) -> Option<Seq<u8>>;

/// Relies on `solana_bn254::prelude::alt_bn128_g1_multiplication_be`: reads a
/// 64-byte big-endian G1 point and a 32-byte big-endian scalar from `input`,
/// rejects malformed or off-curve points, and otherwise returns the 64-byte
/// product point. The outcome depends on the input bytes alone.
#[verifier::external_body]
pub(crate) fn g1_mul_be(input: &[u8]) -> (r: Result<Vec<u8>, solana_bn254::AltBn128Error>)
    ensures
        match r {
            Ok(v) => g1_mul_spec(input@) == Some(v@) && v@.len() == 64,
            Err(_) => g1_mul_spec(input@) is None,
        },
{
    solana_bn254::prelude::alt_bn128_g1_multiplication_be(input)
}

/// Relies on `solana_bn254::prelude::alt_bn128_pairing_be`: reads 192-byte
/// terms of a 64-byte G1 point followed by a 128-byte G2 point, big-endian,
/// rejects malformed input, and otherwise returns a 32-byte big-endian 0 or
/// 1, 1 exactly when the product of the pairings is the identity. The outcome
/// depends on the input bytes alone.
#[verifier::external_body]
pub(crate) fn pairing_be(input: &[u8]) -> (r: Result<Vec<u8>, solana_bn254::AltBn128Error>)
    ensures
        match r {
            Ok(v) => {
                &&& pairing_spec(input@) == Some(v@)
                &&& v@.len() == 32
                &&& (v@[31] == 0 || v@[31] == 1)
            },
            Err(_) => pairing_spec(input@) is None,
        },
{
    solana_bn254::prelude::alt_bn128_pairing_be(input)
}

/// Relies on ark-ff's `PrimeField::from_be_bytes_mod_order` for
/// `ark_bn254::Fr`: the bytes are read as a big-endian integer and reduced
/// modulo the field order, and `into_bigint().to_bytes_be()` writes the
/// canonical value back as exactly 32 big-endian bytes.
#[verifier::external_body]
pub(crate) fn fr_reduce_be(input: &[u8]) -> (r: [u8; 32])
    ensures
        bytes_be_nat(r@) == bytes_be_nat(input@) % fr_modulus(),
{
    let fe: ark_bn254::Fr = ark_ff::PrimeField::from_be_bytes_mod_order(input);
    let bytes = ark_ff::BigInteger::to_bytes_be(&ark_ff::PrimeField::into_bigint(fe));
    let mut out = [0u8; 32];
    out.copy_from_slice(&bytes);
    out
}

/// Relies on multiplication in `ark_bn254::Fr` (ark-ff's `Fp256`): the result
/// is the product of the two scalars modulo the field order, as 32 big-endian
/// bytes; inputs at or above the order are reduced first, which does not
/// change the product modulo the order.
#[verifier::external_body]
pub(crate) fn fr_mul_be(a: &[u8; 32], b: &[u8; 32]) -> (r: [u8; 32])
    ensures
        bytes_be_nat(r@) == (bytes_be_nat(a@) * bytes_be_nat(b@)) % fr_modulus(),
{
    let fa: ark_bn254::Fr = ark_ff::PrimeField::from_be_bytes_mod_order(a.as_slice());
    let fb: ark_bn254::Fr = ark_ff::PrimeField::from_be_bytes_mod_order(b.as_slice());
    let bytes = ark_ff::BigInteger::to_bytes_be(&ark_ff::PrimeField::into_bigint(fa * fb));
    let mut out = [0u8; 32];
    out.copy_from_slice(&bytes);
    out
}

/// Relies on `AltBn128Error`'s `Display` impl for the diagnostic text carried
/// into the library's own error value.
#[verifier::external_body]
pub(crate) fn bn_error_text(e: &solana_bn254::AltBn128Error) -> String {
    format!("{e}")
}

/// Wraps a rejected curve-primitive call in the library's error type.
pub(crate) fn bn_error_to_groth16(e: solana_bn254::AltBn128Error) -> (r: Groth16Error)
    ensures
        r matches Groth16Error::SolanaBN254Error(_),
{
    Groth16Error::SolanaBN254Error(bn_error_text(&e))
}

} // verus!
