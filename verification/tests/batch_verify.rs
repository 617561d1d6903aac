//! End-to-end tests of the batched Pedersen verifier against the real BN254
//! primitives: valid instances are constructed from known exponents, so the
//! pairing product is the identity exactly when the verifier should accept.

use ark_bn254::{Fq, Fr, G1Affine, G2Affine};
use ark_ec::{AffineRepr, CurveGroup};
use ark_ff::{BigInteger, Field, PrimeField};
use verifier_lib::commitments::{batch_verify_pedersen, derive_challenge};
use verifier_lib::error::Groth16Error;

fn fq_be(f: &Fq) -> [u8; 32] {
    let v = f.into_bigint().to_bytes_be();
    let mut out = [0u8; 32];
    out.copy_from_slice(&v);
    out
}

fn fr_be(f: &Fr) -> [u8; 32] {
    let v = f.into_bigint().to_bytes_be();
    let mut out = [0u8; 32];
    out.copy_from_slice(&v);
    out
}

/// EIP-197 big-endian encoding of a G1 point: be(x) || be(y).
fn g1_bytes(p: &G1Affine) -> [u8; 64] {
    let mut out = [0u8; 64];
    if p.is_zero() {
        return out;
    }
    out[..32].copy_from_slice(&fq_be(&p.x));
    out[32..].copy_from_slice(&fq_be(&p.y));
    out
}

/// EIP-197 big-endian encoding of a G2 point: be(x1) || be(x0) || be(y1) || be(y0).
fn g2_bytes(p: &G2Affine) -> [u8; 128] {
    let mut out = [0u8; 128];
    if p.is_zero() {
        return out;
    }
    out[0..32].copy_from_slice(&fq_be(&p.x.c1));
    out[32..64].copy_from_slice(&fq_be(&p.x.c0));
    out[64..96].copy_from_slice(&fq_be(&p.y.c1));
    out[96..128].copy_from_slice(&fq_be(&p.y.c0));
    out
}

fn g1_gen_mul(s: Fr) -> G1Affine {
    (G1Affine::generator() * s).into_affine()
}

fn g2_gen_mul(s: Fr) -> G2Affine {
    (G2Affine::generator() * s).into_affine()
}

fn commitments_from_exponents(a: &[u64]) -> Vec<[u8; 64]> {
    a.iter().map(|ai| g1_bytes(&g1_gen_mul(Fr::from(*ai)))).collect()
}

/// Builds a verifying key and proof-of-knowledge element that make the
/// batched pairing product the identity for the given commitment exponents
/// and challenge: with C_i = a_i G1, H_i = h_i G2, B = b G2, the product of
/// the pairings has exponent sum(a_i c^i h_i) + k b, so k is chosen to cancel
/// it.
fn vk_and_pok(a: &[u64], h: &[u64], b: u64, challenge: &[u8; 32]) -> (Vec<[u8; 256]>, [u8; 64]) {
    assert_eq!(a.len(), h.len());
    let c = Fr::from_be_bytes_mod_order(challenge);
    let bf = Fr::from(b);
    let base = g2_bytes(&g2_gen_mul(bf));
    let mut vk: Vec<[u8; 256]> = Vec::new();
    let mut acc = Fr::from(0u64);
    let mut cpow = Fr::from(1u64);
    for i in 0..a.len() {
        let hi = Fr::from(h[i]);
        let mut entry = [0u8; 256];
        entry[..128].copy_from_slice(&base);
        entry[128..].copy_from_slice(&g2_bytes(&g2_gen_mul(hi)));
        vk.push(entry);
        acc += Fr::from(a[i]) * cpow * hi;
        cpow *= c;
    }
    let k = -acc * bf.inverse().unwrap();
    (vk, g1_bytes(&g1_gen_mul(k)))
}

fn small_challenge(v: u64) -> [u8; 32] {
    fr_be(&Fr::from(v))
}

fn length_mismatch_err() -> Groth16Error {
    Groth16Error::PedersenVerificationError("commitments lengths mismatch".to_string())
}

#[test]
fn length_mismatch_rejected_for_all_small_sizes() {
    let challenge = small_challenge(7);
    let lens: [usize; 4] = [0, 1, 2, 5];
    let pok = [1u8; 64];
    for &vl in lens.iter() {
        for &cl in lens.iter() {
            if vl == cl {
                continue;
            }
            let vk: Vec<[u8; 256]> = vec![[2u8; 256]; vl];
            let comms: Vec<[u8; 64]> = vec![[3u8; 64]; cl];
            let r = batch_verify_pedersen(&vk, &comms, &pok, &challenge);
            assert_eq!(r.unwrap_err(), length_mismatch_err());
        }
    }
}

#[test]
fn shared_base_mismatch_rejected_even_for_valid_pairing() {
    // A fully valid two-commitment instance...
    let challenge = small_challenge(11);
    let a = [3u64, 4];
    let comms = commitments_from_exponents(&a);
    let (mut vk, pok) = vk_and_pok(&a, &[5, 6], 9, &challenge);
    assert!(batch_verify_pedersen(&vk, &comms, &pok, &challenge).is_ok());
    // ...fails with the parameter-mismatch error once one entry disagrees on
    // the shared base, although the pairing itself would still succeed for
    // the same terms.
    vk[1][17] ^= 0x01;
    let r = batch_verify_pedersen(&vk, &comms, &pok, &challenge);
    assert_eq!(
        r.unwrap_err(),
        Groth16Error::PedersenVerificationError("parameter mismatch: G2 element".to_string())
    );
}

#[test]
fn batch_verify_is_deterministic() {
    let challenge = small_challenge(13);
    let a = [2u64, 8];
    let comms = commitments_from_exponents(&a);
    let (vk, pok) = vk_and_pok(&a, &[7, 3], 5, &challenge);
    let r1 = batch_verify_pedersen(&vk, &comms, &pok, &challenge);
    let r2 = batch_verify_pedersen(&vk, &comms, &pok, &challenge);
    assert_eq!(r1, r2);
    assert!(r1.is_ok());
    // The same holds of a rejecting run.
    let mut bad = comms.clone();
    bad[0][5] ^= 0xff;
    let e1 = batch_verify_pedersen(&vk, &bad, &pok, &challenge);
    let e2 = batch_verify_pedersen(&vk, &bad, &pok, &challenge);
    assert!(e1.is_err());
    assert_eq!(e1, e2);
}

#[test]
fn single_commitment_accepts_valid_proof() {
    // With one commitment the challenge never enters a scalar
    // multiplication: two different challenges accept the same instance.
    let a = [6u64];
    let comms = commitments_from_exponents(&a);
    let challenge = small_challenge(21);
    let (vk, pok) = vk_and_pok(&a, &[10], 4, &challenge);
    assert!(batch_verify_pedersen(&vk, &comms, &pok, &challenge).is_ok());
    let other_challenge = small_challenge(22);
    assert!(batch_verify_pedersen(&vk, &comms, &pok, &other_challenge).is_ok());
}

#[test]
fn single_commitment_rejects_replaced_pok() {
    let a = [6u64];
    let comms = commitments_from_exponents(&a);
    let challenge = small_challenge(21);
    let (vk, _pok) = vk_and_pok(&a, &[10], 4, &challenge);
    // A well-formed but unrelated G1 point in place of the proof of
    // knowledge: the pairing product is no longer the identity.
    let wrong_pok = g1_bytes(&g1_gen_mul(Fr::from(12345u64)));
    let r = batch_verify_pedersen(&vk, &comms, &wrong_pok, &challenge);
    assert_eq!(
        r.unwrap_err(),
        Groth16Error::PedersenVerificationError("Pedersen pairing check failed".to_string())
    );
}

#[test]
fn tampering_any_component_rejects() {
    let challenge = small_challenge(17);
    let a = [4u64, 9];
    let comms = commitments_from_exponents(&a);
    let (vk, pok) = vk_and_pok(&a, &[8, 2], 6, &challenge);
    assert!(batch_verify_pedersen(&vk, &comms, &pok, &challenge).is_ok());

    // A flipped byte in a commitment.
    let mut bad_comms = comms.clone();
    bad_comms[1][40] ^= 0x20;
    assert!(batch_verify_pedersen(&vk, &bad_comms, &pok, &challenge).is_err());

    // A flipped byte in a per-commitment G2 point (the second half of an
    // entry, so the shared base still agrees).
    let mut bad_vk = vk.clone();
    bad_vk[0][200] ^= 0x04;
    assert!(batch_verify_pedersen(&bad_vk, &comms, &pok, &challenge).is_err());

    // A flipped byte in the proof-of-knowledge element.
    let mut bad_pok = pok;
    bad_pok[10] ^= 0x80;
    assert!(batch_verify_pedersen(&vk, &comms, &bad_pok, &challenge).is_err());
}

#[test]
fn malformed_commitment_reports_primitive_failure() {
    // All-ones bytes are no valid G1 point; the scalar multiplication for
    // term 1 rejects them.
    let challenge = small_challenge(19);
    let a = [5u64, 5];
    let comms_good = commitments_from_exponents(&a);
    let (vk, pok) = vk_and_pok(&a, &[1, 2], 3, &challenge);
    let mut comms = comms_good.clone();
    comms[1] = [0xffu8; 64];
    let r = batch_verify_pedersen(&vk, &comms, &pok, &challenge);
    match r.unwrap_err() {
        Groth16Error::SolanaBN254Error(_) => {}
        other => panic!("expected a primitive failure, got {:?}", other),
    }
}

#[test]
fn known_vector_round_trip_with_derived_challenge() {
    // Three commitments, so the running challenge power is exercised past
    // the first multiplication: term 2 is scaled by challenge^2.
    let a = [3u64, 7, 11];
    let comms = commitments_from_exponents(&a);
    let indices: Vec<Vec<u64>> = vec![vec![1], vec![2, 1], vec![]];
    let mut witness: Vec<[u8; 32]> = vec![fr_be(&Fr::from(100u64)), fr_be(&Fr::from(200u64))];
    let challenge = derive_challenge(&indices, &comms, &mut witness).unwrap();
    assert_eq!(witness.len(), 5);

    let (vk, pok) = vk_and_pok(&a, &[13, 17, 19], 23, &challenge);
    assert!(batch_verify_pedersen(&vk, &comms, &pok, &challenge).is_ok());

    // An unrelated challenge must fail the same instance.
    let wrong = small_challenge(7);
    assert_ne!(wrong, challenge);
    assert!(batch_verify_pedersen(&vk, &comms, &pok, &wrong).is_err());
}

#[test]
fn two_commitment_round_trip_with_derived_challenge() {
    let a = [5u64, 9];
    let comms = commitments_from_exponents(&a);
    let indices: Vec<Vec<u64>> = vec![vec![1, 2], vec![3]];
    let mut witness: Vec<[u8; 32]> = vec![fr_be(&Fr::from(41u64)), fr_be(&Fr::from(42u64))];
    let challenge = derive_challenge(&indices, &comms, &mut witness).unwrap();
    assert_eq!(witness.len(), 4);

    let (vk, pok) = vk_and_pok(&a, &[6, 8], 10, &challenge);
    assert!(batch_verify_pedersen(&vk, &comms, &pok, &challenge).is_ok());

    let wrong = small_challenge(3);
    assert_ne!(wrong, challenge);
    assert!(batch_verify_pedersen(&vk, &comms, &pok, &wrong).is_err());
}

#[test]
fn derived_challenge_is_canonical() {
    let a = [2u64, 3];
    let comms = commitments_from_exponents(&a);
    let indices: Vec<Vec<u64>> = vec![vec![], vec![]];
    let mut witness: Vec<[u8; 32]> = Vec::new();
    let challenge = derive_challenge(&indices, &comms, &mut witness).unwrap();
    // The challenge is the canonical encoding of a scalar-field element:
    // reducing it again does not change it.
    let reduced = fr_be(&Fr::from_be_bytes_mod_order(&challenge));
    assert_eq!(challenge, reduced);
}
