//! The two entry points of the verifier: challenge derivation, which binds
//! each commitment to the public inputs it covers and appends the derived
//! values to the public witness, and the batched pairing check, which folds
//! all commitments and the proof-of-knowledge element into one multi-pairing.

use crate::bn254::{
    bn_error_to_groth16, fr_modulus, fr_mul_be, fr_pow, g1_mul_be, g1_mul_spec,
    lemma_fr_pow_bound, lemma_fr_pow_one, pairing_be, pairing_spec,
};
use crate::bytes::{
    bytes_be_nat, lemma_bytes_be_nat_injective, lemma_nat_to_bytes_be_exact,
    lemma_nat_to_bytes_be_len, nat_to_bytes_be,
};
use crate::error::Groth16Error;
use crate::hash::{append_slice, hash_to_field, hash_to_fr_spec, HashToField};
use vstd::prelude::*;
use vstd::string::StringSliceAdditionalSpecFns;

verus! {

/// The domain-separation tag of the per-commitment hash.
pub open spec fn commitment_tag_bytes() -> Seq<u8> {
    "bsb22-commitment".spec_bytes()
}

/// The domain-separation tag of the batch challenge.
pub open spec fn challenge_tag_bytes() -> Seq<u8> {
    "G16-BSB22".spec_bytes()
}

fn commitment_tag() -> (r: &'static [u8])
    ensures
        r@ == commitment_tag_bytes(),
        r@.len() == 16,
{
    let s = "bsb22-commitment";
    proof {
        reveal_strlit("bsb22-commitment");
        broadcast use vstd::string::is_ascii_spec_bytes;

        assert(vstd::string::is_ascii(s));
    }
    s.as_bytes()
}

fn challenge_tag() -> (r: &'static [u8])
    ensures
        r@ == challenge_tag_bytes(),
        r@.len() == 9,
{
    let s = "G16-BSB22";
    proof {
        reveal_strlit("G16-BSB22");
        broadcast use vstd::string::is_ascii_spec_bytes;

        assert(vstd::string::is_ascii(s));
    }
    s.as_bytes()
}

/// The bytes hashed for one commitment: its 64 raw point bytes followed by
/// the witness values at its 1-based indices, in list order.
pub open spec fn wire_bytes(comm: Seq<u8>, indices: Seq<u64>, w: Seq<Seq<u8>>) -> Seq<u8>
    decreases indices.len(),
{
    if indices.len() == 0 {
        comm
    } else {
        wire_bytes(comm, indices.drop_last(), w) + w[indices.last() - 1]
    }
}

/// The field element that one commitment hashes to, over the witness as it
/// stands when that commitment is processed.
pub open spec fn commitment_hash_val(comm: Seq<u8>, indices: Seq<u64>, w: Seq<Seq<u8>>) -> nat {
    hash_to_fr_spec(wire_bytes(comm, indices, w), commitment_tag_bytes(), 1, 0)
}

/// The first `k` derived hash values, each as its canonical 32-byte
/// big-endian encoding. Commitment `i` is hashed over the original witness
/// extended by the `i` values derived before it.
pub open spec fn derived_hashes(
    comms: Seq<Seq<u8>>,
    idx: Seq<Seq<u64>>,
    w0: Seq<Seq<u8>>,
    k: nat,
) -> Seq<Seq<u8>>
    decreases k,
{
    if k == 0 {
        Seq::empty()
    } else {
        let prev = derived_hashes(comms, idx, w0, (k - 1) as nat);
        prev.push(
            nat_to_bytes_be(
                commitment_hash_val(comms[k - 1], idx[k - 1], w0 + prev),
                32,
            ),
        )
    }
}

/// One hash value is derived per commitment.
pub proof fn lemma_derived_hashes_len(
    comms: Seq<Seq<u8>>,
    idx: Seq<Seq<u64>>,
    w0: Seq<Seq<u8>>,
    k: nat,
)
    ensures
        derived_hashes(comms, idx, w0, k).len() == k,
    decreases k,
{
    if k > 0 {
        lemma_derived_hashes_len(comms, idx, w0, (k - 1) as nat);
    }
}

/// The concatenation of a sequence of byte strings.
pub open spec fn concat_all(s: Seq<Seq<u8>>) -> Seq<u8>
    decreases s.len(),
{
    if s.len() == 0 {
        Seq::empty()
    } else {
        concat_all(s.drop_last()) + s.last()
    }
}

/// Every index of one list is a valid 1-based position in a witness of
/// length `wlen`.
pub open spec fn indices_ok_for(indices: Seq<u64>, wlen: nat) -> bool {
    forall|j: int| 0 <= j < indices.len() ==> 1 <= #[trigger] indices[j] <= wlen
}

/// Every index list is valid against the witness as it stands when its
/// commitment is processed: the original length plus one slot per earlier
/// commitment.
pub open spec fn all_indices_ok(idx: Seq<Seq<u64>>, w0len: nat) -> bool {
    forall|i: int| 0 <= i < idx.len() ==> indices_ok_for(#[trigger] idx[i], (w0len + i) as nat)
}

/// Derives one hash per commitment, appends each to the public witness, and
/// returns the concatenation of all derived values.
///
/// Fails without touching the witness when the commitment count disagrees
/// with the index-list count, or when any index is out of range of the
/// witness as it stands at the time of that commitment's lookup.
pub fn solve_commitment_wire(
    vk_public_and_commitment_committed: &[Vec<u64>],
    proof_commitments: &[[u8; 64]],
    public_witness: &mut Vec<[u8; 32]>,
) -> (r: Result<Vec<u8>, Groth16Error>)
    ensures
        ({
            let idx = vk_public_and_commitment_committed.deep_view();
            let comms = proof_commitments.deep_view();
            let w0 = old(public_witness).deep_view();
            let n = idx.len();
            &&& comms.len() != n ==> {
                &&& (r matches Err(Groth16Error::PedersenVerificationError(m))
                    && m@ == "commitments lengths mismatch"@)
                &&& *final(public_witness) == *old(public_witness)
            }
            &&& comms.len() == n && !all_indices_ok(idx, w0.len()) ==> {
                &&& r matches Err(Groth16Error::PublicWitnessParsingError)
                &&& *final(public_witness) == *old(public_witness)
            }
            &&& comms.len() == n && all_indices_ok(idx, w0.len()) ==> {
                &&& r matches Ok(out) && out@ == concat_all(derived_hashes(comms, idx, w0, n))
                &&& final(public_witness).deep_view() == w0 + derived_hashes(comms, idx, w0, n)
                &&& final(public_witness)@.len() == old(public_witness)@.len() + n
            }
        }),
{
    let n = vk_public_and_commitment_committed.len();
    let ghost idx = vk_public_and_commitment_committed.deep_view();
    let ghost comms = proof_commitments.deep_view();
    let ghost w0 = public_witness.deep_view();

    if proof_commitments.len() != n {
        return Err(
            Groth16Error::PedersenVerificationError("commitments lengths mismatch".to_owned()),
        );
    }

    let w0len = public_witness.len();

    // Validate every index against the witness length at its lookup time.
    for i in 0..n
        invariant
            n == idx.len(),
            n == proof_commitments.deep_view().len(),
            idx == vk_public_and_commitment_committed.deep_view(),
            w0len == w0.len(),
            w0 == public_witness.deep_view(),
            *public_witness == *old(public_witness),
            forall|i2: int| 0 <= i2 < i ==> indices_ok_for(#[trigger] idx[i2], (w0len + i2) as nat),
    {
        let list = &vk_public_and_commitment_committed[i];
        let m = list.len();
        assert(list@ == idx[i as int]);
        for j in 0..m
            invariant
                n == idx.len(),
                n == proof_commitments.deep_view().len(),
                idx == vk_public_and_commitment_committed.deep_view(),
                i < n,
                m == idx[i as int].len(),
                list@ == idx[i as int],
                w0len == w0.len(),
                w0 == old(public_witness).deep_view(),
                *public_witness == *old(public_witness),
                forall|j2: int| 0 <= j2 < j ==> 1 <= #[trigger] list@[j2] <= w0len + i,
        {
            let v = list[j];
            if v < 1 || (v as u128) > (w0len as u128) + (i as u128) {
                proof {
                    assert(idx[i as int][j as int] == v);
                    assert(!indices_ok_for(idx[i as int], (w0len + i) as nat));
                    assert(!all_indices_ok(idx, w0.len()));
                }
                return Err(Groth16Error::PublicWitnessParsingError);
            }
        }
    }

    let mut hasher = HashToField::new(commitment_tag());
    let mut commitments_serialized: Vec<u8> = Vec::new();

    for i in 0..n
        invariant
            n == idx.len(),
            n == comms.len(),
            idx == vk_public_and_commitment_committed.deep_view(),
            comms == proof_commitments.deep_view(),
            w0len == w0.len(),
            all_indices_ok(idx, w0.len()),
            hasher.wf(),
            hasher.dst_view() == commitment_tag_bytes(),
            hasher.data_view() == Seq::<u8>::empty(),
            public_witness.deep_view() == w0 + derived_hashes(comms, idx, w0, i as nat),
            public_witness@.len() == w0len + i,
            commitments_serialized@ == concat_all(derived_hashes(comms, idx, w0, i as nat)),
    {
        let ghost w_now = public_witness.deep_view();
        let point = &proof_commitments[i];
        hasher.write(point.as_slice());
        proof {
            assert(point.deep_view() == comms[i as int]);
            assert(Seq::<u8>::empty() + point@ =~= comms[i as int]);
            assert(wire_bytes(comms[i as int], idx[i as int].take(0), w_now)
                == comms[i as int]) by {
                assert(idx[i as int].take(0) =~= Seq::<u64>::empty());
            }
        }
        let list = &vk_public_and_commitment_committed[i];
        let m = list.len();
        for j in 0..m
            invariant
                n == idx.len(),
                i < n,
                m == idx[i as int].len(),
                list@ == idx[i as int],
                comms == proof_commitments.deep_view(),
                w0len == w0.len(),
                indices_ok_for(idx[i as int], (w0len + i) as nat),
                w_now == public_witness.deep_view(),
                public_witness@.len() == w0len + i,
                hasher.wf(),
                hasher.dst_view() == commitment_tag_bytes(),
                hasher.data_view() == wire_bytes(
                    comms[i as int],
                    idx[i as int].take(j as int),
                    w_now,
                ),
        {
            let v = list[j];
            assert(1 <= v <= w0len + i);
            let cur_len = public_witness.len();
            assert(v <= cur_len);
            let wv = &public_witness[(v - 1) as usize];
            hasher.write(wv.as_slice());
            proof {
                let taken = idx[i as int].take(j as int + 1);
                assert(taken.drop_last() =~= idx[i as int].take(j as int));
                assert(taken.last() == idx[i as int][j as int]);
                crate::bytes::lemma_bytes_array_deep_view::<32>(*wv);
                assert(w_now[v - 1] == public_witness@[v - 1].deep_view());
                assert(wv@ == w_now[v - 1]);
            }
        }
        let h = hasher.sum();
        hasher.reset();
        let ghost pw_before = public_witness@;
        public_witness.push(h);
        append_slice(&mut commitments_serialized, h.as_slice());
        proof {
            assert(idx[i as int].take(m as int) =~= idx[i as int]);
            let hv = commitment_hash_val(comms[i as int], idx[i as int], w_now);
            assert(bytes_be_nat(h@) == hv);
            crate::bn254::lemma_fr_modulus_fits();
            lemma_nat_to_bytes_be_len(hv, 32);
            lemma_nat_to_bytes_be_exact(hv, 32);
            lemma_bytes_be_nat_injective(h@, nat_to_bytes_be(hv, 32));
            assert(h@ == nat_to_bytes_be(hv, 32));
            crate::bytes::lemma_bytes_array_deep_view::<32>(h);
            lemma_derived_hashes_len(comms, idx, w0, i as nat);
            lemma_derived_hashes_len(comms, idx, w0, (i + 1) as nat);
            let prev = derived_hashes(comms, idx, w0, i as nat);
            let next = derived_hashes(comms, idx, w0, (i + 1) as nat);
            assert(w_now == w0 + prev);
            assert(next == prev.push(nat_to_bytes_be(hv, 32)));
            assert(public_witness@ == pw_before.push(h));
            assert forall|k: int| 0 <= k < public_witness@.len() implies public_witness.deep_view()[k]
                == (w0 + next)[k] by {
                assert(public_witness.deep_view()[k] == public_witness@[k].deep_view());
                if k < w0len + i {
                    assert(public_witness@[k] == pw_before[k]);
                    assert(w_now[k] == pw_before[k].deep_view());
                    assert((w0 + next)[k] == (w0 + prev)[k]);
                } else {
                    assert(public_witness@[k] == h);
                    assert((w0 + next)[k] == next.last());
                }
            }
            assert(public_witness.deep_view() =~= w0 + next);
            assert(next.drop_last() =~= prev);
            assert(commitments_serialized@ == concat_all(next));
        }
    }
    Ok(commitments_serialized)
}

/// The batch challenge value: the hash of the concatenation of all derived
/// per-commitment values, under the challenge tag.
pub open spec fn challenge_val(comms: Seq<Seq<u8>>, idx: Seq<Seq<u64>>, w0: Seq<Seq<u8>>) -> nat {
    hash_to_fr_spec(
        concat_all(derived_hashes(comms, idx, w0, idx.len())),
        challenge_tag_bytes(),
        1,
        0,
    )
}

/// Derives the Fiat-Shamir challenge scalar for the whole batch: hashes each
/// commitment with the witness values it binds, appends every derived value
/// to the public witness, and hashes the concatenation of the derived values
/// once more under the top-level tag.
///
/// Fails without touching the witness when the commitment count disagrees
/// with the index-list count, or when any index is out of range of the
/// witness as it stands at the time of that commitment's lookup.
pub fn derive_challenge(
    vk_public_and_commitment_committed: &[Vec<u64>],
    proof_commitments: &[[u8; 64]],
    public_witness: &mut Vec<[u8; 32]>,
) -> (r: Result<[u8; 32], Groth16Error>)
    ensures
        ({
            let idx = vk_public_and_commitment_committed.deep_view();
            let comms = proof_commitments.deep_view();
            let w0 = old(public_witness).deep_view();
            let n = idx.len();
            &&& comms.len() != n ==> {
                &&& (r matches Err(Groth16Error::PedersenVerificationError(m))
                    && m@ == "commitments lengths mismatch"@)
                &&& *final(public_witness) == *old(public_witness)
            }
            &&& comms.len() == n && !all_indices_ok(idx, w0.len()) ==> {
                &&& r matches Err(Groth16Error::PublicWitnessParsingError)
                &&& *final(public_witness) == *old(public_witness)
            }
            &&& comms.len() == n && all_indices_ok(idx, w0.len()) ==> {
                &&& r matches Ok(c) && bytes_be_nat(c@) == challenge_val(comms, idx, w0)
                &&& final(public_witness).deep_view() == w0 + derived_hashes(comms, idx, w0, n)
                &&& final(public_witness)@.len() == old(public_witness)@.len() + n
            }
        }),
{
    let serialized = match solve_commitment_wire(
        vk_public_and_commitment_committed,
        proof_commitments,
        public_witness,
    ) {
        Ok(s) => s,
        Err(e) => {
            return Err(e);
        },
    };
    let elements = match hash_to_field(serialized.as_slice(), challenge_tag(), 1) {
        Ok(v) => v,
        Err(e) => {
            proof {
                assert(false);
            }
            return Err(e);
        },
    };
    Ok(elements[0])
}

/// Every verifying-key entry opens with the same 128 bytes, the shared G2
/// base.
pub open spec fn shared_base_ok(vk: Seq<Seq<u8>>) -> bool {
    forall|i: int|
        0 <= i < vk.len() ==> #[trigger] vk[i].subrange(0, 128) == vk[0].subrange(0, 128)
}

/// The 96-byte input of the scalar multiplication for term i (1 <= i):
/// commitment i followed by the canonical encoding of challenge^i.
pub open spec fn mul_input(comms: Seq<Seq<u8>>, c: nat, i: int) -> Seq<u8> {
    comms[i] + nat_to_bytes_be(fr_pow(c, i as nat), 32)
}

/// The G1 point of pairing term i: the commitment itself for i = 0, the
/// scaled commitment for every later term; `None` where the multiplication
/// primitive rejects its input.
pub open spec fn g1_term(comms: Seq<Seq<u8>>, c: nat, i: int) -> Option<Seq<u8>> {
    if i == 0 {
        Some(comms[0])
    } else {
        g1_mul_spec(mul_input(comms, c, i))
    }
}

/// Every scalar multiplication of the batch is accepted.
pub open spec fn muls_ok(comms: Seq<Seq<u8>>, c: nat, n: int) -> bool {
    forall|i: int| 1 <= i < n ==> (#[trigger] g1_term(comms, c, i)) is Some
}

/// The first k (G1, G2) pairs of the multi-pairing buffer: the G1 term of
/// each commitment followed by the per-commitment G2 point from its
/// verifying-key entry.
pub open spec fn pairing_prefix(vk: Seq<Seq<u8>>, comms: Seq<Seq<u8>>, c: nat, k: int) -> Seq<u8>
    decreases k,
{
    if k <= 0 {
        Seq::empty()
    } else {
        pairing_prefix(vk, comms, c, k - 1) + g1_term(comms, c, k - 1).unwrap() + vk[k
            - 1].subrange(128, 256)
    }
}

/// The whole multi-pairing buffer: one term per commitment, then the
/// proof-of-knowledge element against the shared G2 base.
pub open spec fn batch_pairing_input(
    vk: Seq<Seq<u8>>,
    comms: Seq<Seq<u8>>,
    pok: Seq<u8>,
    c: nat,
) -> Seq<u8> {
    pairing_prefix(vk, comms, c, vk.len() as int) + pok + vk[0].subrange(0, 128)
}

/// The abstract outcome of the batched check, a function of the inputs
/// alone.
pub enum VerifyOutcome {
    /// The pairing product is the identity: the proof is accepted.
    Accepted,
    /// The commitment count disagrees with the verifying-key count.
    LengthMismatch,
    /// Some verifying-key entry disagrees on the shared G2 base.
    BaseMismatch,
    /// A scalar multiplication rejected its input.
    MulRejected,
    /// The multi-pairing primitive rejected its input.
    PairingRejected,
    /// All input was well-formed but the pairing product is not the
    /// identity: the proof is rejected.
    NotIdentity,
}

/// What the batched check decides on given inputs, in the order the checks
/// are made: lengths, shared base, scalar multiplications, pairing.
pub open spec fn batch_verify_outcome(
    vk: Seq<Seq<u8>>,
    comms: Seq<Seq<u8>>,
    pok: Seq<u8>,
    c: nat,
) -> VerifyOutcome {
    if comms.len() != vk.len() {
        VerifyOutcome::LengthMismatch
    } else if !shared_base_ok(vk) {
        VerifyOutcome::BaseMismatch
    } else if !muls_ok(comms, c, vk.len() as int) {
        VerifyOutcome::MulRejected
    } else {
        match pairing_spec(batch_pairing_input(vk, comms, pok, c)) {
            Option::None => VerifyOutcome::PairingRejected,
            Option::Some(out) => if out[31] == 1 {
                VerifyOutcome::Accepted
            } else {
                VerifyOutcome::NotIdentity
            },
        }
    }
}

/// The concrete result that each abstract outcome stands for.
pub open spec fn outcome_matches(r: Result<(), Groth16Error>, o: VerifyOutcome) -> bool {
    match o {
        VerifyOutcome::Accepted => r is Ok,
        VerifyOutcome::LengthMismatch => r matches Err(
            Groth16Error::PedersenVerificationError(m),
        ) && m@ == "commitments lengths mismatch"@,
        VerifyOutcome::BaseMismatch => r matches Err(Groth16Error::PedersenVerificationError(m))
            && m@ == "parameter mismatch: G2 element"@,
        VerifyOutcome::MulRejected => r matches Err(Groth16Error::SolanaBN254Error(_)),
        VerifyOutcome::PairingRejected => r matches Err(Groth16Error::ProofVerificationFailed),
        VerifyOutcome::NotIdentity => r matches Err(Groth16Error::PedersenVerificationError(m))
            && m@ == "Pedersen pairing check failed"@,
    }
}

/// The first 128 bytes of two verifying-key entries agree.
fn shared_base_eq(a: &[u8; 256], b: &[u8; 256]) -> (r: bool)
    ensures
        r == (a@.subrange(0, 128) == b@.subrange(0, 128)),
{
    let mut k: usize = 0;
    while k < 128
        invariant
            k <= 128,
            forall|t: int| 0 <= t < k ==> a@[t] == b@[t],
        decreases 128 - k,
    {
        if a[k] != b[k] {
            proof {
                assert(a@.subrange(0, 128)[k as int] != b@.subrange(0, 128)[k as int]);
            }
            return false;
        }
        k = k + 1;
    }
    proof {
        assert(a@.subrange(0, 128) =~= b@.subrange(0, 128));
    }
    true
}

/// Verifies the whole batch with one multi-pairing: term 0 pairs the first
/// commitment directly, term i pairs commitment i scaled by challenge^i, and
/// the final term pairs the proof-of-knowledge element against the shared G2
/// base. Accepts exactly when the product of the pairings is the identity.
///
/// The challenge must be the canonical encoding of a scalar-field element,
/// and at least one of the two arrays must be non-empty (an empty batch has
/// no term 0); an empty array on one side alone is reported as a length
/// mismatch.
pub fn batch_verify_pedersen(
    vk: &[[u8; 256]],
    commitments: &[[u8; 64]],
    pok: &[u8; 64],
    challenge: &[u8; 32],
) -> (r: Result<(), Groth16Error>)
    requires
        vk@.len() > 0 || commitments@.len() > 0,
        bytes_be_nat(challenge@) < fr_modulus(),
    ensures
        outcome_matches(
            r,
            batch_verify_outcome(
                vk.deep_view(),
                commitments.deep_view(),
                pok@,
                bytes_be_nat(challenge@),
            ),
        ),
{
    let ghost vkv = vk.deep_view();
    let ghost comms = commitments.deep_view();
    let ghost c = bytes_be_nat(challenge@);
    let n = vk.len();

    if commitments.len() != n {
        return Err(
            Groth16Error::PedersenVerificationError("commitments lengths mismatch".to_owned()),
        );
    }

    for i in 1..n
        invariant
            n >= 1,
            n == vkv.len(),
            n == comms.len(),
            vkv == vk.deep_view(),
            comms == commitments.deep_view(),
            forall|t: int|
                1 <= t < i ==> #[trigger] vkv[t].subrange(0, 128) == vkv[0].subrange(0, 128),
    {
        if !shared_base_eq(&vk[i], &vk[0]) {
            proof {
                crate::bytes::lemma_bytes_array_deep_view::<256>(vk@[i as int]);
                crate::bytes::lemma_bytes_array_deep_view::<256>(vk@[0]);
                assert(vkv[i as int].subrange(0, 128) != vkv[0].subrange(0, 128));
                assert(!shared_base_ok(vkv));
            }
            return Err(
                Groth16Error::PedersenVerificationError("parameter mismatch: G2 element".to_owned()),
            );
        }
        proof {
            crate::bytes::lemma_bytes_array_deep_view::<256>(vk@[i as int]);
            crate::bytes::lemma_bytes_array_deep_view::<256>(vk@[0]);
        }
    }
    proof {
        assert(shared_base_ok(vkv));
    }

    // Term 0: the first commitment against its per-commitment G2 point.
    let mut input: Vec<u8> = Vec::new();
    append_slice(&mut input, commitments[0].as_slice());
    append_slice(&mut input, &vk[0].as_slice()[128..256]);
    proof {
        crate::bytes::lemma_bytes_array_deep_view::<64>(commitments@[0]);
        crate::bytes::lemma_bytes_array_deep_view::<256>(vk@[0]);
        assert(comms[0] == commitments@[0].deep_view());
        assert(vkv[0] == vk@[0].deep_view());
        assert(pairing_prefix(vkv, comms, c, 0) == Seq::<u8>::empty());
        assert(g1_term(comms, c, 0) == Some(comms[0]));
        assert(input@ =~= pairing_prefix(vkv, comms, c, 1));
    }

    // Terms 1..n: commitment i scaled by challenge^i, computed by an
    // explicit running power that holds challenge^i at the start of
    // iteration i.
    let mut pow: [u8; 32] = *challenge;
    proof {
        lemma_fr_pow_one(c);
    }
    let mut i: usize = 1;
    while i < n
        invariant
            1 <= i <= n,
            n == vkv.len(),
            n == comms.len(),
            vkv == vk.deep_view(),
            comms == commitments.deep_view(),
            c == bytes_be_nat(challenge@),
            c < fr_modulus(),
            shared_base_ok(vkv),
            bytes_be_nat(pow@) == fr_pow(c, i as nat),
            muls_ok(comms, c, i as int),
            input@ == pairing_prefix(vkv, comms, c, i as int),
        decreases n - i,
    {
        let mut operands: Vec<u8> = Vec::new();
        append_slice(&mut operands, commitments[i].as_slice());
        append_slice(&mut operands, pow.as_slice());
        proof {
            crate::bn254::lemma_fr_modulus_fits();
            lemma_fr_pow_bound(c, i as nat);
            lemma_nat_to_bytes_be_len(fr_pow(c, i as nat), 32);
            lemma_nat_to_bytes_be_exact(fr_pow(c, i as nat), 32);
            lemma_bytes_be_nat_injective(pow@, nat_to_bytes_be(fr_pow(c, i as nat), 32));
            crate::bytes::lemma_bytes_array_deep_view::<64>(commitments@[i as int]);
            assert(operands@ =~= mul_input(comms, c, i as int));
        }
        let scaled = match g1_mul_be(operands.as_slice()) {
            Ok(s) => s,
            Err(e) => {
                proof {
                    assert(g1_term(comms, c, i as int) is None);
                    assert(!muls_ok(comms, c, n as int));
                }
                return Err(bn_error_to_groth16(e));
            },
        };
        append_slice(&mut input, scaled.as_slice());
        append_slice(&mut input, &vk[i].as_slice()[128..256]);
        pow = fr_mul_be(&pow, challenge);
        proof {
            crate::bytes::lemma_bytes_array_deep_view::<256>(vk@[i as int]);
            assert(g1_term(comms, c, i as int) == Some(scaled@));
            assert(input@ =~= pairing_prefix(vkv, comms, c, i as int + 1));
            assert(bytes_be_nat(pow@) == fr_pow(c, (i + 1) as nat));
            assert(forall|t: int|
                1 <= t < i + 1 ==> (#[trigger] g1_term(comms, c, t)) is Some);
        }
        i = i + 1;
    }

    // The final term: the proof-of-knowledge element against the shared G2
    // base.
    append_slice(&mut input, pok.as_slice());
    append_slice(&mut input, &vk[0].as_slice()[0..128]);
    proof {
        crate::bytes::lemma_bytes_array_deep_view::<256>(vk@[0]);
        assert(input@ =~= batch_pairing_input(vkv, comms, pok@, c));
    }

    let res = match pairing_be(input.as_slice()) {
        Ok(res) => res,
        Err(_) => {
            return Err(Groth16Error::ProofVerificationFailed);
        },
    };
    if res[31] == 1 {
        Ok(())
    } else {
        Err(Groth16Error::PedersenVerificationError("Pedersen pairing check failed".to_owned()))
    }
}

/// Whenever the commitment count disagrees with the verifying-key count, the
/// batched check fails with the length-mismatch error, whatever the rest of
/// the input holds.
pub proof fn lemma_length_mismatch_rejected(
    vk: Seq<Seq<u8>>,
    comms: Seq<Seq<u8>>,
    pok: Seq<u8>,
    c: nat,
    r: Result<(), Groth16Error>,
)
    requires
        comms.len() != vk.len(),
        outcome_matches(r, batch_verify_outcome(vk, comms, pok, c)),
    ensures
        r matches Err(Groth16Error::PedersenVerificationError(m)) && m@
            == "commitments lengths mismatch"@,
{
}

/// Whenever some verifying-key entry disagrees on the shared G2 base, the
/// batched check fails with the parameter-mismatch error, whether or not the
/// pairing would otherwise succeed: the outcome never consults the pairing
/// in that case.
pub proof fn lemma_shared_base_mismatch_rejected(
    vk: Seq<Seq<u8>>,
    comms: Seq<Seq<u8>>,
    pok: Seq<u8>,
    c: nat,
    r: Result<(), Groth16Error>,
)
    requires
        comms.len() == vk.len(),
        !shared_base_ok(vk),
        outcome_matches(r, batch_verify_outcome(vk, comms, pok, c)),
    ensures
        r matches Err(Groth16Error::PedersenVerificationError(m)) && m@
            == "parameter mismatch: G2 element"@,
{
}

/// Determinism of the batched check: any two results that meet its contract
/// on identical inputs accept together and fail together, with the same
/// error kind, and with the same message wherever the contract pins one.
/// (The one free observable is the diagnostic text carried by a rejected
/// curve-primitive call.)
pub proof fn lemma_batch_verify_deterministic(
    vk: Seq<Seq<u8>>,
    comms: Seq<Seq<u8>>,
    pok: Seq<u8>,
    c: nat,
    r1: Result<(), Groth16Error>,
    r2: Result<(), Groth16Error>,
)
    requires
        outcome_matches(r1, batch_verify_outcome(vk, comms, pok, c)),
        outcome_matches(r2, batch_verify_outcome(vk, comms, pok, c)),
    ensures
        r1 is Ok <==> r2 is Ok,
        ({
            match (r1, r2) {
                (Err(e1), Err(e2)) => {
                    &&& e1.code_spec() == e2.code_spec()
                    &&& e1.message_spec() == e2.message_spec()
                    &&& match (e1, e2) {
                        (
                            Groth16Error::PedersenVerificationError(m1),
                            Groth16Error::PedersenVerificationError(m2),
                        ) => m1@ == m2@,
                        _ => true,
                    }
                },
                _ => true,
            }
        }),
{
}

/// Determinism of challenge derivation: any two 32-byte challenges that meet
/// its contract on identical inputs are byte-for-byte equal, and the witness
/// extension is pinned to one value by the contract.
pub proof fn lemma_derive_challenge_deterministic(
    comms: Seq<Seq<u8>>,
    idx: Seq<Seq<u64>>,
    w0: Seq<Seq<u8>>,
    c1: [u8; 32],
    c2: [u8; 32],
)
    requires
        bytes_be_nat(c1@) == challenge_val(comms, idx, w0),
        bytes_be_nat(c2@) == challenge_val(comms, idx, w0),
    ensures
        c1 == c2,
{
    lemma_bytes_be_nat_injective(c1@, c2@);
    assert(c1@ =~= c2@);
    broadcast use vstd::array::axiom_array_ext_equal;

    assert(c1 =~= c2);
}

/// With exactly one commitment no scalar multiplication enters the check:
/// the multi-pairing buffer holds only the commitment against its G2 point
/// and the proof-of-knowledge element against the shared base, and the
/// outcome never consults the multiplication primitive.
pub proof fn lemma_single_commitment_no_scaling(
    vk: Seq<Seq<u8>>,
    comms: Seq<Seq<u8>>,
    pok: Seq<u8>,
    c: nat,
)
    requires
        vk.len() == 1,
        comms.len() == 1,
    ensures
        shared_base_ok(vk),
        muls_ok(comms, c, 1),
        batch_pairing_input(vk, comms, pok, c) == comms[0] + vk[0].subrange(128, 256) + pok
            + vk[0].subrange(0, 128),
        batch_verify_outcome(vk, comms, pok, c) == (match pairing_spec(
            comms[0] + vk[0].subrange(128, 256) + pok + vk[0].subrange(0, 128),
        ) {
            Option::None => VerifyOutcome::PairingRejected,
            Option::Some(out) => if out[31] == 1 {
                VerifyOutcome::Accepted
            } else {
                VerifyOutcome::NotIdentity
            },
        }),
{
    assert(pairing_prefix(vk, comms, c, 0) == Seq::<u8>::empty());
    assert(pairing_prefix(vk, comms, c, 1) =~= comms[0] + vk[0].subrange(128, 256));
    assert(batch_pairing_input(vk, comms, pok, c) =~= comms[0] + vk[0].subrange(128, 256) + pok
        + vk[0].subrange(0, 128));
}

/// The bytes hashed for one commitment are exactly its 64 point bytes plus
/// 32 bytes per bound public input: one commitment's hash input never spills
/// into another's, however the per-call scratch space is sized.
pub proof fn lemma_wire_bytes_len(comm: Seq<u8>, indices: Seq<u64>, w: Seq<Seq<u8>>)
    requires
        comm.len() == 64,
        indices_ok_for(indices, w.len()),
        forall|t: int| 0 <= t < w.len() ==> (#[trigger] w[t]).len() == 32,
    ensures
        wire_bytes(comm, indices, w).len() == 64 + 32 * indices.len(),
    decreases indices.len(),
{
    if indices.len() > 0 {
        assert(indices_ok_for(indices.drop_last(), w.len()));
        lemma_wire_bytes_len(comm, indices.drop_last(), w);
        assert(1 <= indices.last() <= w.len());
    }
}

} // verus!
