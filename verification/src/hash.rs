//! Hash-to-field primitive: expand_message_xmd (RFC 9380) instantiated with
//! SHA-256, with each 48-byte block reduced into the BN254 scalar field. Only
//! the SHA-256 compression itself is trusted; the expansion and reduction
//! protocol around it is verified.

use crate::bn254::{fr_modulus, fr_reduce_be};
use crate::bytes::{bytes_be_nat, xor_bytes};
use crate::error::Groth16Error;
use sha2::Digest;
use vstd::prelude::*;

verus! {

/// What SHA-256 returns on a given byte string. The digest depends on the
/// bytes alone.
pub uninterp spec fn sha256_spec(data: Seq<u8>) -> Seq<u8>;

/// Relies on `sha2::Sha256` through `Digest::digest`: the 32-byte SHA-256
/// digest of the input, a function of the input bytes alone.
#[verifier::external_body]
fn sha256(data: &[u8]) -> (r: Vec<u8>)
    ensures
        r@ == sha256_spec(data@),
        r@.len() == 32,
{
    sha2::Sha256::digest(data).to_vec()
}

/// The domain tag with its own length appended: DST' of RFC 9380.
pub open spec fn dst_prime(dst: Seq<u8>) -> Seq<u8> {
    dst.push(dst.len() as u8)
}

/// One zeroed SHA-256 input block, Z_pad of RFC 9380.
pub open spec fn zero_block() -> Seq<u8> {
    Seq::new(64, |i: int| 0u8)
}

/// b_0 of expand_message_xmd: the digest of
/// Z_pad || msg || I2OSP(len, 2) || 0 || DST'.
pub open spec fn xmd_b0(msg: Seq<u8>, dst: Seq<u8>, len: nat) -> Seq<u8> {
    sha256_spec(
        zero_block() + msg + seq![(len / 256) as u8, (len % 256) as u8, 0u8] + dst_prime(dst),
    )
}

/// b_i of expand_message_xmd for i >= 1: b_1 hashes b_0 directly, every
/// later block hashes b_0 xor-ed with its predecessor.
pub open spec fn xmd_block(msg: Seq<u8>, dst: Seq<u8>, len: nat, i: nat) -> Seq<u8>
    decreases i,
{
    if i <= 1 {
        sha256_spec(xmd_b0(msg, dst, len) + seq![1u8] + dst_prime(dst))
    } else {
        sha256_spec(
            xor_bytes(xmd_b0(msg, dst, len), xmd_block(msg, dst, len, (i - 1) as nat))
                + seq![i as u8] + dst_prime(dst),
        )
    }
}

/// b_1 || ... || b_count.
pub open spec fn xmd_blocks(msg: Seq<u8>, dst: Seq<u8>, len: nat, count: nat) -> Seq<u8>
    decreases count,
{
    if count == 0 {
        Seq::empty()
    } else {
        xmd_blocks(msg, dst, len, (count - 1) as nat) + xmd_block(msg, dst, len, count)
    }
}

/// The `len`-byte output of expand_message_xmd(SHA-256, msg, DST, len).
pub open spec fn expand_message_xmd_spec(msg: Seq<u8>, dst: Seq<u8>, len: nat) -> Seq<u8> {
    xmd_blocks(msg, dst, len, ((len + 31) / 32) as nat).take(len as int)
}

/// The k-th of `count` scalar-field elements that hash-to-field derives from
/// `msg` under the tag `dst`: 48 expanded bytes per element, read big-endian
/// and reduced modulo the field order.
pub open spec fn hash_to_fr_spec(msg: Seq<u8>, dst: Seq<u8>, count: nat, k: nat) -> nat {
    bytes_be_nat(
        expand_message_xmd_spec(msg, dst, 48 * count).subrange(48 * k as int, 48 * k as int + 48),
    ) % fr_modulus()
}

/// Appends a slice to a vector.
pub(crate) fn append_slice(out: &mut Vec<u8>, src: &[u8])
    ensures
        final(out)@ == old(out)@ + src@,
{
    let n = src.len();
    for i in 0..n
        invariant
            n == src@.len(),
            out@ == old(out)@ + src@.take(i as int),
    {
        out.push(src[i]);
        proof {
            assert(old(out)@ + src@.take(i as int) + seq![src@[i as int]] =~= old(out)@
                + src@.take(i as int + 1));
        }
    }
    proof {
        assert(out@ =~= old(out)@ + src@);
    }
}

/// Pointwise xor of two equal-length byte vectors.
fn xor_vecs(a: &Vec<u8>, b: &Vec<u8>) -> (r: Vec<u8>)
    requires
        a@.len() == b@.len(),
    ensures
        r@ == xor_bytes(a@, b@),
{
    let n = a.len();
    let mut r: Vec<u8> = Vec::new();
    for i in 0..n
        invariant
            n == a@.len(),
            a@.len() == b@.len(),
            r@.len() == i,
            forall|k: int| 0 <= k < i ==> r@[k] == (a@[k] ^ b@[k]),
    {
        r.push(a[i] ^ b[i]);
    }
    proof {
        assert(r@ =~= xor_bytes(a@, b@));
    }
    r
}

/// expand_message_xmd of RFC 9380 with SHA-256: stretches `msg` under the
/// domain tag `dst` to `len` bytes.
fn expand_message_xmd(msg: &[u8], dst: &[u8], len: usize) -> (r: Vec<u8>)
    requires
        dst@.len() <= 255,
        1 <= len <= 8160,
    ensures
        r@ == expand_message_xmd_spec(msg@, dst@, len as nat),
        r@.len() == len,
{
    let ell = (len + 31) / 32;
    proof {
        vstd::arithmetic::div_mod::lemma_fundamental_div_mod(len as int + 31, 32);
        assert(1 <= ell <= 255);
        assert(32 * ell >= len);
    }

    // DST' = DST || I2OSP(len(DST), 1)
    let mut dstp: Vec<u8> = Vec::new();
    append_slice(&mut dstp, dst);
    dstp.push(dst.len() as u8);
    proof {
        assert(dstp@ =~= dst_prime(dst@));
    }

    // b_0 = H(Z_pad || msg || I2OSP(len, 2) || 0 || DST')
    let mut input0: Vec<u8> = Vec::new();
    for _i in 0..64usize
        invariant
            input0@.len() == _i,
            forall|k: int| 0 <= k < _i ==> input0@[k] == 0u8,
    {
        input0.push(0u8);
    }
    proof {
        assert(input0@ =~= zero_block());
    }
    append_slice(&mut input0, msg);
    input0.push((len / 256) as u8);
    input0.push((len % 256) as u8);
    input0.push(0u8);
    append_slice(&mut input0, dstp.as_slice());
    proof {
        assert(input0@ =~= zero_block() + msg@
            + seq![(len as nat / 256) as u8, (len as nat % 256) as u8, 0u8] + dst_prime(dst@));
    }
    let b0 = sha256(input0.as_slice());

    // b_1 = H(b_0 || 1 || DST')
    let mut input1: Vec<u8> = Vec::new();
    append_slice(&mut input1, b0.as_slice());
    input1.push(1u8);
    append_slice(&mut input1, dstp.as_slice());
    proof {
        assert(input1@ =~= xmd_b0(msg@, dst@, len as nat) + seq![1u8] + dst_prime(dst@));
    }
    let b1 = sha256(input1.as_slice());

    let mut out: Vec<u8> = Vec::new();
    append_slice(&mut out, b1.as_slice());
    proof {
        assert(xmd_blocks(msg@, dst@, len as nat, 0) == Seq::<u8>::empty());
        assert(b1@ == xmd_block(msg@, dst@, len as nat, 1));
        assert(out@ =~= xmd_blocks(msg@, dst@, len as nat, 1));
    }
    let mut prev = b1;
    let mut i: usize = 2;
    while i <= ell
        invariant
            2 <= i <= ell + 1,
            1 <= ell <= 255,
            dstp@ == dst_prime(dst@),
            b0@ == xmd_b0(msg@, dst@, len as nat),
            b0@.len() == 32,
            prev@ == xmd_block(msg@, dst@, len as nat, (i - 1) as nat),
            prev@.len() == 32,
            out@ == xmd_blocks(msg@, dst@, len as nat, (i - 1) as nat),
            out@.len() == 32 * (i - 1),
        decreases ell + 1 - i,
    {
        let mut inputi = xor_vecs(&b0, &prev);
        inputi.push(i as u8);
        append_slice(&mut inputi, dstp.as_slice());
        proof {
            assert(inputi@ =~= xor_bytes(
                xmd_b0(msg@, dst@, len as nat),
                xmd_block(msg@, dst@, len as nat, (i - 1) as nat),
            ) + seq![i as u8] + dst_prime(dst@));
        }
        let bi = sha256(inputi.as_slice());
        proof {
            assert(bi@ == xmd_block(msg@, dst@, len as nat, i as nat));
        }
        append_slice(&mut out, bi.as_slice());
        prev = bi;
        i = i + 1;
    }
    out.truncate(len);
    proof {
        assert(out@ =~= expand_message_xmd_spec(msg@, dst@, len as nat));
    }
    out
}

/// Derives `count` scalar-field elements, as canonical 32-byte big-endian
/// encodings, from `msg` under the domain-separation tag `dst`. Fails exactly
/// when the parameters exceed what the expansion supports: a zero count, more
/// than 170 elements, or a tag longer than 255 bytes.
pub fn hash_to_field(msg: &[u8], dst: &[u8], count: usize) -> (r: Result<
    Vec<[u8; 32]>,
    Groth16Error,
>)
    ensures
        (1 <= count <= 170 && dst@.len() <= 255) ==> match r {
            Ok(v) => {
                &&& v@.len() == count
                &&& forall|k: int|
                    0 <= k < count ==> bytes_be_nat(#[trigger] v@[k]@) == hash_to_fr_spec(
                        msg@,
                        dst@,
                        count as nat,
                        k as nat,
                    )
            },
            Err(_) => false,
        },
        !(1 <= count <= 170 && dst@.len() <= 255) ==> (r matches Err(
            Groth16Error::HashError(_),
        )),
{
    if count < 1 || count > 170 || dst.len() > 255 {
        return Err(Groth16Error::HashError("unsupported hash-to-field parameters".to_owned()));
    }
    let len = 48 * count;
    let expanded = expand_message_xmd(msg, dst, len);
    let mut out: Vec<[u8; 32]> = Vec::new();
    for k in 0..count
        invariant
            len == 48 * count,
            count <= 170,
            dst@.len() <= 255,
            expanded@ == expand_message_xmd_spec(msg@, dst@, len as nat),
            expanded@.len() == len,
            out@.len() == k,
            forall|j: int|
                0 <= j < k ==> bytes_be_nat(#[trigger] out@[j]@) == hash_to_fr_spec(
                    msg@,
                    dst@,
                    count as nat,
                    j as nat,
                ),
    {
        let chunk = &expanded.as_slice()[48 * k..48 * k + 48];
        let fe = fr_reduce_be(chunk);
        out.push(fe);
    }
    Ok(out)
}

/// A reusable hash-to-field accumulator with explicit write/sum/reset
/// rounds. Each round is independent: `sum` hashes exactly the bytes written
/// since creation or the last `reset`, always under the tag the accumulator
/// was created with.
pub struct HashToField {
    dst: Vec<u8>,
    data: Vec<u8>,
}

impl HashToField {
    /// The domain-separation tag the accumulator was created with.
    pub closed spec fn dst_view(&self) -> Seq<u8> {
        self.dst@
    }

    /// The bytes written since creation or the last reset.
    pub closed spec fn data_view(&self) -> Seq<u8> {
        self.data@
    }

    /// The tag is short enough for the underlying expansion.
    pub closed spec fn wf(&self) -> bool {
        self.dst@.len() <= 255
    }

    pub fn new(dst: &[u8]) -> (h: Self)
        requires
            dst@.len() <= 255,
        ensures
            h.dst_view() == dst@,
            h.data_view() == Seq::<u8>::empty(),
            h.wf(),
    {
        let mut tag: Vec<u8> = Vec::new();
        append_slice(&mut tag, dst);
        proof {
            assert(tag@ =~= dst@);
        }
        HashToField { dst: tag, data: Vec::new() }
    }

    /// Feeds more input bytes into the current round.
    pub fn write(&mut self, bytes: &[u8])
        ensures
            final(self).dst_view() == old(self).dst_view(),
            final(self).data_view() == old(self).data_view() + bytes@,
            final(self).wf() == old(self).wf(),
    {
        append_slice(&mut self.data, bytes);
    }

    /// One canonical 32-byte scalar-field element derived from the bytes of
    /// the current round.
    pub fn sum(&self) -> (r: [u8; 32])
        requires
            self.wf(),
        ensures
            bytes_be_nat(r@) == hash_to_fr_spec(self.data_view(), self.dst_view(), 1, 0),
    {
        let expanded = expand_message_xmd(self.data.as_slice(), self.dst.as_slice(), 48);
        proof {
            assert(expanded@.subrange(0, 48) =~= expanded@);
        }
        fr_reduce_be(expanded.as_slice())
    }

    /// Clears the accumulated bytes so the next round starts fresh; the tag
    /// is kept.
    pub fn reset(&mut self)
        ensures
            final(self).dst_view() == old(self).dst_view(),
            final(self).data_view() == Seq::<u8>::empty(),
            final(self).wf() == old(self).wf(),
    {
        self.data.clear();
    }
}

} // verus!
