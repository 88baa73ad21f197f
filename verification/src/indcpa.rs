//! The CPA-secure public-key encryption scheme built on Module-LWE:
//! key generation, deterministic encryption, and decryption.
//!
//! Keys and ciphertexts are fixed-length byte strings whose lengths are
//! functions of the parameter set alone; encryption is a deterministic
//! function of the public key, the 32-byte message and the 32-byte coin,
//! which is what lets the CCA transform re-encrypt and compare.

use vstd::prelude::*;

verus! {

use crate::params::ParamSet;
use crate::keccak::sha3_512;
use crate::codec::subvec;
use crate::codec::poly_to_bytes;
use crate::codec::poly_from_bytes;
use crate::codec::compress_poly;
use crate::codec::decompress_poly;
use crate::ring::Poly;
use crate::ring::PolyNtt;
use crate::ring::ntt;
use crate::ring::inv_ntt;
use crate::ring::ntt_add;
use crate::ring::basemul;
use crate::ring::poly_add;
use crate::ring::poly_sub;
use crate::sample::sample_uniform;
use crate::sample::sample_cbd;
use crate::sample::prf;

/// Every element of a transform-domain vector is well-formed.
pub open spec fn ntt_vec_wf(v: Seq<PolyNtt>) -> bool {
    forall|i: int| 0 <= i < v.len() ==> v[i].wf()
}

/// The accumulated dot product that decryption computes: the sum over
/// the first `k` rows of `decode(sk row) * ntt(decompress(ct block))`.
pub open spec fn spec_decrypt_acc(sk: Seq<u8>, ct: Seq<u8>, du: int, k: int) -> Seq<u16>
    decreases k,
{
    if k <= 0 {
        crate::ring::spec_zero()
    } else {
        crate::ring::spec_add(
            spec_decrypt_acc(sk, ct, du, k - 1),
            crate::ring::spec_basemul(
                crate::codec::spec_decoded(sk.subrange((k - 1) * 384, (k - 1) * 384 + 384)),
                crate::ring::spec_ntt(
                    crate::codec::spec_decompressed(
                        ct.subrange((k - 1) * (32 * du), (k - 1) * (32 * du) + 32 * du),
                        du,
                    ),
                ),
            ),
        )
    }
}

/// The message polynomial that decryption recovers before the final
/// one-bit compression: `decompress(v) - inv_ntt(sum)`.
pub open spec fn spec_decrypt_poly(sk: Seq<u8>, ct: Seq<u8>, ps: ParamSet) -> Seq<u16> {
    crate::ring::spec_sub(
        crate::codec::spec_decompressed(
            ct.subrange(ps.k * (ps.du * 32), ps.k * (ps.du * 32) + 32 * ps.dv),
            ps.dv as int,
        ),
        crate::ring::spec_inv_ntt(spec_decrypt_acc(sk, ct, ps.du as int, ps.k as int)),
    )
}

/// Encodes a transform-domain vector, 384 bytes per element.
fn polyvec_to_bytes(v: &Vec<PolyNtt>) -> (out: Vec<u8>)
    requires
        ntt_vec_wf(v@),
    ensures
        out@.len() == v@.len() * 384,
{
    let mut out: Vec<u8> = Vec::new();
    let mut i: usize = 0;
    while i < v.len()
        invariant
            ntt_vec_wf(v@),
            i <= v@.len(),
            out@.len() == i * 384,
        decreases v@.len() - i,
    {
        let mut part = poly_to_bytes(&v[i].c);
        out.append(&mut part);
        i = i + 1;
    }
    out
}

/// Decodes a byte string into a transform-domain vector of `k` elements,
/// reducing every coefficient so the result is well-formed for any bytes.
fn polyvec_from_bytes(bytes: &Vec<u8>, k: usize) -> (v: Vec<PolyNtt>)
    requires
        bytes@.len() == k * 384,
    ensures
        v@.len() == k,
        ntt_vec_wf(v@),
        forall|j: int| 0 <= j < k ==> (#[trigger] v@[j]).c@ == crate::codec::spec_decoded(
            bytes@.subrange(j * 384, j * 384 + 384),
        ),
{
    let mut v: Vec<PolyNtt> = Vec::new();
    let nb = bytes.len();
    let mut i: usize = 0;
    while i < k
        invariant
            nb == bytes@.len(),
            bytes@.len() == k * 384,
            bytes@.len() <= usize::MAX,
            i <= k,
            v@.len() == i,
            ntt_vec_wf(v@),
            forall|j: int| 0 <= j < i ==> (#[trigger] v@[j]).c@ == crate::codec::spec_decoded(
                bytes@.subrange(j * 384, j * 384 + 384),
            ),
        decreases k - i,
    {
        proof {
            assert(i * 384 + 384 <= k * 384) by (nonlinear_arith)
                requires
                    i < k,
            ;
        }
        let part = subvec(bytes, i * 384, i * 384 + 384);
        v.push(PolyNtt { c: poly_from_bytes(&part) });
        i = i + 1;
    }
    v
}

/// Samples the `k` noise elements with nonces `first .. first + k` and
/// returns them transformed.
fn sample_noise_ntt(seed: &Vec<u8>, first: u8, eta: usize, k: usize) -> (v: Vec<PolyNtt>)
    requires
        seed@.len() == 32,
        eta == 2 || eta == 3,
        k <= 4,
        first <= 8,
    ensures
        v@.len() == k,
        ntt_vec_wf(v@),
{
    let mut v: Vec<PolyNtt> = Vec::new();
    let mut i: usize = 0;
    while i < k
        invariant
            seed@.len() == 32,
            eta == 2 || eta == 3,
            k <= 4,
            first <= 8,
            i <= k,
            v@.len() == i,
            ntt_vec_wf(v@),
        decreases k - i,
    {
        let stream = prf(seed, first + (i as u8), 64 * eta);
        let p = sample_cbd(&stream, eta);
        v.push(ntt(&p));
        i = i + 1;
    }
    v
}

/// The dot product of a row of the matrix with a transform-domain vector:
/// `sum_j entry(j) * v[j]`, where `entry` is sampled from the seed. When
/// `transposed` is false, row `row` of `A` is used; otherwise row `row`
/// of `A` transposed.
fn matrix_row_mul(
    seed: &Vec<u8>,
    row: usize,
    transposed: bool,
    v: &Vec<PolyNtt>,
) -> (acc: PolyNtt)
    requires
        seed@.len() == 32,
        v@.len() <= 4,
        row <= 4,
        ntt_vec_wf(v@),
    ensures
        acc.wf(),
{
    let mut acc = PolyNtt::zero();
    let mut j: usize = 0;
    while j < v.len()
        invariant
            seed@.len() == 32,
            v@.len() <= 4,
            row <= 4,
            ntt_vec_wf(v@),
            j <= v@.len(),
            acc.wf(),
        decreases v@.len() - j,
    {
        let entry = if transposed {
            sample_uniform(seed, row as u8, j as u8)
        } else {
            sample_uniform(seed, j as u8, row as u8)
        };
        acc = ntt_add(&acc, &basemul(&entry, &v[j]));
        j = j + 1;
    }
    acc
}

/// CPA key generation from the 32-byte seed `d`: expands the matrix from
/// the public seed `rho`, samples secret and error vectors, and returns
/// `(pk, sk) = (encode(t) || rho, encode(s))` with the documented lengths.
pub fn keygen(d: &Vec<u8>, ps: &ParamSet) -> (r: (Vec<u8>, Vec<u8>))
    requires
        d@.len() == 32,
        ps.wf(),
    ensures
        r.0@.len() == ps.spec_public_key_bytes(),
        r.1@.len() == ps.spec_polyvec_bytes(),
{
    let g = sha3_512(d);
    let rho = subvec(&g, 0, 32);
    let sigma = subvec(&g, 32, 64);
    let shat = sample_noise_ntt(&sigma, 0, ps.eta1, ps.k);
    let ehat = sample_noise_ntt(&sigma, ps.k as u8, ps.eta1, ps.k);
    let mut that: Vec<PolyNtt> = Vec::new();
    let mut i: usize = 0;
    while i < ps.k
        invariant
            ps.wf(),
            rho@.len() == 32,
            shat@.len() == ps.k,
            ehat@.len() == ps.k,
            ntt_vec_wf(shat@),
            ntt_vec_wf(ehat@),
            i <= ps.k,
            that@.len() == i,
            ntt_vec_wf(that@),
        decreases ps.k - i,
    {
        let acc = matrix_row_mul(&rho, i, false, &shat);
        that.push(ntt_add(&acc, &ehat[i]));
        i = i + 1;
    }
    let mut pk = polyvec_to_bytes(&that);
    let mut rho_tail = subvec(&g, 0, 32);
    pk.append(&mut rho_tail);
    let sk = polyvec_to_bytes(&shat);
    (pk, sk)
}

/// CPA encryption: a deterministic function of the public key, the
/// 32-byte message and the 32-byte coin, returning a ciphertext of the
/// documented length.
pub fn encrypt(pk: &Vec<u8>, m: &Vec<u8>, coins: &Vec<u8>, ps: &ParamSet) -> (ct: Vec<u8>)
    requires
        pk@.len() == ps.spec_public_key_bytes(),
        m@.len() == 32,
        coins@.len() == 32,
        ps.wf(),
    ensures
        ct@.len() == ps.spec_ciphertext_bytes(),
{
    let kpv = ps.polyvec_bytes();
    let tbytes = subvec(pk, 0, kpv);
    let that = polyvec_from_bytes(&tbytes, ps.k);
    let rho = subvec(pk, kpv, kpv + 32);
    let rhat = sample_noise_ntt(coins, 0, ps.eta1, ps.k);
    let mut ct: Vec<u8> = Vec::new();
    let mut i: usize = 0;
    while i < ps.k
        invariant
            ps.wf(),
            rho@.len() == 32,
            coins@.len() == 32,
            rhat@.len() == ps.k,
            ntt_vec_wf(rhat@),
            i <= ps.k,
            ct@.len() == i * (32 * ps.du),
        decreases ps.k - i,
    {
        let acc = matrix_row_mul(&rho, i, true, &rhat);
        let e1_stream = prf(coins, (ps.k + i) as u8, 64 * ps.eta2);
        let e1 = sample_cbd(&e1_stream, ps.eta2);
        let u = poly_add(&inv_ntt(&acc), &e1);
        let mut part = compress_poly(&u.c, ps.du);
        ct.append(&mut part);
        proof {
            assert((i + 1) * (32 * ps.du) == i * (32 * ps.du) + 32 * ps.du) by (nonlinear_arith);
        }
        i = i + 1;
    }
    proof {
        assert(ps.k * (32 * ps.du) == ps.k * ps.du * 32) by (nonlinear_arith);
    }
    let mut acc = PolyNtt::zero();
    let mut j: usize = 0;
    while j < ps.k
        invariant
            ps.wf(),
            that@.len() == ps.k,
            rhat@.len() == ps.k,
            ntt_vec_wf(that@),
            ntt_vec_wf(rhat@),
            j <= ps.k,
            acc.wf(),
        decreases ps.k - j,
    {
        acc = ntt_add(&acc, &basemul(&that[j], &rhat[j]));
        j = j + 1;
    }
    let e2_stream = prf(coins, (2 * ps.k) as u8, 64 * ps.eta2);
    let e2 = sample_cbd(&e2_stream, ps.eta2);
    let msg_poly = Poly { c: decompress_poly(m, 1) };
    let v = poly_add(&poly_add(&inv_ntt(&acc), &e2), &msg_poly);
    let mut vpart = compress_poly(&v.c, ps.dv);
    ct.append(&mut vpart);
    ct
}

/// CPA decryption: recovers the 32-byte message from a ciphertext and the
/// CPA-form secret key. It cannot fail: any input bytes of the right
/// length decode to well-formed ring elements, and the output bytes are
/// pinned to the one-bit compression of [`spec_decrypt_poly`].
pub fn decrypt(sk: &Vec<u8>, ct: &Vec<u8>, ps: &ParamSet) -> (m: Vec<u8>)
    requires
        sk@.len() == ps.spec_polyvec_bytes(),
        ct@.len() == ps.spec_ciphertext_bytes(),
        ps.wf(),
    ensures
        m@.len() == 32,
        forall|by: int| 0 <= by < 32 ==> m@[by] as int == crate::codec::spec_packed_byte(
            crate::codec::spec_compressed_seq(spec_decrypt_poly(sk@, ct@, *ps), 1),
            1,
            by,
            8,
        ),
{
    let shat = polyvec_from_bytes(sk, ps.k);
    let ublock = 32 * ps.du;
    proof {
        assert(ps.k * (32 * ps.du) == ps.k * ps.du * 32) by (nonlinear_arith);
    }
    let mut acc = PolyNtt::zero();
    let mut i: usize = 0;
    while i < ps.k
        invariant
            ps.wf(),
            ublock == 32 * ps.du,
            ct@.len() == ps.spec_ciphertext_bytes(),
            ct@.len() <= usize::MAX,
            shat@.len() == ps.k,
            sk@.len() == ps.k * 384,
            ntt_vec_wf(shat@),
            forall|j: int| 0 <= j < ps.k ==> (#[trigger] shat@[j]).c@ == crate::codec::spec_decoded(
                sk@.subrange(j * 384, j * 384 + 384),
            ),
            i <= ps.k,
            acc.wf(),
            acc.c@ == spec_decrypt_acc(sk@, ct@, ps.du as int, i as int),
        decreases ps.k - i,
    {
        proof {
            assert(i * ublock + ublock <= ps.k * (32 * ps.du) && ps.k * (32 * ps.du) == ps.k
                * ps.du * 32) by (nonlinear_arith)
                requires
                    i < ps.k,
                    ublock == 32 * ps.du,
            ;
        }
        let upart = subvec(ct, i * ublock, i * ublock + ublock);
        let ui = Poly { c: decompress_poly(&upart, ps.du) };
        acc = ntt_add(&acc, &basemul(&shat[i], &ntt(&ui)));
        proof {
            assert(spec_decrypt_acc(sk@, ct@, ps.du as int, i + 1) == crate::ring::spec_add(
                spec_decrypt_acc(sk@, ct@, ps.du as int, i as int),
                crate::ring::spec_basemul(
                    crate::codec::spec_decoded(sk@.subrange(i * 384, i * 384 + 384)),
                    crate::ring::spec_ntt(
                        crate::codec::spec_decompressed(
                            ct@.subrange(i * (32 * ps.du), i * (32 * ps.du) + 32 * ps.du),
                            ps.du as int,
                        ),
                    ),
                ),
            ));
        }
        i = i + 1;
    }
    proof {
        assert(ps.k * (32 * ps.du) == ps.k * ps.du * 32) by (nonlinear_arith);
    }
    let voff = ps.k * ublock;
    let vpart = subvec(ct, voff, voff + 32 * ps.dv);
    let v = Poly { c: decompress_poly(&vpart, ps.dv) };
    let mp = poly_sub(&v, &inv_ntt(&acc));
    proof {
        assert(mp.c@ == spec_decrypt_poly(sk@, ct@, *ps));
    }
    compress_poly(&mp.c, 1)
}

} // verus!
