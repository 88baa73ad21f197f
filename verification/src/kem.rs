//! The CCA2 transform: keypair / encapsulate / decapsulate with
//! domain-separated hashing and implicit rejection.
//!
//! Decapsulation re-encrypts the recovered message deterministically and
//! compares the result to the received ciphertext with a branch-free,
//! constant-time byte comparison; the comparison's verdict selects — again
//! without a branch — between the genuine secret and a decoy derived from
//! the stored rejection value `z`, so that invalid ciphertexts exercise
//! exactly the same sequence of operations as valid ones.

use vstd::prelude::*;

verus! {

use crate::params::ParamSet;
use crate::keccak::sha3_256;
use crate::keccak::sha3_512;
use crate::keccak::shake256;
use crate::codec::subvec;
use crate::indcpa;

/// Branch-free equality verdict on two equal-length byte strings:
/// `0xFF` exactly when they are equal, `0x00` otherwise. The amount of
/// work done does not depend on where (or whether) the strings differ.
pub fn ct_eq_mask(a: &Vec<u8>, b: &Vec<u8>) -> (m: u8)
    requires
        a@.len() == b@.len(),
    ensures
        m == 0xFF || m == 0x00,
        (m == 0xFF) <==> (a@ == b@),
{
    let mut acc: u8 = 0;
    let n = a.len();
    let mut i: usize = 0;
    proof {
        assert(a@.subrange(0, 0) =~= b@.subrange(0, 0));
    }
    while i < n
        invariant
            n == a@.len(),
            a@.len() == b@.len(),
            i <= n,
            (acc == 0) <==> (a@.subrange(0, i as int) == b@.subrange(0, i as int)),
        decreases n - i,
    {
        let d = a[i] ^ b[i];
        proof {
            let x = a@[i as int];
            let y = b@[i as int];
            assert(((x ^ y) == 0) == (x == y)) by (bit_vector);
            assert((acc | (x ^ y)) == 0 <==> acc == 0 && (x ^ y) == 0) by (bit_vector);
            if acc == 0 && x == y {
                assert(a@.subrange(0, i + 1 as int) =~= b@.subrange(0, i + 1 as int));
            }
            if a@.subrange(0, i + 1 as int) == b@.subrange(0, i + 1 as int) {
                assert(a@.subrange(0, i as int) =~= a@.subrange(0, i + 1 as int).subrange(
                    0,
                    i as int,
                ));
                assert(b@.subrange(0, i as int) =~= b@.subrange(0, i + 1 as int).subrange(
                    0,
                    i as int,
                ));
                assert(x == a@.subrange(0, i + 1 as int)[i as int]);
            }
        }
        acc = acc | d;
        i = i + 1;
    }
    proof {
        assert(a@.subrange(0, n as int) =~= a@);
        assert(b@.subrange(0, n as int) =~= b@);
    }
    let nz = ((acc as u16) + 255) / 256;
    let m = ((1 - nz) * 255) as u8;
    m
}

/// Branch-free selection: byte `i` of the result is `a[i]` where the mask
/// is `0xFF` and `b[i]` where it is `0x00`.
pub fn ct_select(a: &Vec<u8>, b: &Vec<u8>, mask: u8) -> (r: Vec<u8>)
    requires
        a@.len() == b@.len(),
        mask == 0xFF || mask == 0x00,
    ensures
        r@.len() == a@.len(),
        mask == 0xFF ==> r@ == a@,
        mask == 0x00 ==> r@ == b@,
{
    let mut r: Vec<u8> = Vec::new();
    let n = a.len();
    let mut i: usize = 0;
    while i < n
        invariant
            n == a@.len(),
            a@.len() == b@.len(),
            mask == 0xFF || mask == 0x00,
            i <= n,
            r@.len() == i,
            mask == 0xFF ==> r@ == a@.subrange(0, i as int),
            mask == 0x00 ==> r@ == b@.subrange(0, i as int),
        decreases n - i,
    {
        let x = a[i];
        let y = b[i];
        proof {
            assert(((x & 0xFFu8) | (y & !0xFFu8)) == x) by (bit_vector);
            assert(((x & 0x00u8) | (y & !0x00u8)) == y) by (bit_vector);
        }
        r.push((x & mask) | (y & !mask));
        proof {
            if mask == 0xFF {
                assert(r@ =~= a@.subrange(0, i + 1 as int));
            } else {
                assert(r@ =~= b@.subrange(0, i + 1 as int));
            }
        }
        i = i + 1;
    }
    proof {
        assert(a@.subrange(0, n as int) =~= a@);
        assert(b@.subrange(0, n as int) =~= b@);
    }
    r
}

/// KEM key generation from two independent 32-byte secrets: `d` drives
/// the CPA key pair, `z` is stored for implicit rejection. The secret key
/// is `cpa_sk || pk || H(pk) || z`.
pub fn keypair_derand(d: &Vec<u8>, z: &Vec<u8>, ps: &ParamSet) -> (r: (Vec<u8>, Vec<u8>))
    requires
        d@.len() == 32,
        z@.len() == 32,
        ps.wf(),
    ensures
        r.0@.len() == ps.spec_public_key_bytes(),
        r.1@.len() == ps.spec_secret_key_bytes(),
        r.1@.subrange(
            ps.spec_polyvec_bytes(),
            ps.spec_polyvec_bytes() + ps.spec_public_key_bytes(),
        ) == r.0@,
        r.1@.subrange(
            r.1@.len() - 32,
            r.1@.len() as int,
        ) == z@,
{
    let (pk, skc) = indcpa::keygen(d, ps);
    let mut sk = skc;
    let mut pk_copy = subvec(&pk, 0, pk.len());
    sk.append(&mut pk_copy);
    let mut hpk = sha3_256(&pk);
    sk.append(&mut hpk);
    let mut zc = subvec(z, 0, 32);
    sk.append(&mut zc);
    proof {
        assert(sk@.subrange(
            ps.spec_polyvec_bytes(),
            ps.spec_polyvec_bytes() + ps.spec_public_key_bytes(),
        ) =~= pk@);
        assert(sk@.subrange(sk@.len() - 32, sk@.len() as int) =~= z@);
    }
    (pk, sk)
}

/// Encapsulation against a public key, from a 32-byte random seed: the
/// message is the hash of the seed, the coin and the pre-key are the two
/// halves of `G(m || H(pk))`, and the shared secret is
/// `KDF(pre_key || H(ct))`.
pub fn encapsulate_derand(pk: &Vec<u8>, mseed: &Vec<u8>, ps: &ParamSet) -> (r: (Vec<u8>, Vec<u8>))
    requires
        pk@.len() == ps.spec_public_key_bytes(),
        mseed@.len() == 32,
        ps.wf(),
    ensures
        r.0@.len() == ps.spec_ciphertext_bytes(),
        r.1@.len() == 32,
{
    let m = sha3_256(mseed);
    let mut buf = subvec(&m, 0, 32);
    let mut hpk = sha3_256(pk);
    buf.append(&mut hpk);
    let g = sha3_512(&buf);
    let kbar = subvec(&g, 0, 32);
    let coins = subvec(&g, 32, 64);
    let ct = indcpa::encrypt(pk, &m, &coins, ps);
    let mut kdf_in = kbar;
    let mut hct = sha3_256(&ct);
    kdf_in.append(&mut hct);
    let ss = shake256(&kdf_in, 32);
    (ct, ss)
}

/// Decapsulation with implicit rejection: decrypt, re-encrypt
/// deterministically, compare in constant time, and derive the shared
/// secret from the genuine pre-key or from the stored `z` — both paths
/// running the same operations. It never fails and never signals whether
/// the ciphertext was valid.
pub fn decapsulate(ct: &Vec<u8>, sk: &Vec<u8>, ps: &ParamSet) -> (ss: Vec<u8>)
    requires
        ct@.len() == ps.spec_ciphertext_bytes(),
        sk@.len() == ps.spec_secret_key_bytes(),
        ps.wf(),
    ensures
        ss@.len() == 32,
{
    let kpv = ps.polyvec_bytes();
    let pkb = ps.public_key_bytes();
    let skc = subvec(sk, 0, kpv);
    let pk = subvec(sk, kpv, kpv + pkb);
    let hpk = subvec(sk, kpv + pkb, kpv + pkb + 32);
    let z = subvec(sk, kpv + pkb + 32, kpv + pkb + 64);
    let mp = indcpa::decrypt(&skc, ct, ps);
    let mut buf = subvec(&mp, 0, 32);
    let mut hpk_copy = subvec(&hpk, 0, 32);
    buf.append(&mut hpk_copy);
    let g = sha3_512(&buf);
    let kbar = subvec(&g, 0, 32);
    let coins = subvec(&g, 32, 64);
    let ct2 = indcpa::encrypt(&pk, &mp, &coins, ps);
    let mask = ct_eq_mask(ct, &ct2);
    let key = ct_select(&kbar, &z, mask);
    let mut kdf_in = key;
    let mut hct = sha3_256(ct);
    kdf_in.append(&mut hct);
    shake256(&kdf_in, 32)
}

} // verus!
