//! A lattice-based key-encapsulation mechanism of the Kyber family.
//!
//! The crate builds a CCA2-secure KEM out of a CPA-secure public-key
//! encryption scheme over the ring `Z_q[X]/(X^256 + 1)` with `q = 3329`:
//! polynomial arithmetic and the number-theoretic transform ([`ring`]),
//! seed-driven sampling ([`sample`]), lossy coefficient compression and
//! byte encoding ([`codec`]), the CPA scheme ([`indcpa`]) and the
//! implicit-rejection transform that hardens it against chosen-ciphertext
//! attacks ([`kem`]). Three parameter sets of module rank 2, 3 and 4 are
//! supported ([`params`]); the boundary functions here use the rank-2 set
//! and fixed byte lengths of 800 (public key), 1632 (secret key), 768
//! (ciphertext) and 32 (shared secret).

#![allow(non_snake_case)]

use vstd::prelude::*;

pub mod codec;
pub mod indcpa;
pub mod keccak;
pub mod kem;
pub mod params;
pub mod ring;
pub mod sample;

verus! {

use crate::params::ParamSet;
use crate::codec::subvec;

/// Public-key length of the rank-2 parameter set.
pub const KYBER_PUBLIC_KEY_BYTES: usize = 800;

/// Secret-key length of the rank-2 parameter set.
pub const KYBER_SECRET_KEY_BYTES: usize = 1632;

/// Ciphertext length of the rank-2 parameter set.
pub const KYBER_CIPHERTEXT_BYTES: usize = 768;

/// Shared secrets are always 32 bytes.
pub const KYBER_SHARED_SECRET_BYTES: usize = 32;

/// The failure conditions of the boundary operations.
#[derive(Clone, Copy, Debug, PartialEq, Eq, Structural)]
pub enum KyberLibError {
    /// An input buffer had a length other than the one the parameter set
    /// fixes: rejected before any secret-dependent computation.
    InvalidInput,
    /// The operating-system randomness source could not supply bytes:
    /// fatal for key generation and encapsulation, never retried here.
    RandomBytesGeneration,
}

/// Relies on `rand::rngs::OsRng` and `rand::RngCore::try_fill_bytes`:
/// fills a fresh buffer of the requested length with operating-system
/// randomness, or reports that the source failed. Nothing can be said of
/// the bytes themselves.
#[verifier::external_body]
fn os_random_bytes(n: usize) -> (r: Option<Vec<u8>>)
    ensures
        r matches Some(v) ==> v@.len() == n,
{
    let mut buf: Vec<u8> = vec![0u8; n];
    match rand::RngCore::try_fill_bytes(&mut rand::rngs::OsRng, &mut buf) {
        Ok(()) => Some(buf),
        Err(_) => None,
    }
}

/// A freshly generated key pair, as the two encoded byte strings.
pub struct Keys {
    /// The encoded public key.
    pub pubkey: Vec<u8>,
    /// The encoded secret key.
    pub secret: Vec<u8>,
}

/// The two outputs of an encapsulation: the ciphertext to transmit and
/// the locally derived shared secret.
pub struct Kex {
    /// The ciphertext to transmit.
    pub ciphertext: Vec<u8>,
    /// The locally derived shared secret.
    pub sharedSecret: Vec<u8>,
}

/// Generates a rank-2 key pair from operating-system randomness. The
/// secret key is the CCA form: the CPA secret vector, then a byte-for-byte
/// copy of the public key, then the public-key hash, then the 32-byte
/// rejection value.
pub fn keypair() -> (r: Result<Keys, KyberLibError>)
    ensures
        r matches Ok(keys) ==> keys.pubkey@.len() == 800 && keys.secret@.len() == 1632
            && keys.secret@.subrange(768, 1568) == keys.pubkey@,
        r matches Err(e) ==> e == KyberLibError::RandomBytesGeneration,
{
    let ps = ParamSet::rank2();
    match os_random_bytes(64) {
        Some(seed) => {
            let d = subvec(&seed, 0, 32);
            let z = subvec(&seed, 32, 64);
            let (pk, sk) = kem::keypair_derand(&d, &z, &ps);
            Ok(Keys { pubkey: pk, secret: sk })
        },
        None => Err(KyberLibError::RandomBytesGeneration),
    }
}

/// Encapsulates against a rank-2 public key: checks the length, draws a
/// fresh random message seed, and derives ciphertext and shared secret.
pub fn encapsulate(pk: &Vec<u8>) -> (r: Result<Kex, KyberLibError>)
    ensures
        r matches Ok(kex) ==> pk@.len() == 800 && kex.ciphertext@.len() == 768
            && kex.sharedSecret@.len() == 32,
        pk@.len() != 800 ==> (r matches Err(e) && e == KyberLibError::InvalidInput),
        r matches Err(e) ==> (e == KyberLibError::InvalidInput && pk@.len() != 800) || e
            == KyberLibError::RandomBytesGeneration,
{
    if pk.len() != KYBER_PUBLIC_KEY_BYTES {
        return Err(KyberLibError::InvalidInput);
    }
    let ps = ParamSet::rank2();
    match os_random_bytes(32) {
        Some(mseed) => {
            let (ct, ss) = kem::encapsulate_derand(pk, &mseed, &ps);
            Ok(Kex { ciphertext: ct, sharedSecret: ss })
        },
        None => Err(KyberLibError::RandomBytesGeneration),
    }
}

/// Decapsulates a rank-2 ciphertext: checks both lengths, then always
/// returns a 32-byte shared secret — genuine for a valid ciphertext, the
/// deterministic decoy for anything else (implicit rejection).
pub fn decapsulate(ct: &Vec<u8>, sk: &Vec<u8>) -> (r: Result<Vec<u8>, KyberLibError>)
    ensures
        (r matches Ok(ss)) <==> (ct@.len() == 768 && sk@.len() == 1632),
        r matches Ok(ss) ==> ss@.len() == 32,
        r matches Err(e) ==> e == KyberLibError::InvalidInput,
{
    if ct.len() != KYBER_CIPHERTEXT_BYTES || sk.len() != KYBER_SECRET_KEY_BYTES {
        return Err(KyberLibError::InvalidInput);
    }
    let ps = ParamSet::rank2();
    Ok(kem::decapsulate(ct, sk, &ps))
}

impl Keys {
    /// Generates a fresh key pair, as [`keypair`] does.
    pub fn new() -> (r: Result<Keys, KyberLibError>)
        ensures
            r matches Ok(keys) ==> keys.pubkey@.len() == 800 && keys.secret@.len() == 1632
                && keys.secret@.subrange(768, 1568) == keys.pubkey@,
            r matches Err(e) ==> e == KyberLibError::RandomBytesGeneration,
    {
        keypair()
    }

    /// The encoded public key.
    pub fn pubkey(&self) -> (r: Vec<u8>)
        ensures
            r@ == self.pubkey@,
    {
        subvec(&self.pubkey, 0, self.pubkey.len())
    }

    /// The encoded secret key.
    pub fn secret(&self) -> (r: Vec<u8>)
        ensures
            r@ == self.secret@,
    {
        subvec(&self.secret, 0, self.secret.len())
    }
}

impl Kex {
    /// Encapsulates against the given public key, as [`encapsulate`]
    /// does; the length check and the randomness source can fail, so the
    /// result is returned rather than unwrapped.
    pub fn new(public_key: &Vec<u8>) -> (r: Result<Kex, KyberLibError>)
        ensures
            r matches Ok(kex) ==> public_key@.len() == 800 && kex.ciphertext@.len() == 768
                && kex.sharedSecret@.len() == 32,
            public_key@.len() != 800 ==> (r matches Err(e) && e == KyberLibError::InvalidInput),
            r matches Err(e) ==> (e == KyberLibError::InvalidInput && public_key@.len() != 800)
                || e == KyberLibError::RandomBytesGeneration,
    {
        encapsulate(public_key)
    }

    /// The ciphertext to transmit.
    pub fn ciphertext(&self) -> (r: Vec<u8>)
        ensures
            r@ == self.ciphertext@,
    {
        subvec(&self.ciphertext, 0, self.ciphertext.len())
    }

    /// The locally derived shared secret.
    pub fn sharedSecret(&self) -> (r: Vec<u8>)
        ensures
            r@ == self.sharedSecret@,
    {
        subvec(&self.sharedSecret, 0, self.sharedSecret.len())
    }

    /// Replaces the stored ciphertext.
    pub fn set_ciphertext(&mut self, ciphertext: Vec<u8>)
        ensures
            final(self).ciphertext@ == ciphertext@,
            final(self).sharedSecret@ == old(self).sharedSecret@,
    {
        self.ciphertext = ciphertext;
    }

    /// Replaces the stored shared secret.
    pub fn set_sharedSecret(&mut self, sharedSecret: Vec<u8>)
        ensures
            final(self).sharedSecret@ == sharedSecret@,
            final(self).ciphertext@ == old(self).ciphertext@,
    {
        self.sharedSecret = sharedSecret;
    }
}

/// The byte lengths of the rank-2 boundary objects, as a record.
pub struct Params {
    /// Length of an encoded public key.
    pub publicKeyBytes: usize,
    /// Length of an encoded secret key.
    pub secretKeyBytes: usize,
    /// Length of a ciphertext.
    pub ciphertextBytes: usize,
    /// Length of a shared secret.
    pub sharedSecretBytes: usize,
}

impl Params {
    /// Length of an encoded public key.
    pub fn publicKeyBytes() -> (n: usize)
        ensures
            n == 800,
    {
        KYBER_PUBLIC_KEY_BYTES
    }

    /// Length of an encoded secret key.
    pub fn secretKeyBytes() -> (n: usize)
        ensures
            n == 1632,
    {
        KYBER_SECRET_KEY_BYTES
    }

    /// Length of a ciphertext.
    pub fn ciphertextBytes() -> (n: usize)
        ensures
            n == 768,
    {
        KYBER_CIPHERTEXT_BYTES
    }

    /// Length of a shared secret.
    pub fn sharedSecretBytes() -> (n: usize)
        ensures
            n == 32,
    {
        KYBER_SHARED_SECRET_BYTES
    }
}

} // verus!
