//! Parameter sets: immutable configuration records fixing the module rank,
//! noise widths and compression widths, and with them every byte length at
//! the boundary.
//!
//! The ring dimension (256) and the modulus (3329) are common to all sets.

use vstd::prelude::*;

verus! {

/// The ring dimension `n`: polynomials have 256 coefficients.
pub const KYBER_N: usize = 256;

/// The prime modulus `q` of the coefficient ring.
pub const KYBER_Q: u16 = 3329;

/// Seeds, hashes and shared secrets are all 32 bytes wide.
pub const KYBER_SYM_BYTES: usize = 32;

/// Byte length of a shared secret.
pub const KYBER_SHARED_SECRET_BYTES: usize = 32;

/// Byte length of one uncompressed ring element (12 bits per coefficient).
pub const KYBER_POLY_BYTES: usize = 384;

/// An immutable configuration record: module rank `k`, noise widths
/// `eta1`/`eta2`, and compression widths `du`/`dv`. Three standard
/// instances exist, of module rank 2, 3 and 4.
#[derive(Clone, Copy)]
pub struct ParamSet {
    /// Module rank `k`: vectors have `k` ring elements.
    pub k: usize,
    /// Width of the centered binomial noise for secrets and first errors.
    pub eta1: usize,
    /// Width of the centered binomial noise for the remaining errors.
    pub eta2: usize,
    /// Compression width (bits per coefficient) of the ciphertext vector `u`.
    pub du: usize,
    /// Compression width (bits per coefficient) of the ciphertext element `v`.
    pub dv: usize,
}

impl ParamSet {
    /// A parameter set is one of the three standardized instances.
    pub open spec fn wf(self) -> bool {
        (self.k == 2 && self.eta1 == 3 && self.eta2 == 2 && self.du == 10 && self.dv == 4)
            || (self.k == 3 && self.eta1 == 2 && self.eta2 == 2 && self.du == 10 && self.dv == 4)
            || (self.k == 4 && self.eta1 == 2 && self.eta2 == 2 && self.du == 11 && self.dv == 5)
    }

    /// The rank-2 instance (the smallest security level).
    pub fn rank2() -> (ps: ParamSet)
        ensures
            ps.wf(),
            ps.k == 2,
    {
        ParamSet { k: 2, eta1: 3, eta2: 2, du: 10, dv: 4 }
    }

    /// The rank-3 instance (the middle security level).
    pub fn rank3() -> (ps: ParamSet)
        ensures
            ps.wf(),
            ps.k == 3,
    {
        ParamSet { k: 3, eta1: 2, eta2: 2, du: 10, dv: 4 }
    }

    /// The rank-4 instance (the highest security level).
    pub fn rank4() -> (ps: ParamSet)
        ensures
            ps.wf(),
            ps.k == 4,
    {
        ParamSet { k: 4, eta1: 2, eta2: 2, du: 11, dv: 5 }
    }

    /// Byte length of an encoded module vector (12 bits per coefficient).
    pub open spec fn spec_polyvec_bytes(self) -> int {
        self.k * 384
    }

    /// Byte length of a public key: encoded vector `t` plus the 32-byte seed.
    pub open spec fn spec_public_key_bytes(self) -> int {
        self.k * 384 + 32
    }

    /// Byte length of a CCA-form secret key: the CPA secret vector, a copy
    /// of the public key, the public-key hash, and the rejection value `z`.
    pub open spec fn spec_secret_key_bytes(self) -> int {
        self.k * 384 + (self.k * 384 + 32) + 32 + 32
    }

    /// Byte length of a ciphertext: compressed `u` plus compressed `v`.
    pub open spec fn spec_ciphertext_bytes(self) -> int {
        self.k * self.du * 32 + self.dv * 32
    }

    /// Byte length of an encoded module vector.
    pub fn polyvec_bytes(&self) -> (n: usize)
        requires
            self.wf(),
        ensures
            n == self.spec_polyvec_bytes(),
    {
        self.k * 384
    }

    /// Byte length of a public key.
    pub fn public_key_bytes(&self) -> (n: usize)
        requires
            self.wf(),
        ensures
            n == self.spec_public_key_bytes(),
    {
        self.k * 384 + 32
    }

    /// Byte length of a CCA-form secret key.
    pub fn secret_key_bytes(&self) -> (n: usize)
        requires
            self.wf(),
        ensures
            n == self.spec_secret_key_bytes(),
    {
        self.k * 384 + (self.k * 384 + 32) + 32 + 32
    }

    /// Byte length of a ciphertext.
    pub fn ciphertext_bytes(&self) -> (n: usize)
        requires
            self.wf(),
        ensures
            n == self.spec_ciphertext_bytes(),
    {
        self.k * self.du * 32 + self.dv * 32
    }
}

} // verus!
