//! The Keccak sponge and the derived hash and extendable-output functions
//! that the scheme uses for matrix expansion, noise seeding, and the
//! chosen-ciphertext-hardening transform.
//!
//! Everything here is ordinary verified code: the permutation is bitwise
//! arithmetic on a 25-lane state, and every function is a pure,
//! deterministic map from input bytes to output bytes of a stated length.

use vstd::prelude::*;

verus! {

/// Left-rotation of a 64-bit lane.
fn rotl(x: u64, n: u64) -> u64
    requires
        1 <= n < 64,
{
    (x << n) | (x >> (64 - n))
}

/// The 24 round constants of the Keccak-f[1600] permutation.
fn round_constants() -> (rc: Vec<u64>)
    ensures
        rc@.len() == 24,
{
    let mut rc: Vec<u64> = Vec::new();
    rc.push(0x0000000000000001);
    rc.push(0x0000000000008082);
    rc.push(0x800000000000808a);
    rc.push(0x8000000080008000);
    rc.push(0x000000000000808b);
    rc.push(0x0000000080000001);
    rc.push(0x8000000080008081);
    rc.push(0x8000000000008009);
    rc.push(0x000000000000008a);
    rc.push(0x0000000000000088);
    rc.push(0x0000000080008009);
    rc.push(0x000000008000000a);
    rc.push(0x000000008000808b);
    rc.push(0x800000000000008b);
    rc.push(0x8000000000008089);
    rc.push(0x8000000000008003);
    rc.push(0x8000000000008002);
    rc.push(0x8000000000000080);
    rc.push(0x000000000000800a);
    rc.push(0x800000008000000a);
    rc.push(0x8000000080008081);
    rc.push(0x8000000000008080);
    rc.push(0x0000000080000001);
    rc.push(0x8000000080008008);
    rc
}

/// The Keccak-f[1600] permutation: 24 rounds of theta, rho, pi, chi, iota
/// over the 5x5 lane grid (lane (x, y) lives at index x + 5*y).
fn keccakf(a: &mut [u64; 25]) {
    let rc = round_constants();
    let mut r: usize = 0;
    while r < 24
        invariant
            r <= 24,
            rc@.len() == 24,
        decreases 24 - r,
    {
        let c0 = a[0] ^ a[5] ^ a[10] ^ a[15] ^ a[20];
        let c1 = a[1] ^ a[6] ^ a[11] ^ a[16] ^ a[21];
        let c2 = a[2] ^ a[7] ^ a[12] ^ a[17] ^ a[22];
        let c3 = a[3] ^ a[8] ^ a[13] ^ a[18] ^ a[23];
        let c4 = a[4] ^ a[9] ^ a[14] ^ a[19] ^ a[24];
        let d0 = c4 ^ rotl(c1, 1);
        let d1 = c0 ^ rotl(c2, 1);
        let d2 = c1 ^ rotl(c3, 1);
        let d3 = c2 ^ rotl(c4, 1);
        let d4 = c3 ^ rotl(c0, 1);
        a[0] = a[0] ^ d0;
        a[1] = a[1] ^ d1;
        a[2] = a[2] ^ d2;
        a[3] = a[3] ^ d3;
        a[4] = a[4] ^ d4;
        a[5] = a[5] ^ d0;
        a[6] = a[6] ^ d1;
        a[7] = a[7] ^ d2;
        a[8] = a[8] ^ d3;
        a[9] = a[9] ^ d4;
        a[10] = a[10] ^ d0;
        a[11] = a[11] ^ d1;
        a[12] = a[12] ^ d2;
        a[13] = a[13] ^ d3;
        a[14] = a[14] ^ d4;
        a[15] = a[15] ^ d0;
        a[16] = a[16] ^ d1;
        a[17] = a[17] ^ d2;
        a[18] = a[18] ^ d3;
        a[19] = a[19] ^ d4;
        a[20] = a[20] ^ d0;
        a[21] = a[21] ^ d1;
        a[22] = a[22] ^ d2;
        a[23] = a[23] ^ d3;
        a[24] = a[24] ^ d4;
        let b0 = a[0];
        let b1 = rotl(a[6], 44);
        let b2 = rotl(a[12], 43);
        let b3 = rotl(a[18], 21);
        let b4 = rotl(a[24], 14);
        let b5 = rotl(a[3], 28);
        let b6 = rotl(a[9], 20);
        let b7 = rotl(a[10], 3);
        let b8 = rotl(a[16], 45);
        let b9 = rotl(a[22], 61);
        let b10 = rotl(a[1], 1);
        let b11 = rotl(a[7], 6);
        let b12 = rotl(a[13], 25);
        let b13 = rotl(a[19], 8);
        let b14 = rotl(a[20], 18);
        let b15 = rotl(a[4], 27);
        let b16 = rotl(a[5], 36);
        let b17 = rotl(a[11], 10);
        let b18 = rotl(a[17], 15);
        let b19 = rotl(a[23], 56);
        let b20 = rotl(a[2], 62);
        let b21 = rotl(a[8], 55);
        let b22 = rotl(a[14], 39);
        let b23 = rotl(a[15], 41);
        let b24 = rotl(a[21], 2);
        a[0] = b0 ^ ((!b1) & b2);
        a[1] = b1 ^ ((!b2) & b3);
        a[2] = b2 ^ ((!b3) & b4);
        a[3] = b3 ^ ((!b4) & b0);
        a[4] = b4 ^ ((!b0) & b1);
        a[5] = b5 ^ ((!b6) & b7);
        a[6] = b6 ^ ((!b7) & b8);
        a[7] = b7 ^ ((!b8) & b9);
        a[8] = b8 ^ ((!b9) & b5);
        a[9] = b9 ^ ((!b5) & b6);
        a[10] = b10 ^ ((!b11) & b12);
        a[11] = b11 ^ ((!b12) & b13);
        a[12] = b12 ^ ((!b13) & b14);
        a[13] = b13 ^ ((!b14) & b10);
        a[14] = b14 ^ ((!b10) & b11);
        a[15] = b15 ^ ((!b16) & b17);
        a[16] = b16 ^ ((!b17) & b18);
        a[17] = b17 ^ ((!b18) & b19);
        a[18] = b18 ^ ((!b19) & b15);
        a[19] = b19 ^ ((!b15) & b16);
        a[20] = b20 ^ ((!b21) & b22);
        a[21] = b21 ^ ((!b22) & b23);
        a[22] = b22 ^ ((!b23) & b24);
        a[23] = b23 ^ ((!b24) & b20);
        a[24] = b24 ^ ((!b20) & b21);
        a[0] = a[0] ^ rc[r];
        r = r + 1;
    }
}

/// XORs one byte into the state at byte position `pos` of the 200-byte view.
fn xor_byte(s: &mut [u64; 25], pos: usize, b: u8)
    requires
        pos < 200,
{
    let lane = pos / 8;
    let shift = (pos % 8) * 8;
    s[lane] = s[lane] ^ ((b as u64) << (shift as u64));
}

/// Reads one byte of the 200-byte view of the state.
fn get_byte(s: &[u64; 25], pos: usize) -> u8
    requires
        pos < 200,
{
    let lane = pos / 8;
    let shift = (pos % 8) * 8;
    ((s[lane] >> (shift as u64)) % 256) as u8
}

/// Absorbs `input` into the sponge at the given rate, applying the
/// domain-separation byte `ds` and the final padding bit.
fn keccak_absorb(s: &mut [u64; 25], rate: usize, input: &Vec<u8>, ds: u8)
    requires
        1 <= rate < 200,
{
    let mut i: usize = 0;
    while input.len() - i >= rate
        invariant
            1 <= rate < 200,
            i <= input@.len(),
        decreases input@.len() - i,
    {
        let mut j: usize = 0;
        while j < rate
            invariant
                1 <= rate < 200,
                j <= rate,
                i + rate <= input@.len(),
                input@.len() <= usize::MAX,
            decreases rate - j,
        {
            xor_byte(s, j, input[i + j]);
            j = j + 1;
        }
        keccakf(s);
        i = i + rate;
    }
    let rem = input.len() - i;
    let mut j: usize = 0;
    while j < rem
        invariant
            1 <= rate < 200,
            j <= rem,
            rem < rate,
            i + rem == input@.len(),
            input@.len() <= usize::MAX,
        decreases rem - j,
    {
        xor_byte(s, j, input[i + j]);
        j = j + 1;
    }
    xor_byte(s, rem, ds);
    xor_byte(s, rate - 1, 0x80);
}

/// Squeezes exactly `outlen` bytes out of the sponge.
fn keccak_squeeze(s: &mut [u64; 25], rate: usize, outlen: usize) -> (out: Vec<u8>)
    requires
        1 <= rate < 200,
    ensures
        out@.len() == outlen,
{
    let mut out: Vec<u8> = Vec::new();
    while out.len() < outlen
        invariant
            1 <= rate < 200,
            out@.len() <= outlen,
        decreases outlen - out@.len(),
    {
        keccakf(s);
        let ghost before = out@.len();
        let mut j: usize = 0;
        while j < rate && out.len() < outlen
            invariant
                1 <= rate < 200,
                j <= rate,
                out@.len() == vstd::math::min(outlen as int, before + j),
                out@.len() <= outlen,
            decreases rate - j,
        {
            out.push(get_byte(s, j));
            j = j + 1;
        }
    }
    out
}

/// One-shot sponge evaluation: absorb `input` under the given rate and
/// domain-separation byte, then squeeze `outlen` bytes.
fn sponge(rate: usize, input: &Vec<u8>, ds: u8, outlen: usize) -> (out: Vec<u8>)
    requires
        1 <= rate < 200,
    ensures
        out@.len() == outlen,
{
    let mut s: [u64; 25] = [0u64; 25];
    keccak_absorb(&mut s, rate, input, ds);
    keccak_squeeze(&mut s, rate, outlen)
}

/// SHA3-256: the hash `H` of the scheme; 32 bytes of output.
pub fn sha3_256(input: &Vec<u8>) -> (out: Vec<u8>)
    ensures
        out@.len() == 32,
{
    sponge(136, input, 0x06, 32)
}

/// SHA3-512: the hash `G` of the scheme; 64 bytes of output.
pub fn sha3_512(input: &Vec<u8>) -> (out: Vec<u8>)
    ensures
        out@.len() == 64,
{
    sponge(72, input, 0x06, 64)
}

/// SHAKE-256: the pseudorandom function and key-derivation function.
pub fn shake256(input: &Vec<u8>, outlen: usize) -> (out: Vec<u8>)
    ensures
        out@.len() == outlen,
{
    sponge(136, input, 0x1f, outlen)
}

/// SHAKE-128: the extendable-output function that expands the public seed
/// into matrix coefficients.
pub fn shake128(input: &Vec<u8>, outlen: usize) -> (out: Vec<u8>)
    ensures
        out@.len() == outlen,
{
    sponge(168, input, 0x1f, outlen)
}

} // verus!
