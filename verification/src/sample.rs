//! Seed-driven sampling: uniform matrix entries from an extendable-output
//! function, and centered-binomial noise from a pseudorandom byte stream.
//!
//! Both are deterministic functions of a seed plus indices, so both
//! parties reproduce the same values from the same public bytes, and the
//! control flow never depends on a sampled value beyond the public
//! rejection test.

use vstd::prelude::*;

verus! {

use crate::params::KYBER_Q;
use crate::keccak::shake128;
use crate::keccak::shake256;
use crate::codec::subvec;
use crate::ring::Poly;
use crate::ring::PolyNtt;
use crate::ring::subq;

/// Bytes of extendable output drawn for one matrix entry: thirteen full
/// squeeze blocks, far beyond the amount rejection sampling can consume
/// except with negligible probability.
pub const UNIFORM_STREAM_BYTES: usize = 2184;

/// Expands `seed || x || y` into a uniformly distributed transform-domain
/// element by rejection sampling twelve-bit candidates below `q`.
///
/// Should the stream ever run out before 256 coefficients are accepted (a
/// probability far below that of a hardware fault), the remaining
/// coefficients are zero; the function stays deterministic either way.
pub fn sample_uniform(seed: &Vec<u8>, x: u8, y: u8) -> (r: PolyNtt)
    requires
        seed@.len() == 32,
    ensures
        r.wf(),
{
    let mut input = subvec(seed, 0, 32);
    input.push(x);
    input.push(y);
    let buf = shake128(&input, UNIFORM_STREAM_BYTES);
    let mut c: [u16; 256] = [0u16; 256];
    let mut ctr: usize = 0;
    let mut pos: usize = 0;
    while ctr < 256 && pos + 3 <= UNIFORM_STREAM_BYTES
        invariant
            buf@.len() == UNIFORM_STREAM_BYTES,
            ctr <= 256,
            pos <= UNIFORM_STREAM_BYTES,
            forall|j: int| 0 <= j < 256 ==> c[j] < KYBER_Q,
        decreases UNIFORM_STREAM_BYTES - pos,
    {
        let b0 = buf[pos] as u16;
        let b1 = buf[pos + 1] as u16;
        let b2 = buf[pos + 2] as u16;
        let d1 = b0 + 256 * (b1 % 16);
        let d2 = b1 / 16 + 16 * b2;
        if d1 < KYBER_Q {
            c[ctr] = d1;
            ctr = ctr + 1;
        }
        if d2 < KYBER_Q && ctr < 256 {
            c[ctr] = d2;
            ctr = ctr + 1;
        }
        pos = pos + 3;
    }
    PolyNtt { c }
}

/// The pseudorandom function: `shake256(seed || nonce)`, `64 * eta` bytes.
pub fn prf(seed: &Vec<u8>, nonce: u8, outlen: usize) -> (out: Vec<u8>)
    requires
        seed@.len() == 32,
    ensures
        out@.len() == outlen,
{
    let mut input = subvec(seed, 0, 32);
    input.push(nonce);
    shake256(&input, outlen)
}

/// The sum of `cnt` consecutive stream bits starting at `base`.
pub open spec fn spec_bit_sum(stream: Seq<u8>, base: int, cnt: int) -> int
    decreases cnt,
{
    if cnt <= 0 {
        0
    } else {
        spec_bit_sum(stream, base, cnt - 1) + crate::codec::spec_bit(stream, base + (cnt - 1))
    }
}

/// Draws a normal-domain noise element from the centered binomial
/// distribution of width `eta`: coefficient `i` is exactly the difference
/// of the two sums of `eta` stream bits at positions `2*eta*i` and
/// `2*eta*i + eta`, reduced into `[0, q)`.
pub fn sample_cbd(stream: &Vec<u8>, eta: usize) -> (r: Poly)
    requires
        eta == 2 || eta == 3,
        stream@.len() == 64 * eta,
    ensures
        r.wf(),
        forall|j: int| 0 <= j < 256 ==> r.c[j] <= eta || r.c[j] + eta >= KYBER_Q,
        forall|j: int| 0 <= j < 256 ==> r.c[j] as int == (spec_bit_sum(stream@, 2 * eta * j, eta as int)
            - spec_bit_sum(stream@, 2 * eta * j + eta, eta as int)) % 3329,
{
    let mut c: [u16; 256] = [0u16; 256];
    let mut i: usize = 0;
    while i < 256
        invariant
            eta == 2 || eta == 3,
            stream@.len() == 64 * eta,
            i <= 256,
            forall|j: int| 0 <= j < 256 ==> c[j] < KYBER_Q,
            forall|j: int| 0 <= j < i ==> c[j] <= eta || c[j] + eta >= KYBER_Q,
            forall|j: int| 0 <= j < i ==> c[j] as int == (spec_bit_sum(stream@, 2 * eta * j, eta as int)
                - spec_bit_sum(stream@, 2 * eta * j + eta, eta as int)) % 3329,
        decreases 256 - i,
    {
        let mut a: u16 = 0;
        let mut b: u16 = 0;
        let mut t: usize = 0;
        while t < eta
            invariant
                eta == 2 || eta == 3,
                stream@.len() == 64 * eta,
                i < 256,
                t <= eta,
                a <= t,
                b <= t,
                a as int == spec_bit_sum(stream@, 2 * eta * i, t as int),
                b as int == spec_bit_sum(stream@, 2 * eta * i + eta, t as int),
            decreases eta - t,
        {
            proof {
                assert(2 * eta * i + eta + t < 512 * eta && 2 * eta * i + eta + t <= 1535) by (
                nonlinear_arith)
                    requires
                        i < 256,
                        t < eta,
                        eta <= 3,
                ;
            }
            let bit_a = 2 * eta * i + t;
            let bit_b = 2 * eta * i + eta + t;
            a = a + ((stream[bit_a / 8] >> ((bit_a % 8) as u8)) % 2) as u16;
            b = b + ((stream[bit_b / 8] >> ((bit_b % 8) as u8)) % 2) as u16;
            proof {
                assert(spec_bit_sum(stream@, 2 * eta * i, t + 1) == spec_bit_sum(
                    stream@,
                    2 * eta * i,
                    t as int,
                ) + crate::codec::spec_bit(stream@, 2 * eta * i + t));
                assert(spec_bit_sum(stream@, 2 * eta * i + eta, t + 1) == spec_bit_sum(
                    stream@,
                    2 * eta * i + eta,
                    t as int,
                ) + crate::codec::spec_bit(stream@, 2 * eta * i + eta + t));
            }
            t = t + 1;
        }
        c[i] = subq(a, b);
        i = i + 1;
    }
    Poly { c }
}

} // verus!
