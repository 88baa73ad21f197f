//! Lossy compression and bit-exact byte encoding of ring elements.
//!
//! `compress_c` maps a coefficient in `[0, q)` to a `d`-bit value by
//! scaled rounding, `decompress_c` maps back with bounded error; both
//! carry the exact arithmetic formula as their contract. `pack_bits` /
//! `unpack_bits` lay `d`-bit values down in a fixed little-endian bit
//! order, `8*32*d` bits into `32*d` bytes.

use vstd::prelude::*;

verus! {

use vstd::arithmetic::power2::pow2;
use vstd::arithmetic::power2::lemma2_to64;
use vstd::arithmetic::power2::lemma_pow2_strictly_increases;
use crate::params::KYBER_Q;
use crate::ring::coeffs_ok;

/// `2^d` as a machine word, tied to the mathematical `pow2`.
pub fn two_pow(d: usize) -> (m: u32)
    requires
        d <= 12,
    ensures
        m == pow2(d as nat),
        2 <= m <= 4096 || d == 0,
{
    proof {
        lemma2_to64();
    }
    if d == 0 {
        1
    } else if d == 1 {
        2
    } else if d == 2 {
        4
    } else if d == 3 {
        8
    } else if d == 4 {
        16
    } else if d == 5 {
        32
    } else if d == 6 {
        64
    } else if d == 7 {
        128
    } else if d == 8 {
        256
    } else if d == 9 {
        512
    } else if d == 10 {
        1024
    } else if d == 11 {
        2048
    } else {
        4096
    }
}

/// Compression of one coefficient: `round(x * 2^d / q) mod 2^d`,
/// realized as `((x * 2^d + floor(q/2)) / q) mod 2^d`.
pub fn compress_c(x: u16, d: usize) -> (r: u16)
    requires
        x < KYBER_Q,
        1 <= d <= 12,
    ensures
        r == ((x * pow2(d as nat) + 1664) / (KYBER_Q as int)) % (pow2(d as nat) as int),
        r < pow2(d as nat),
{
    let m = two_pow(d);
    proof {
        assert((x as int) * (m as int) <= 3328 * 4096) by (nonlinear_arith)
            requires
                x <= 3328,
                m <= 4096,
        ;
    }
    let v = ((x as u32) * m + 1664) / (KYBER_Q as u32);
    (v % m) as u16
}

/// Decompression of one `d`-bit value: `round(y * q / 2^d)`, realized as
/// `(y * q + 2^(d-1)) / 2^d`; the result is always reduced modulo `q`.
pub fn decompress_c(y: u16, d: usize) -> (r: u16)
    requires
        1 <= d <= 12,
        y < pow2(d as nat),
    ensures
        r == (y * (KYBER_Q as int) + pow2((d - 1) as nat)) / (pow2(d as nat) as int),
        r < KYBER_Q,
{
    let m = two_pow(d);
    let h = two_pow(d - 1);
    proof {
        assert(2 * (h as int) == m as int) by {
            vstd::arithmetic::power2::lemma_pow2_unfold(d as nat);
        }
        assert((y as int) * 3329 <= ((m as int) - 1) * 3329) by (nonlinear_arith)
            requires
                (y as int) < m as int,
        ;
        assert((y as int) * 3329 + (h as int) < 3329 * (m as int));
        assert((y as int) * 3329 + (h as int) <= 4095 * 3329 + 2048);
        assert(((y as int) * 3329 + (h as int)) / (m as int) < 3329) by (nonlinear_arith)
            requires
                (y as int) * 3329 + (h as int) < 3329 * (m as int),
                0 <= (y as int) * 3329 + (h as int),
                m >= 2,
        ;
    }
    let v = ((y as u32) * (KYBER_Q as u32) + h) / m;
    v as u16
}

/// A message bit survives the decompress/compress round trip exactly:
/// lifting a bit `b` to the coefficient `round(b * q / 2)` and compressing
/// back to one bit (the formulas in the contracts of [`decompress_c`] and
/// [`compress_c`] with `d = 1`) returns `b`. This is the noiseless kernel
/// of decryption correctness: encryption adds the lifted message to a
/// noisy term, and decryption recovers the bit whenever that noise stays
/// below a quarter of `q`.
pub proof fn lemma_message_bit_round_trip(b: int)
    requires
        b == 0 || b == 1,
    ensures
        ((((b * 3329 + pow2(0)) / (pow2(1) as int)) * pow2(1) + 1664) / 3329) % (pow2(1) as int)
            == b,
{
    lemma2_to64();
}

/// Lossy compression reconstructs within the documented tolerance: for a
/// reduced coefficient `x` and width `d`, compressing (the formula in the
/// contract of [`compress_c`]) and then decompressing (the formula of
/// [`decompress_c`]) yields a coefficient within `round(q / 2^(d+1))` of
/// `x` modulo `q`. This bounded reconstruction error is what the scheme's
/// correctness argument assumes of the compression layer.
pub proof fn lemma_compress_reconstruction_error(x: int, d: int)
    requires
        0 <= x < 3329,
        1 <= d <= 12,
    ensures
        ({
            let m = pow2(d as nat) as int;
            let y = ((x * m + 1664) / 3329) % m;
            let z = (y * 3329 + pow2((d - 1) as nat)) / m;
            (z - x) % 3329 <= (3329 + m) / (2 * m) || (x - z) % 3329 <= (3329 + m) / (2 * m)
        }),
{
    lemma2_to64();
    vstd::arithmetic::power2::lemma_pow2_unfold(d as nat);
    let m = pow2(d as nat) as int;
    let h = pow2((d - 1) as nat) as int;
    if d < 12 {
        lemma_pow2_strictly_increases(d as nat, 12);
    }
    assert(m == 2 * h && 2 <= m <= 4096);
    let b = (3329 + m) / (2 * m);
    let rb = (3329 + m) % (2 * m);
    vstd::arithmetic::div_mod::lemma_fundamental_div_mod(3329 + m, 2 * m);
    vstd::arithmetic::div_mod::lemma_mod_bound(3329 + m, 2 * m);
    assert(3329 + m == (2 * m) * b + rb && 0 <= rb < 2 * m);
    assert(0 <= b <= 833) by (nonlinear_arith)
        requires
            3329 + m == (2 * m) * b + rb,
            0 <= rb < 2 * m,
            2 <= m <= 4096,
    ;
    let y0 = (x * m + 1664) / 3329;
    let r0 = (x * m + 1664) % 3329;
    assert(0 <= x * m && x * m <= 3328 * 4096) by (nonlinear_arith)
        requires
            0 <= x < 3329,
            0 < m <= 4096,
    ;
    vstd::arithmetic::div_mod::lemma_fundamental_div_mod(x * m + 1664, 3329);
    vstd::arithmetic::div_mod::lemma_mod_bound(x * m + 1664, 3329);
    assert(x * m + 1664 == 3329 * y0 + r0 && 0 <= r0 < 3329);
    assert(0 <= y0 && y0 <= m) by (nonlinear_arith)
        requires
            x * m + 1664 == 3329 * y0 + r0,
            0 <= r0 < 3329,
            0 <= x <= 3328,
            2 <= m,
            0 <= x * m,
    ;
    if y0 < m {
        vstd::arithmetic::div_mod::lemma_fundamental_div_mod_converse(y0, m, 0, y0);
        assert(y0 % m == y0);
        let z = (y0 * 3329 + h) / m;
        let r1 = (y0 * 3329 + h) % m;
        assert(0 <= y0 * 3329) by (nonlinear_arith)
            requires
                0 <= y0,
        ;
        vstd::arithmetic::div_mod::lemma_fundamental_div_mod(y0 * 3329 + h, m);
        vstd::arithmetic::div_mod::lemma_mod_bound(y0 * 3329 + h, m);
        assert(y0 * 3329 + h == m * z + r1 && 0 <= r1 < m);
        assert(m * (z - x) == 1664 + h - r0 - r1) by (nonlinear_arith)
            requires
                x * m + 1664 == 3329 * y0 + r0,
                y0 * 3329 + h == m * z + r1,
        ;
        assert(z - x <= b && x - z <= b) by (nonlinear_arith)
            requires
                m * (z - x) <= 1664 + h,
                m * (z - x) >= 1664 + h - 3328 - (m - 1),
                m == 2 * h,
                3329 + m == (2 * m) * b + rb,
                0 <= rb < 2 * m,
                2 <= m,
        ;
        if z >= x {
            vstd::arithmetic::div_mod::lemma_fundamental_div_mod_converse(z - x, 3329, 0, z - x);
            assert((z - x) % 3329 == z - x);
        } else {
            vstd::arithmetic::div_mod::lemma_fundamental_div_mod_converse(x - z, 3329, 0, x - z);
            assert((x - z) % 3329 == x - z);
        }
    } else {
        assert(y0 == m);
        vstd::arithmetic::div_mod::lemma_mod_self_0(m);
        assert(y0 % m == 0);
        vstd::arithmetic::div_mod::lemma_fundamental_div_mod_converse(h, m, 0, h);
        assert((0 * 3329 + h) / m == 0);
        if x == 0 {
            vstd::arithmetic::div_mod::lemma_fundamental_div_mod_converse(1664, 3329, 0, 1664);
            assert(false);
        }
        assert(m * (3329 - x) == 1664 - r0) by (nonlinear_arith)
            requires
                x * m + 1664 == 3329 * m + r0,
        ;
        assert(3329 - x <= b) by (nonlinear_arith)
            requires
                m * (3329 - x) == 1664 - r0,
                0 <= r0,
                3329 + m == (2 * m) * b + rb,
                0 <= rb < 2 * m,
                2 <= m,
        ;
        vstd::arithmetic::div_mod::lemma_fundamental_div_mod_converse(0 - x, 3329, -1, 3329 - x);
        assert((0 - x) % 3329 == 3329 - x);
    }
}

/// Bit `g` of the little-endian bit stream carried by `bytes`.
pub open spec fn spec_bit(bytes: Seq<u8>, g: int) -> u8 {
    (bytes[g / 8] >> ((g % 8) as u8)) % 2
}

/// Bit `g` of the stream formed by the low `d` bits of each value,
/// least-significant bit first.
pub open spec fn spec_field_bit(vals: Seq<u16>, d: int, g: int) -> u16 {
    (vals[g / d] >> ((g % d) as u16)) % 2
}

/// The low `cnt` bits of byte `by` of that stream, assembled as a value.
pub open spec fn spec_packed_byte(vals: Seq<u16>, d: int, by: int, cnt: int) -> int
    decreases cnt,
{
    if cnt <= 0 {
        0
    } else {
        spec_packed_byte(vals, d, by, cnt - 1) + (spec_field_bit(vals, d, by * 8 + (cnt - 1))
            as int) * pow2((cnt - 1) as nat)
    }
}

/// The value of field `i` read back from the byte stream: its low `cnt`
/// bits weighted by powers of two.
pub open spec fn spec_unpacked(bytes: Seq<u8>, d: int, i: int, cnt: int) -> int
    decreases cnt,
{
    if cnt <= 0 {
        0
    } else {
        spec_unpacked(bytes, d, i, cnt - 1) + (spec_bit(bytes, i * d + (cnt - 1)) as int) * pow2(
            (cnt - 1) as nat,
        )
    }
}

/// Packs the low `d` bits of each of the 256 values into `32*d` bytes,
/// least-significant bit first: byte `by` of the output is exactly the
/// eight stream bits `8*by .. 8*by + 8`.
pub fn pack_bits(vals: &[u16; 256], d: usize) -> (out: Vec<u8>)
    requires
        1 <= d <= 12,
    ensures
        out@.len() == 32 * d,
        forall|by: int| 0 <= by < 32 * d ==> out@[by] as int == spec_packed_byte(
            vals@,
            d as int,
            by,
            8,
        ),
{
    let total = 32 * d;
    let mut out: Vec<u8> = Vec::new();
    let mut by: usize = 0;
    while by < total
        invariant
            1 <= d <= 12,
            total == 32 * d,
            by <= total,
            out@.len() == by,
            forall|j: int| 0 <= j < by ==> out@[j] as int == spec_packed_byte(
                vals@,
                d as int,
                j,
                8,
            ),
        decreases total - by,
    {
        let mut acc: u16 = 0;
        let mut pw: u16 = 1;
        let mut bit: usize = 0;
        proof {
            lemma2_to64();
        }
        while bit < 8
            invariant
                1 <= d <= 12,
                by < 32 * d,
                bit <= 8,
                pw == pow2(bit as nat),
                acc < pw,
                acc as int == spec_packed_byte(vals@, d as int, by as int, bit as int),
            decreases 8 - bit,
        {
            proof {
                lemma2_to64();
                lemma_pow2_strictly_increases(bit as nat, 8);
                assert(by * 8 + bit < 256 * d && by * 8 + bit <= 3079) by (nonlinear_arith)
                    requires
                        by < 32 * d,
                        bit < 8,
                        1 <= d <= 12,
                ;
            }
            let g = by * 8 + bit;
            proof {
                assert(g / d < 256 && g % d < d) by (nonlinear_arith)
                    requires
                        g < 256 * d,
                        1 <= d,
                ;
            }
            let coeff = g / d;
            let which = g % d;
            let bitval = (vals[coeff] >> (which as u16)) % 2;
            proof {
                assert(bitval * pw <= pw) by (nonlinear_arith)
                    requires
                        bitval <= 1,
                        0 <= pw,
                ;
                vstd::arithmetic::power2::lemma_pow2_unfold((bit + 1) as nat);
                assert(bitval == spec_field_bit(vals@, d as int, by * 8 + bit));
                assert(spec_packed_byte(vals@, d as int, by as int, bit + 1) == spec_packed_byte(
                    vals@,
                    d as int,
                    by as int,
                    bit as int,
                ) + (spec_field_bit(vals@, d as int, by * 8 + bit) as int) * pow2(bit as nat));
            }
            acc = acc + bitval * pw;
            pw = pw * 2;
            bit = bit + 1;
        }
        proof {
            lemma2_to64();
        }
        out.push(acc as u8);
        by = by + 1;
    }
    out
}

/// Reads 256 `d`-bit values back out of `32*d` bytes laid down by
/// [`pack_bits`]: value `i` is exactly the weighted sum of stream bits
/// `i*d .. i*d + d`, and so below `2^d`.
pub fn unpack_bits(bytes: &Vec<u8>, d: usize) -> (vals: [u16; 256])
    requires
        1 <= d <= 12,
        bytes@.len() == 32 * d,
    ensures
        forall|i: int| 0 <= i < 256 ==> vals[i] < pow2(d as nat),
        forall|i: int| 0 <= i < 256 ==> vals[i] as int == spec_unpacked(
            bytes@,
            d as int,
            i,
            d as int,
        ),
{
    let mut vals: [u16; 256] = [0u16; 256];
    proof {
        lemma2_to64();
        lemma_pow2_strictly_increases(0, d as nat);
    }
    let mut i: usize = 0;
    while i < 256
        invariant
            1 <= d <= 12,
            bytes@.len() == 32 * d,
            i <= 256,
            forall|j: int| 0 <= j < i ==> vals[j] < pow2(d as nat),
            forall|j: int| 0 <= j < i ==> vals[j] as int == spec_unpacked(
                bytes@,
                d as int,
                j,
                d as int,
            ),
        decreases 256 - i,
    {
        let mut v: u16 = 0;
        let mut pw: u16 = 1;
        let mut b: usize = 0;
        proof {
            lemma2_to64();
        }
        while b < d
            invariant
                1 <= d <= 12,
                bytes@.len() == 32 * d,
                i < 256,
                b <= d,
                pw == pow2(b as nat),
                v < pw,
                v as int == spec_unpacked(bytes@, d as int, i as int, b as int),
            decreases d - b,
        {
            proof {
                lemma2_to64();
                lemma_pow2_strictly_increases(b as nat, 12);
                assert(i * d + b < 256 * d && i * d + b <= 3083) by (nonlinear_arith)
                    requires
                        i < 256,
                        b < d,
                        1 <= d <= 12,
                ;
            }
            let g = i * d + b;
            proof {
                assert(g / 8 < 32 * d && g % 8 < 8) by (nonlinear_arith)
                    requires
                        g < 256 * d,
                        1 <= d,
                ;
            }
            let byte = bytes[g / 8];
            let bitval = ((byte >> ((g % 8) as u8)) % 2) as u16;
            proof {
                assert(bitval * pw <= pw) by (nonlinear_arith)
                    requires
                        bitval <= 1,
                        0 <= pw,
                ;
                vstd::arithmetic::power2::lemma_pow2_unfold((b + 1) as nat);
                assert(bitval == spec_bit(bytes@, i * d + b) as u16);
                assert(spec_unpacked(bytes@, d as int, i as int, b + 1) == spec_unpacked(
                    bytes@,
                    d as int,
                    i as int,
                    b as int,
                ) + (spec_bit(bytes@, i * d + b) as int) * pow2(b as nat));
            }
            v = v + bitval * pw;
            pw = pw * 2;
            b = b + 1;
        }
        proof {
            if (b as nat) < 12 {
                lemma_pow2_strictly_increases(b as nat, 12);
            }
        }
        vals[i] = v;
        i = i + 1;
    }
    vals
}

/// The decompressed coefficient sequence carried by `32*d` bytes.
pub open spec fn spec_decompressed(bytes: Seq<u8>, d: int) -> Seq<u16> {
    Seq::new(
        256,
        |i: int| (((spec_unpacked(bytes, d, i, d) * 3329 + pow2((d - 1) as nat)) / (pow2(
            d as nat,
        ) as int)) as u16),
    )
}

/// The coefficient sequence carried by a 384-byte encoding, reduced.
pub open spec fn spec_decoded(bytes: Seq<u8>) -> Seq<u16> {
    Seq::new(256, |i: int| ((spec_unpacked(bytes, 12, i, 12) % 3329) as u16))
}

/// The compression formula of [`compress_c`], as a value.
pub open spec fn spec_compress(x: u16, d: int) -> u16 {
    ((((x as int) * pow2(d as nat) + 1664) / 3329) % (pow2(d as nat) as int)) as u16
}

/// All 256 coefficients compressed to `d` bits.
pub open spec fn spec_compressed_seq(c: Seq<u16>, d: int) -> Seq<u16> {
    Seq::new(256, |i: int| spec_compress(c[i], d))
}

/// Compresses all coefficients to `d` bits and packs them: byte `by` of
/// the output is byte `by` of the packed stream of the compressed values.
pub fn compress_poly(c: &[u16; 256], d: usize) -> (out: Vec<u8>)
    requires
        coeffs_ok(*c),
        1 <= d <= 12,
    ensures
        out@.len() == 32 * d,
        forall|by: int| 0 <= by < 32 * d ==> out@[by] as int == spec_packed_byte(
            spec_compressed_seq(c@, d as int),
            d as int,
            by,
            8,
        ),
{
    let mut t: [u16; 256] = [0u16; 256];
    let mut i: usize = 0;
    while i < 256
        invariant
            coeffs_ok(*c),
            1 <= d <= 12,
            i <= 256,
            forall|j: int| 0 <= j < i ==> t[j] == spec_compress(c[j], d as int),
        decreases 256 - i,
    {
        t[i] = compress_c(c[i], d);
        i = i + 1;
    }
    proof {
        assert(t@ =~= spec_compressed_seq(c@, d as int));
    }
    pack_bits(&t, d)
}

/// Unpacks `d`-bit values and decompresses each back to a coefficient:
/// coefficient `i` is the decompression formula of [`decompress_c`]
/// applied to the `i`th `d`-bit field of the bytes.
pub fn decompress_poly(bytes: &Vec<u8>, d: usize) -> (c: [u16; 256])
    requires
        1 <= d <= 12,
        bytes@.len() == 32 * d,
    ensures
        coeffs_ok(c),
        forall|i: int| 0 <= i < 256 ==> c[i] as int == (spec_unpacked(bytes@, d as int, i, d as int)
            * 3329 + pow2((d - 1) as nat)) / (pow2(d as nat) as int),
        c@ == spec_decompressed(bytes@, d as int),
{
    let vals = unpack_bits(bytes, d);
    let mut c: [u16; 256] = [0u16; 256];
    let mut i: usize = 0;
    while i < 256
        invariant
            1 <= d <= 12,
            bytes@.len() == 32 * d,
            i <= 256,
            forall|j: int| 0 <= j < 256 ==> vals[j] < pow2(d as nat),
            forall|j: int| 0 <= j < 256 ==> vals[j] as int == spec_unpacked(
                bytes@,
                d as int,
                j,
                d as int,
            ),
            forall|j: int| 0 <= j < i ==> c[j] < KYBER_Q,
            forall|j: int| 0 <= j < i ==> c[j] as int == (spec_unpacked(bytes@, d as int, j, d as int)
                * 3329 + pow2((d - 1) as nat)) / (pow2(d as nat) as int),
        decreases 256 - i,
    {
        c[i] = decompress_c(vals[i], d);
        i = i + 1;
    }
    proof {
        assert(c@ =~= spec_decompressed(bytes@, d as int));
    }
    c
}

/// Encodes a reduced ring element into 384 bytes, 12 bits per
/// coefficient: byte `by` of the output is byte `by` of the packed
/// stream of the coefficients.
pub fn poly_to_bytes(c: &[u16; 256]) -> (out: Vec<u8>)
    requires
        coeffs_ok(*c),
    ensures
        out@.len() == 384,
        forall|by: int| 0 <= by < 384 ==> out@[by] as int == spec_packed_byte(c@, 12, by, 8),
{
    pack_bits(c, 12)
}

/// Decodes 384 bytes into a ring element: coefficient `i` is the `i`th
/// twelve-bit field, reduced modulo `q` so that the result is well-formed
/// for any input bytes (a reduced encoding decodes to itself).
pub fn poly_from_bytes(bytes: &Vec<u8>) -> (c: [u16; 256])
    requires
        bytes@.len() == 384,
    ensures
        coeffs_ok(c),
        forall|i: int| 0 <= i < 256 ==> c[i] as int == spec_unpacked(bytes@, 12, i, 12) % 3329,
        c@ == spec_decoded(bytes@),
{
    let vals = unpack_bits(bytes, 12);
    let mut c: [u16; 256] = [0u16; 256];
    let mut i: usize = 0;
    while i < 256
        invariant
            bytes@.len() == 384,
            i <= 256,
            forall|j: int| 0 <= j < 256 ==> vals[j] as int == spec_unpacked(bytes@, 12, j, 12),
            forall|j: int| 0 <= j < i ==> c[j] < KYBER_Q,
            forall|j: int| 0 <= j < i ==> c[j] as int == spec_unpacked(bytes@, 12, j, 12) % 3329,
        decreases 256 - i,
    {
        c[i] = vals[i] % KYBER_Q;
        i = i + 1;
    }
    proof {
        assert(c@ =~= spec_decoded(bytes@));
    }
    c
}

/// Copies the byte range `[start, end)` out of `v`.
pub fn subvec(v: &Vec<u8>, start: usize, end: usize) -> (out: Vec<u8>)
    requires
        start <= end <= v@.len(),
    ensures
        out@ == v@.subrange(start as int, end as int),
        out@.len() == end - start,
{
    let mut out: Vec<u8> = Vec::new();
    let mut i: usize = start;
    while i < end
        invariant
            start <= i <= end <= v@.len(),
            out@ == v@.subrange(start as int, i as int),
        decreases end - i,
    {
        out.push(v[i]);
        proof {
            assert(out@ =~= v@.subrange(start as int, i + 1 as int));
        }
        i = i + 1;
    }
    out
}

} // verus!
