//! Ring arithmetic: the polynomial ring `Z_q[X]/(X^256 + 1)` with
//! `q = 3329`, in two tagged representations that must never be mixed.
//!
//! [`Poly`] holds an element in the normal domain, [`PolyNtt`] one in the
//! transform domain. Addition and subtraction are coefficient-wise in
//! either domain; multiplication is defined only pointwise on the
//! transform domain ([`basemul`]), and [`ntt`] / [`inv_ntt`] are the only
//! bridges between the two. Every coefficient of a well-formed element
//! lies in `[0, q)`, and all arithmetic preserves that invariant.

use vstd::prelude::*;

verus! {

use crate::params::KYBER_Q;

/// All 256 coefficients lie in `[0, q)`.
pub open spec fn coeffs_ok(c: [u16; 256]) -> bool {
    forall|i: int| 0 <= i < 256 ==> c[i] < KYBER_Q
}

/// The all-zero coefficient sequence.
pub open spec fn spec_zero() -> Seq<u16> {
    Seq::new(256, |n: int| 0u16)
}

/// Coefficient-wise addition mod `q`, as a sequence.
pub open spec fn spec_add(a: Seq<u16>, b: Seq<u16>) -> Seq<u16> {
    Seq::new(256, |n: int| (((a[n] + b[n]) as int % 3329) as u16))
}

/// Coefficient-wise subtraction mod `q`, as a sequence.
pub open spec fn spec_sub(a: Seq<u16>, b: Seq<u16>) -> Seq<u16> {
    Seq::new(256, |n: int| ((((a[n] - b[n]) as int) % 3329) as u16))
}

/// The pointwise product of two transform-domain sequences.
pub open spec fn spec_basemul(a: Seq<u16>, b: Seq<u16>) -> Seq<u16> {
    Seq::new(
        256,
        |n: int|
            if n % 2 == 0 {
                (((a[n] * b[n]) as int % 3329 + (((a[n + 1] * b[n + 1]) as int % 3329)
                    * spec_gammas()[n / 2]) % 3329) % 3329) as u16
            } else {
                (((a[n - 1] * b[n]) as int % 3329 + ((a[n] * b[n - 1]) as int) % 3329)
                    % 3329) as u16
            },
    )
}

/// A ring element in the normal domain.
#[derive(Clone, Copy)]
pub struct Poly {
    /// The coefficients, low degree first.
    pub c: [u16; 256],
}

/// A ring element in the transform (NTT) domain.
#[derive(Clone, Copy)]
pub struct PolyNtt {
    /// The 128 degree-one residues, stored pairwise.
    pub c: [u16; 256],
}

impl Poly {
    /// Well-formedness: every coefficient is reduced modulo `q`.
    pub open spec fn wf(self) -> bool {
        coeffs_ok(self.c)
    }

    /// The zero element.
    pub fn zero() -> (r: Poly)
        ensures
            r.wf(),
            forall|i: int| 0 <= i < 256 ==> r.c[i] == 0,
    {
        Poly { c: [0u16; 256] }
    }
}

impl PolyNtt {
    /// Well-formedness: every coefficient is reduced modulo `q`.
    pub open spec fn wf(self) -> bool {
        coeffs_ok(self.c)
    }

    /// The zero element of the transform domain.
    pub fn zero() -> (r: PolyNtt)
        ensures
            r.wf(),
            forall|i: int| 0 <= i < 256 ==> r.c[i] == 0,
            r.c@ == spec_zero(),
    {
        let c = [0u16; 256];
        proof {
            assert(c@ =~= spec_zero());
        }
        PolyNtt { c }
    }
}

/// Addition in `Z_q`.
pub fn addq(a: u16, b: u16) -> (r: u16)
    requires
        a < KYBER_Q,
        b < KYBER_Q,
    ensures
        r == (a + b) % (KYBER_Q as int),
        r < KYBER_Q,
{
    let s = a + b;
    if s >= KYBER_Q {
        s - KYBER_Q
    } else {
        s
    }
}

/// Subtraction in `Z_q`.
pub fn subq(a: u16, b: u16) -> (r: u16)
    requires
        a < KYBER_Q,
        b < KYBER_Q,
    ensures
        r == (a - b) % (KYBER_Q as int),
        r < KYBER_Q,
{
    let s = a + KYBER_Q - b;
    if s >= KYBER_Q {
        s - KYBER_Q
    } else {
        s
    }
}

/// Multiplication in `Z_q`. Only the left operand must already be
/// reduced; the right operand may be any 16-bit value (a table constant).
pub fn mulq(a: u16, b: u16) -> (r: u16)
    requires
        a < KYBER_Q,
    ensures
        r == (a * b) % (KYBER_Q as int),
        r < KYBER_Q,
{
    proof {
        assert((a as int) * (b as int) <= 3328 * 65535) by (nonlinear_arith)
            requires
                a <= 3328,
                b <= 65535,
        ;
    }
    let p = (a as u32) * (b as u32);
    (p % (KYBER_Q as u32)) as u16
}

/// Coefficient-wise addition of the underlying arrays.
fn add_coeffs(a: &[u16; 256], b: &[u16; 256]) -> (r: [u16; 256])
    requires
        coeffs_ok(*a),
        coeffs_ok(*b),
    ensures
        coeffs_ok(r),
        forall|i: int| 0 <= i < 256 ==> r[i] == (a[i] + b[i]) % (KYBER_Q as int),
{
    let mut r: [u16; 256] = [0u16; 256];
    let mut i: usize = 0;
    while i < 256
        invariant
            i <= 256,
            coeffs_ok(*a),
            coeffs_ok(*b),
            forall|j: int| 0 <= j < i ==> r[j] == (a[j] + b[j]) % (KYBER_Q as int),
            forall|j: int| 0 <= j < i ==> r[j] < KYBER_Q,
        decreases 256 - i,
    {
        r[i] = addq(a[i], b[i]);
        i = i + 1;
    }
    r
}

/// Coefficient-wise subtraction of the underlying arrays.
fn sub_coeffs(a: &[u16; 256], b: &[u16; 256]) -> (r: [u16; 256])
    requires
        coeffs_ok(*a),
        coeffs_ok(*b),
    ensures
        coeffs_ok(r),
        forall|i: int| 0 <= i < 256 ==> r[i] == (a[i] - b[i]) % (KYBER_Q as int),
{
    let mut r: [u16; 256] = [0u16; 256];
    let mut i: usize = 0;
    while i < 256
        invariant
            i <= 256,
            coeffs_ok(*a),
            coeffs_ok(*b),
            forall|j: int| 0 <= j < i ==> r[j] == (a[j] - b[j]) % (KYBER_Q as int),
            forall|j: int| 0 <= j < i ==> r[j] < KYBER_Q,
        decreases 256 - i,
    {
        r[i] = subq(a[i], b[i]);
        i = i + 1;
    }
    r
}

/// Addition in the normal domain: coefficient-wise mod `q`.
pub fn poly_add(a: &Poly, b: &Poly) -> (r: Poly)
    requires
        a.wf(),
        b.wf(),
    ensures
        r.wf(),
        forall|i: int| 0 <= i < 256 ==> r.c[i] == (a.c[i] + b.c[i]) % (KYBER_Q as int),
        r.c@ == spec_add(a.c@, b.c@),
{
    let c = add_coeffs(&a.c, &b.c);
    proof {
        assert(c@ =~= spec_add(a.c@, b.c@));
    }
    Poly { c }
}

/// Subtraction in the normal domain: coefficient-wise mod `q`.
pub fn poly_sub(a: &Poly, b: &Poly) -> (r: Poly)
    requires
        a.wf(),
        b.wf(),
    ensures
        r.wf(),
        forall|i: int| 0 <= i < 256 ==> r.c[i] == (a.c[i] - b.c[i]) % (KYBER_Q as int),
        r.c@ == spec_sub(a.c@, b.c@),
{
    let c = sub_coeffs(&a.c, &b.c);
    proof {
        assert(c@ =~= spec_sub(a.c@, b.c@));
    }
    Poly { c }
}

/// Addition in the transform domain: coefficient-wise mod `q`.
pub fn ntt_add(a: &PolyNtt, b: &PolyNtt) -> (r: PolyNtt)
    requires
        a.wf(),
        b.wf(),
    ensures
        r.wf(),
        forall|i: int| 0 <= i < 256 ==> r.c[i] == (a.c[i] + b.c[i]) % (KYBER_Q as int),
        r.c@ == spec_add(a.c@, b.c@),
{
    let c = add_coeffs(&a.c, &b.c);
    proof {
        assert(c@ =~= spec_add(a.c@, b.c@));
    }
    PolyNtt { c }
}

/// The twiddle factors `17^bitrev7(i) mod q`, as a mathematical sequence.
pub open spec fn spec_zetas() -> Seq<u16> {
    seq![
        1u16, 1729, 2580, 3289, 2642, 630, 1897, 848, 1062, 1919, 193, 797, 2786, 3260, 569, 1746,
        296, 2447, 1339, 1476, 3046, 56, 2240, 1333, 1426, 2094, 535, 2882, 2393, 2879, 1974, 821,
        289, 331, 3253, 1756, 1197, 2304, 2277, 2055, 650, 1977, 2513, 632, 2865, 33, 1320, 1915,
        2319, 1435, 807, 452, 1438, 2868, 1534, 2402, 2647, 2617, 1481, 648, 2474, 3110, 1227, 910,
        17, 2761, 583, 2649, 1637, 723, 2288, 1100, 1409, 2662, 3281, 233, 756, 2156, 3015, 3050,
        1703, 1651, 2789, 1789, 1847, 952, 1461, 2687, 939, 2308, 2437, 2388, 733, 2337, 268, 641,
        1584, 2298, 2037, 3220, 375, 2549, 2090, 1645, 1063, 319, 2773, 757, 2099, 561, 2466, 2594,
        2804, 1092, 403, 1026, 1143, 2150, 2775, 886, 1722, 1212, 1874, 1029, 2110, 2935, 885, 2154,
    ]
}

/// The twiddle factors `17^bitrev7(i) mod q` for `i` in `0..128`.
fn zetas() -> (z: [u16; 128])
    ensures
        z@ == spec_zetas(),
{
    let z = [
        1, 1729, 2580, 3289, 2642, 630, 1897, 848, 1062, 1919, 193, 797, 2786, 3260, 569, 1746,
        296, 2447, 1339, 1476, 3046, 56, 2240, 1333, 1426, 2094, 535, 2882, 2393, 2879, 1974, 821,
        289, 331, 3253, 1756, 1197, 2304, 2277, 2055, 650, 1977, 2513, 632, 2865, 33, 1320, 1915,
        2319, 1435, 807, 452, 1438, 2868, 1534, 2402, 2647, 2617, 1481, 648, 2474, 3110, 1227, 910,
        17, 2761, 583, 2649, 1637, 723, 2288, 1100, 1409, 2662, 3281, 233, 756, 2156, 3015, 3050,
        1703, 1651, 2789, 1789, 1847, 952, 1461, 2687, 939, 2308, 2437, 2388, 733, 2337, 268, 641,
        1584, 2298, 2037, 3220, 375, 2549, 2090, 1645, 1063, 319, 2773, 757, 2099, 561, 2466, 2594,
        2804, 1092, 403, 1026, 1143, 2150, 2775, 886, 1722, 1212, 1874, 1029, 2110, 2935, 885, 2154,
    ];
    proof {
        assert(z@ =~= spec_zetas());
    }
    z
}

/// One forward butterfly at positions `j` and `j + len`.
pub open spec fn spec_butterfly(c: Seq<u16>, zeta: u16, j: int, len: int) -> Seq<u16> {
    let t = ((c[j + len] as int) * zeta) % 3329;
    c.update(j + len, (((c[j] as int) - t) % 3329) as u16).update(
        j,
        (((c[j] as int) + t) % 3329) as u16,
    )
}

/// `cnt` forward butterflies of one block, positions `start ..`.
pub open spec fn spec_block(c: Seq<u16>, zeta: u16, start: int, len: int, cnt: int) -> Seq<u16>
    decreases cnt,
{
    if cnt <= 0 {
        c
    } else {
        spec_butterfly(spec_block(c, zeta, start, len, cnt - 1), zeta, start + (cnt - 1), len)
    }
}

/// The first `g` blocks of a forward layer of width `2*len`.
pub open spec fn spec_stage(c: Seq<u16>, zt: Seq<u16>, len: int, groups: int, g: int) -> Seq<u16>
    decreases g,
{
    if g <= 0 {
        c
    } else {
        spec_block(spec_stage(c, zt, len, groups, g - 1), zt[groups + (g - 1)], (g - 1) * (2
            * len), len, len)
    }
}

/// One inverse butterfly at positions `j` and `j + len`.
pub open spec fn spec_inv_butterfly(c: Seq<u16>, zeta: u16, j: int, len: int) -> Seq<u16> {
    c.update(j, (((c[j] as int) + c[j + len]) % 3329) as u16).update(
        j + len,
        (((((c[j + len] as int) - c[j]) % 3329) * zeta) % 3329) as u16,
    )
}

/// `cnt` inverse butterflies of one block, positions `start ..`.
pub open spec fn spec_inv_block(c: Seq<u16>, zeta: u16, start: int, len: int, cnt: int) -> Seq<u16>
    decreases cnt,
{
    if cnt <= 0 {
        c
    } else {
        spec_inv_butterfly(spec_inv_block(c, zeta, start, len, cnt - 1), zeta, start + (cnt - 1),
            len)
    }
}

/// The first `g` blocks of an inverse layer of width `2*len`.
pub open spec fn spec_inv_stage(c: Seq<u16>, zt: Seq<u16>, len: int, groups: int, g: int) -> Seq<
    u16,
>
    decreases g,
{
    if g <= 0 {
        c
    } else {
        spec_inv_block(spec_inv_stage(c, zt, len, groups, g - 1), zt[2 * groups - 1 - (g - 1)], (g
            - 1) * (2 * len), len, len)
    }
}

/// The full forward transform: seven layers of butterflies.
pub open spec fn spec_ntt(c: Seq<u16>) -> Seq<u16> {
    let zt = spec_zetas();
    spec_stage(
        spec_stage(
            spec_stage(
                spec_stage(
                    spec_stage(spec_stage(spec_stage(c, zt, 128, 1, 1), zt, 64, 2, 2), zt, 32, 4, 4),
                    zt,
                    16,
                    8,
                    8,
                ),
                zt,
                8,
                16,
                16,
            ),
            zt,
            4,
            32,
            32,
        ),
        zt,
        2,
        64,
        64,
    )
}

/// The full inverse transform: seven layers and the final scaling by
/// `128^-1 mod q`.
pub open spec fn spec_inv_ntt(c: Seq<u16>) -> Seq<u16> {
    let zt = spec_zetas();
    let s = spec_inv_stage(
        spec_inv_stage(
            spec_inv_stage(
                spec_inv_stage(
                    spec_inv_stage(
                        spec_inv_stage(spec_inv_stage(c, zt, 2, 64, 64), zt, 4, 32, 32),
                        zt,
                        8,
                        16,
                        16,
                    ),
                    zt,
                    16,
                    8,
                    8,
                ),
                zt,
                32,
                4,
                4,
            ),
            zt,
            64,
            2,
            2,
        ),
        zt,
        128,
        1,
        1,
    );
    Seq::new(256, |n: int| (((s[n] as int) * 3303) % 3329) as u16)
}

/// The factors `17^(2*bitrev7(i)+1) mod q` of the pointwise product,
/// as a mathematical sequence.
pub open spec fn spec_gammas() -> Seq<u16> {
    seq![
        17u16, 3312, 2761, 568, 583, 2746, 2649, 680, 1637, 1692, 723, 2606,
        2288, 1041, 1100, 2229, 1409, 1920, 2662, 667, 3281, 48, 233, 3096,
        756, 2573, 2156, 1173, 3015, 314, 3050, 279, 1703, 1626, 1651, 1678,
        2789, 540, 1789, 1540, 1847, 1482, 952, 2377, 1461, 1868, 2687, 642,
        939, 2390, 2308, 1021, 2437, 892, 2388, 941, 733, 2596, 2337, 992,
        268, 3061, 641, 2688, 1584, 1745, 2298, 1031, 2037, 1292, 3220, 109,
        375, 2954, 2549, 780, 2090, 1239, 1645, 1684, 1063, 2266, 319, 3010,
        2773, 556, 757, 2572, 2099, 1230, 561, 2768, 2466, 863, 2594, 735,
        2804, 525, 1092, 2237, 403, 2926, 1026, 2303, 1143, 2186, 2150, 1179,
        2775, 554, 886, 2443, 1722, 1607, 1212, 2117, 1874, 1455, 1029, 2300,
        2110, 1219, 2935, 394, 885, 2444, 2154, 1175,
    ]
}

/// The factors `17^(2*bitrev7(i)+1) mod q` used by the pointwise product.
fn gammas() -> (z: [u16; 128])
    ensures
        z@ == spec_gammas(),
{
    let z = [
        17, 3312, 2761, 568, 583, 2746, 2649, 680, 1637, 1692, 723, 2606, 2288, 1041, 1100, 2229,
        1409, 1920, 2662, 667, 3281, 48, 233, 3096, 756, 2573, 2156, 1173, 3015, 314, 3050, 279,
        1703, 1626, 1651, 1678, 2789, 540, 1789, 1540, 1847, 1482, 952, 2377, 1461, 1868, 2687,
        642, 939, 2390, 2308, 1021, 2437, 892, 2388, 941, 733, 2596, 2337, 992, 268, 3061, 641,
        2688, 1584, 1745, 2298, 1031, 2037, 1292, 3220, 109, 375, 2954, 2549, 780, 2090, 1239,
        1645, 1684, 1063, 2266, 319, 3010, 2773, 556, 757, 2572, 2099, 1230, 561, 2768, 2466, 863,
        2594, 735, 2804, 525, 1092, 2237, 403, 2926, 1026, 2303, 1143, 2186, 2150, 1179, 2775, 554,
        886, 2443, 1722, 1607, 1212, 2117, 1874, 1455, 1029, 2300, 2110, 1219, 2935, 394, 885,
        2444, 2154, 1175,
    ];
    proof {
        assert(z@ =~= spec_gammas());
    }
    z
}

/// One layer of forward butterflies: `groups` blocks of width `2*len`.
fn ntt_stage(c: &mut [u16; 256], len: usize, groups: usize, zt: &[u16; 128])
    requires
        coeffs_ok(*old(c)),
        len * groups == 128,
        2 <= len,
    ensures
        coeffs_ok(*final(c)),
        final(c)@ == spec_stage(old(c)@, zt@, len as int, groups as int, groups as int),
{
    let mut g: usize = 0;
    while g < groups
        invariant
            coeffs_ok(*c),
            g <= groups,
            len * groups == 128,
            2 <= len,
            c@ == spec_stage(old(c)@, zt@, len as int, groups as int, g as int),
        decreases groups - g,
    {
        proof {
            assert(g * (2 * len) + 2 * len <= 256 && groups + g < 128) by (nonlinear_arith)
                requires
                    len * groups == 128,
                    2 <= len,
                    g < groups,
            ;
        }
        let start = g * (2 * len);
        let zeta = zt[groups + g];
        let ghost base = c@;
        let mut j: usize = start;
        while j < start + len
            invariant
                coeffs_ok(*c),
                start <= j <= start + len,
                start + 2 * len <= 256,
                c@ == spec_block(base, zeta, start as int, len as int, j - start),
            decreases start + len - j,
        {
            let ghost before = c@;
            let t = mulq(c[j + len], zeta);
            c[j + len] = subq(c[j], t);
            c[j] = addq(c[j], t);
            proof {
                assert(coeffs_ok(*c));
                assert(c@ =~= spec_butterfly(before, zeta, j as int, len as int));
                assert(spec_block(base, zeta, start as int, len as int, j - start + 1)
                    == spec_butterfly(before, zeta, j as int, len as int));
            }
            j = j + 1;
        }
        proof {
            assert(spec_stage(old(c)@, zt@, len as int, groups as int, g + 1) == spec_block(
                spec_stage(old(c)@, zt@, len as int, groups as int, g as int),
                zt@[groups + g],
                (g as int) * (2 * (len as int)),
                len as int,
                len as int,
            ));
        }
        g = g + 1;
    }
}

/// One layer of inverse butterflies.
fn inv_ntt_stage(c: &mut [u16; 256], len: usize, groups: usize, zt: &[u16; 128])
    requires
        coeffs_ok(*old(c)),
        len * groups == 128,
        2 <= len,
    ensures
        coeffs_ok(*final(c)),
        final(c)@ == spec_inv_stage(old(c)@, zt@, len as int, groups as int, groups as int),
{
    let mut g: usize = 0;
    while g < groups
        invariant
            coeffs_ok(*c),
            g <= groups,
            len * groups == 128,
            2 <= len,
            c@ == spec_inv_stage(old(c)@, zt@, len as int, groups as int, g as int),
        decreases groups - g,
    {
        proof {
            assert(g * (2 * len) + 2 * len <= 256 && 2 * groups - 1 - g < 128) by (
            nonlinear_arith)
                requires
                    len * groups == 128,
                    2 <= len,
                    g < groups,
            ;
        }
        let start = g * (2 * len);
        let zeta = zt[2 * groups - 1 - g];
        let ghost base = c@;
        let mut j: usize = start;
        while j < start + len
            invariant
                coeffs_ok(*c),
                start <= j <= start + len,
                start + 2 * len <= 256,
                c@ == spec_inv_block(base, zeta, start as int, len as int, j - start),
            decreases start + len - j,
        {
            let ghost before = c@;
            let t = c[j];
            c[j] = addq(t, c[j + len]);
            c[j + len] = mulq(subq(c[j + len], t), zeta);
            proof {
                assert(c@ =~= spec_inv_butterfly(before, zeta, j as int, len as int));
                assert(spec_inv_block(base, zeta, start as int, len as int, j - start + 1)
                    == spec_inv_butterfly(before, zeta, j as int, len as int));
            }
            j = j + 1;
        }
        proof {
            assert(spec_inv_stage(old(c)@, zt@, len as int, groups as int, g + 1)
                == spec_inv_block(
                spec_inv_stage(old(c)@, zt@, len as int, groups as int, g as int),
                zt@[2 * groups - 1 - g],
                (g as int) * (2 * (len as int)),
                len as int,
                len as int,
            ));
        }
        g = g + 1;
    }
}

/// The forward number-theoretic transform: normal domain to transform
/// domain, seven layers of butterflies, pinned to [`spec_ntt`].
pub fn ntt(p: &Poly) -> (r: PolyNtt)
    requires
        p.wf(),
    ensures
        r.wf(),
        r.c@ == spec_ntt(p.c@),
{
    let zt = zetas();
    let mut c = p.c;
    ntt_stage(&mut c, 128, 1, &zt);
    ntt_stage(&mut c, 64, 2, &zt);
    ntt_stage(&mut c, 32, 4, &zt);
    ntt_stage(&mut c, 16, 8, &zt);
    ntt_stage(&mut c, 8, 16, &zt);
    ntt_stage(&mut c, 4, 32, &zt);
    ntt_stage(&mut c, 2, 64, &zt);
    PolyNtt { c }
}

/// The inverse transform: transform domain back to the normal domain,
/// seven layers of butterflies and the final scaling by `128^-1 mod q`,
/// pinned to [`spec_inv_ntt`].
pub fn inv_ntt(p: &PolyNtt) -> (r: Poly)
    requires
        p.wf(),
    ensures
        r.wf(),
        r.c@ == spec_inv_ntt(p.c@),
{
    let zt = zetas();
    let mut c = p.c;
    inv_ntt_stage(&mut c, 2, 64, &zt);
    inv_ntt_stage(&mut c, 4, 32, &zt);
    inv_ntt_stage(&mut c, 8, 16, &zt);
    inv_ntt_stage(&mut c, 16, 8, &zt);
    inv_ntt_stage(&mut c, 32, 4, &zt);
    inv_ntt_stage(&mut c, 64, 2, &zt);
    inv_ntt_stage(&mut c, 128, 1, &zt);
    let ghost staged = c@;
    let mut i: usize = 0;
    while i < 256
        invariant
            i <= 256,
            coeffs_ok(c),
            c@.len() == 256,
            staged.len() == 256,
            forall|n: int| 0 <= n < i ==> (#[trigger] c[n]) as int == ((staged[n] as int) * 3303)
                % 3329,
            forall|n: int| i <= n < 256 ==> c[n] == staged[n],
        decreases 256 - i,
    {
        c[i] = mulq(c[i], 3303);
        i = i + 1;
    }
    proof {
        assert(c@ =~= Seq::new(256, |n: int| (((staged[n] as int) * 3303) % 3329) as u16));
    }
    Poly { c }
}

/// Pointwise multiplication of two transform-domain elements: each of the
/// 128 coefficient pairs is multiplied in `Z_q[X]/(X^2 - gamma_i)`, and
/// the contract carries the exact product formulas.
pub fn basemul(a: &PolyNtt, b: &PolyNtt) -> (r: PolyNtt)
    requires
        a.wf(),
        b.wf(),
    ensures
        r.wf(),
        forall|n: int| 0 <= n < 256 && n % 2 == 0 ==> (#[trigger] r.c[n]) as int == ((a.c[n]
            * b.c[n]) % 3329 + (((a.c[n + 1] * b.c[n + 1]) % 3329) * spec_gammas()[n / 2]) % 3329)
            % 3329,
        forall|n: int| 0 <= n < 256 && n % 2 == 1 ==> (#[trigger] r.c[n]) as int == ((a.c[n - 1]
            * b.c[n]) % 3329 + (a.c[n] * b.c[n - 1]) % 3329) % 3329,
        r.c@ == spec_basemul(a.c@, b.c@),
{
    let gm = gammas();
    let mut c: [u16; 256] = [0u16; 256];
    let mut i: usize = 0;
    while i < 128
        invariant
            i <= 128,
            a.wf(),
            b.wf(),
            coeffs_ok(c),
            gm@ == spec_gammas(),
            forall|n: int| 0 <= n < 2 * i && n % 2 == 0 ==> (#[trigger] c[n]) as int == ((a.c[n]
                * b.c[n]) % 3329 + (((a.c[n + 1] * b.c[n + 1]) % 3329) * spec_gammas()[n / 2])
                % 3329) % 3329,
            forall|n: int| 0 <= n < 2 * i && n % 2 == 1 ==> (#[trigger] c[n]) as int == ((a.c[n - 1]
                * b.c[n]) % 3329 + (a.c[n] * b.c[n - 1]) % 3329) % 3329,
        decreases 128 - i,
    {
        let a0 = a.c[2 * i];
        let a1 = a.c[2 * i + 1];
        let b0 = b.c[2 * i];
        let b1 = b.c[2 * i + 1];
        let gamma = gm[i];
        c[2 * i] = addq(mulq(a0, b0), mulq(mulq(a1, b1), gamma));
        c[2 * i + 1] = addq(mulq(a0, b1), mulq(a1, b0));
        i = i + 1;
    }
    proof {
        assert(c@ =~= spec_basemul(a.c@, b.c@));
    }
    PolyNtt { c }
}

} // verus!
