//! Tests of the hash, ring-arithmetic and encoding layers.

use kyberlib::codec::{compress_c, decompress_c, pack_bits, subvec, unpack_bits};
use kyberlib::keccak::{sha3_256, sha3_512, shake128, shake256};
use kyberlib::ring::{addq, basemul, inv_ntt, mulq, ntt, poly_add, poly_sub, subq, Poly};

fn hx(s: &str) -> Vec<u8> {
    let b = s.as_bytes();
    let mut out: Vec<u8> = Vec::new();
    let mut i = 0;
    while i + 1 < b.len() {
        let hi = (b[i] as char).to_digit(16).unwrap() as u8;
        let lo = (b[i + 1] as char).to_digit(16).unwrap() as u8;
        out.push(hi * 16 + lo);
        i += 2;
    }
    out
}

#[test]
fn sha3_256_empty_vector() {
    let out = sha3_256(&Vec::new());
    assert_eq!(
        out,
        hx("a7ffc6f8bf1ed76651c14756a061d662f580ff4de43b49fa82d80a4b80f8434a")
    );
}

#[test]
fn sha3_512_empty_vector() {
    let out = sha3_512(&Vec::new());
    assert_eq!(
        out,
        hx("a69f73cca23a9ac5c8b567dc185a756e97c982164fe25859e0d1dcc1475c80a615b2123af1f5f94c11e3e9402c3ac558f500199d95b6d3e301758586281dcd26")
    );
}

#[test]
fn sha3_256_abc_vector() {
    let out = sha3_256(&b"abc".to_vec());
    assert_eq!(
        out,
        hx("3a985da74fe225b2045c172d6bd390bd855f086e3e9d525b46bfe24511431532")
    );
}

#[test]
fn shake128_empty_vector() {
    let out = shake128(&Vec::new(), 32);
    assert_eq!(
        out,
        hx("7f9c2ba4e88f827d616045507605853ed73b8093f6efbc88eb1a6eacfa66ef26")
    );
}

#[test]
fn shake256_empty_vector() {
    let out = shake256(&Vec::new(), 32);
    assert_eq!(
        out,
        hx("46b9dd2b0ba88d13233b3feb743eeb243fcd52ea62b81b82b50c27646ed5762f")
    );
}

#[test]
fn shake_output_length_is_exact() {
    assert_eq!(shake128(&b"seed".to_vec(), 17).len(), 17);
    assert_eq!(shake256(&b"seed".to_vec(), 200).len(), 200);
    assert_eq!(shake256(&b"seed".to_vec(), 0).len(), 0);
}

#[test]
fn modular_helpers_exact_values() {
    assert_eq!(addq(3328, 3328), 3327);
    assert_eq!(addq(0, 0), 0);
    assert_eq!(subq(0, 1), 3328);
    assert_eq!(subq(5, 5), 0);
    assert_eq!(mulq(3328, 3328), 1); // (-1) * (-1) mod q
    assert_eq!(mulq(2, 1665), 1); // decompress(compress) of the message bit
}

#[test]
fn ntt_round_trip_restores_polynomial() {
    let mut c = [0u16; 256];
    for (i, slot) in c.iter_mut().enumerate() {
        *slot = ((i as u32 * 2999 + 17) % 3329) as u16;
    }
    let p = Poly { c };
    let back = inv_ntt(&ntt(&p));
    assert_eq!(back.c, c);
}

#[test]
fn ntt_multiplication_matches_schoolbook_on_monomials() {
    // (1 + X) * (1 + X) = 1 + 2X + X^2 in the ring
    let mut a = [0u16; 256];
    a[0] = 1;
    a[1] = 1;
    let p = Poly { c: a };
    let prod = inv_ntt(&basemul(&ntt(&p), &ntt(&p)));
    assert_eq!(prod.c[0], 1);
    assert_eq!(prod.c[1], 2);
    assert_eq!(prod.c[2], 1);
    for i in 3..256 {
        assert_eq!(prod.c[i], 0);
    }
}

#[test]
fn negacyclic_wraparound_sign() {
    // X^255 * X = X^256 = -1 in Z_q[X]/(X^256+1)
    let mut a = [0u16; 256];
    a[255] = 1;
    let mut b = [0u16; 256];
    b[1] = 1;
    let prod = inv_ntt(&basemul(&ntt(&Poly { c: a }), &ntt(&Poly { c: b })));
    assert_eq!(prod.c[0], 3328); // q - 1
    for i in 1..256 {
        assert_eq!(prod.c[i], 0);
    }
}

#[test]
fn poly_add_sub_are_inverse() {
    let mut a = [0u16; 256];
    let mut b = [0u16; 256];
    for i in 0..256 {
        a[i] = ((i * 13) % 3329) as u16;
        b[i] = ((i * 2311 + 7) % 3329) as u16;
    }
    let pa = Poly { c: a };
    let pb = Poly { c: b };
    let s = poly_add(&pa, &pb);
    let d = poly_sub(&s, &pb);
    assert_eq!(d.c, a);
}

#[test]
fn compress_exact_values() {
    // round(x * 2^d / q) mod 2^d
    assert_eq!(compress_c(0, 10), 0);
    assert_eq!(compress_c(3328, 10), 1024 % 1024); // rounds up to 2^d, wraps to 0
    assert_eq!(compress_c(1664, 1), 1);
    assert_eq!(compress_c(832, 1), 0); // q/4 rounds down at d = 1
    assert_eq!(compress_c(1665, 4), 8);
}

#[test]
fn decompress_exact_values() {
    assert_eq!(decompress_c(0, 1), 0);
    assert_eq!(decompress_c(1, 1), 1665); // round(q/2)
    assert_eq!(decompress_c(1, 10), 3); // round(q/1024)
    assert_eq!(decompress_c(1023, 10), 3326);
}

#[test]
fn message_bit_survives_lift_and_compress() {
    for b in 0..2u16 {
        assert_eq!(compress_c(decompress_c(b, 1), 1), b);
    }
}

#[test]
fn compress_decompress_error_is_bounded() {
    for d in [4usize, 5, 10, 11] {
        let bound = (3329 + (1 << (d + 1)) - 1) / (1 << (d + 1)); // ceil(q / 2^(d+1))
        for x in 0..3329u16 {
            let y = compress_c(x, d);
            let z = decompress_c(y, d);
            let diff = (z as i32 - x as i32).rem_euclid(3329);
            let centered = if diff > 3329 / 2 { 3329 - diff } else { diff };
            assert!(centered <= bound as i32, "x={} d={} err={}", x, d, centered);
        }
    }
}

#[test]
fn pack_unpack_round_trip() {
    for d in [1usize, 4, 5, 10, 11, 12] {
        let mut vals = [0u16; 256];
        for (i, slot) in vals.iter_mut().enumerate() {
            *slot = ((i as u32 * 541 + 97) % (1 << d)) as u16;
        }
        let bytes = pack_bits(&vals, d);
        assert_eq!(bytes.len(), 32 * d);
        let back = unpack_bits(&bytes, d);
        assert_eq!(back, vals, "d = {}", d);
    }
}

#[test]
fn pack_bits_is_little_endian_lsb_first() {
    let mut vals = [0u16; 256];
    vals[0] = 1; // lowest bit of byte 0
    vals[8] = 1; // with d = 1, lowest bit of byte 1
    let bytes = pack_bits(&vals, 1);
    assert_eq!(bytes[0], 0x01);
    assert_eq!(bytes[1], 0x01);
    let mut v12 = [0u16; 256];
    v12[0] = 0xABC;
    v12[1] = 0xDEF;
    let b12 = pack_bits(&v12, 12);
    assert_eq!(b12[0], 0xBC);
    assert_eq!(b12[1], 0xFA); // low nibble: high bits of 0xABC; high nibble: low bits of 0xDEF
    assert_eq!(b12[2], 0xDE);
}

#[test]
fn subvec_copies_the_range() {
    let v = vec![1u8, 2, 3, 4, 5];
    assert_eq!(subvec(&v, 1, 4), vec![2, 3, 4]);
    assert_eq!(subvec(&v, 0, 0), Vec::<u8>::new());
    assert_eq!(subvec(&v, 0, 5), v);
}
