//! Tests of the KEM transform and the boundary operations.

use kyberlib::kem::{ct_eq_mask, ct_select, decapsulate as kem_decapsulate, encapsulate_derand,
    keypair_derand};
use kyberlib::params::ParamSet;
use kyberlib::{decapsulate, encapsulate, keypair, Kex, Keys, KyberLibError, Params};

fn seed(fill: u8) -> Vec<u8> {
    vec![fill; 32]
}

#[test]
fn end_to_end_rank2() {
    let keys = keypair().unwrap();
    let pk = keys.pubkey();
    let sk = keys.secret();
    assert_eq!(pk.len(), 800);
    assert_eq!(sk.len(), 1632);
    let kex = encapsulate(&pk).unwrap();
    let ct = kex.ciphertext();
    let ss_b = kex.sharedSecret();
    assert_eq!(ct.len(), 768);
    assert_eq!(ss_b.len(), 32);
    let ss_a = decapsulate(&ct, &sk).unwrap();
    assert_eq!(ss_a.len(), 32);
    assert_eq!(ss_a, ss_b);
}

#[test]
fn tampered_ciphertext_yields_different_secret_without_error() {
    let keys = keypair().unwrap();
    let pk = keys.pubkey();
    let sk = keys.secret();
    let kex = encapsulate(&pk).unwrap();
    let ss_b = kex.sharedSecret();
    let mut ct = kex.ciphertext();
    ct[5] ^= 0x10; // flip one bit
    let ss_a = decapsulate(&ct, &sk).unwrap();
    assert_eq!(ss_a.len(), 32);
    assert_ne!(ss_a, ss_b);
}

#[test]
fn implicit_rejection_is_deterministic() {
    let ps = ParamSet::rank2();
    let (pk, sk) = keypair_derand(&seed(1), &seed(2), &ps);
    let (ct, ss) = encapsulate_derand(&pk, &seed(3), &ps);
    let mut bad = ct.clone();
    bad[0] ^= 0x01;
    let decoy1 = kem_decapsulate(&bad, &sk, &ps);
    let decoy2 = kem_decapsulate(&bad, &sk, &ps);
    assert_eq!(decoy1, decoy2);
    assert_ne!(decoy1, ss);
    // and the genuine path still works on the untampered ciphertext
    assert_eq!(kem_decapsulate(&ct, &sk, &ps), ss);
}

#[test]
fn secret_key_embeds_public_key_and_rejection_value() {
    let ps = ParamSet::rank2();
    let z = seed(0x5A);
    let (pk, sk) = keypair_derand(&seed(4), &z, &ps);
    assert_eq!(&sk[768..1568], &pk[..]);
    assert_eq!(&sk[1600..1632], &z[..]);
}

#[test]
fn decoy_secret_follows_the_rejection_formula() {
    // on mismatch the shared secret is KDF(z || H(ct)) for the stored z
    let ps = ParamSet::rank2();
    let z = seed(0x77);
    let (pk, sk) = keypair_derand(&seed(6), &z, &ps);
    let (ct, _ss) = encapsulate_derand(&pk, &seed(9), &ps);
    let mut bad = ct.clone();
    bad[100] ^= 0x80;
    let got = kem_decapsulate(&bad, &sk, &ps);
    let mut kdf_in = z.clone();
    kdf_in.extend_from_slice(&kyberlib::keccak::sha3_256(&bad));
    let expected = kyberlib::keccak::shake256(&kdf_in, 32);
    assert_eq!(got, expected);
}

#[test]
fn round_trip_all_parameter_sets() {
    for (ps, pk_len, sk_len, ct_len) in [
        (ParamSet::rank2(), 800usize, 1632usize, 768usize),
        (ParamSet::rank3(), 1184, 2400, 1088),
        (ParamSet::rank4(), 1568, 3168, 1568),
    ] {
        let (pk, sk) = keypair_derand(&seed(11), &seed(22), &ps);
        assert_eq!(pk.len(), pk_len);
        assert_eq!(sk.len(), sk_len);
        let (ct, ss1) = encapsulate_derand(&pk, &seed(33), &ps);
        assert_eq!(ct.len(), ct_len);
        assert_eq!(ss1.len(), 32);
        let ss2 = kem_decapsulate(&ct, &sk, &ps);
        assert_eq!(ss1, ss2);
    }
}

#[test]
fn derived_encryption_is_deterministic() {
    let ps = ParamSet::rank3();
    let (pk, _sk) = keypair_derand(&seed(7), &seed(8), &ps);
    let m = seed(42);
    let coin = seed(99);
    let ct1 = kyberlib::indcpa::encrypt(&pk, &m, &coin, &ps);
    let ct2 = kyberlib::indcpa::encrypt(&pk, &m, &coin, &ps);
    assert_eq!(ct1, ct2);
    // a different coin moves the ciphertext
    let ct3 = kyberlib::indcpa::encrypt(&pk, &m, &seed(100), &ps);
    assert_ne!(ct1, ct3);
}

#[test]
fn cpa_round_trip_recovers_message() {
    let ps = ParamSet::rank2();
    let (pk, sk) = kyberlib::indcpa::keygen(&seed(5), &ps);
    let m = seed(0xA5);
    let ct = kyberlib::indcpa::encrypt(&pk, &m, &seed(77), &ps);
    let back = kyberlib::indcpa::decrypt(&sk, &ct, &ps);
    assert_eq!(back, m);
}

#[test]
fn keypair_derand_is_deterministic() {
    let ps = ParamSet::rank2();
    let (pk1, sk1) = keypair_derand(&seed(1), &seed(2), &ps);
    let (pk2, sk2) = keypair_derand(&seed(1), &seed(2), &ps);
    assert_eq!(pk1, pk2);
    assert_eq!(sk1, sk2);
    let (pk3, _) = keypair_derand(&seed(9), &seed(2), &ps);
    assert_ne!(pk1, pk3);
}

#[test]
fn wrong_length_public_key_is_rejected() {
    let short = vec![0u8; 799];
    match encapsulate(&short) {
        Err(KyberLibError::InvalidInput) => {}
        _ => panic!("expected an invalid-input error"),
    }
    let long = vec![0u8; 801];
    assert!(matches!(encapsulate(&long), Err(KyberLibError::InvalidInput)));
}

#[test]
fn wrong_length_decapsulation_inputs_are_rejected() {
    let keys = keypair().unwrap();
    let sk = keys.secret();
    let bad_ct = vec![0u8; 767];
    assert!(matches!(decapsulate(&bad_ct, &sk), Err(KyberLibError::InvalidInput)));
    let ct = vec![0u8; 768];
    let bad_sk = vec![0u8; 1631];
    assert!(matches!(decapsulate(&ct, &bad_sk), Err(KyberLibError::InvalidInput)));
    // a garbage ciphertext of the right length is not an error: implicit rejection
    let ss = decapsulate(&ct, &sk).unwrap();
    assert_eq!(ss.len(), 32);
}

#[test]
fn randomness_wrapper_feeds_fresh_bytes() {
    // two fresh keypairs must differ: the OS randomness wrapper cannot be
    // handing back a constant buffer
    let k1 = keypair().unwrap();
    let k2 = keypair().unwrap();
    assert_ne!(k1.pubkey(), k2.pubkey());
}

#[test]
fn constant_time_compare_and_select() {
    let a = vec![1u8, 2, 3];
    let b = vec![1u8, 2, 3];
    let c = vec![1u8, 2, 4];
    assert_eq!(ct_eq_mask(&a, &b), 0xFF);
    assert_eq!(ct_eq_mask(&a, &c), 0x00);
    assert_eq!(ct_select(&a, &c, 0xFF), a);
    assert_eq!(ct_select(&a, &c, 0x00), c);
}

#[test]
fn keys_accessors_return_the_buffers() {
    let keys = Keys::new().unwrap();
    assert_eq!(keys.pubkey().len(), 800);
    assert_eq!(keys.secret().len(), 1632);
}

#[test]
fn kex_accessors_and_setters() {
    let keys = keypair().unwrap();
    let mut kex = Kex::new(&keys.pubkey()).unwrap();
    assert_eq!(kex.ciphertext().len(), 768);
    assert_eq!(kex.sharedSecret().len(), 32);
    kex.set_ciphertext(vec![9u8; 4]);
    assert_eq!(kex.ciphertext(), vec![9u8; 4]);
    kex.set_sharedSecret(vec![7u8; 2]);
    assert_eq!(kex.sharedSecret(), vec![7u8; 2]);
}

#[test]
fn params_report_rank2_lengths() {
    assert_eq!(Params::publicKeyBytes(), 800);
    assert_eq!(Params::secretKeyBytes(), 1632);
    assert_eq!(Params::ciphertextBytes(), 768);
    assert_eq!(Params::sharedSecretBytes(), 32);
}

#[test]
fn frozen_kem_vectors_pin_the_byte_format() {
    // deterministic transcripts from fixed seeds, frozen as digests: any
    // change to the sampling, transform, packing or hashing layout (which
    // spec-level tests alone would not notice if it stayed self-consistent)
    // moves these values
    let expected = [
        (
            ParamSet::rank2(),
            "aa1532775c2c36369f521edc4b5c6f8e697270be5e3368ae36994c0357579d88",
            "b9e5a3a2fb5894bb4bc10db5eebb1b587a214722f74e543ab04db07075530fc6",
        ),
        (
            ParamSet::rank3(),
            "331e4b4a7e0d9ab7f7ccaf65fcd3bc5628678261b66550ef03f59bca48beaae4",
            "73ad38362b380cb964cfd170b7709984c52113ca8f0817401ad1f9511b144d35",
        ),
        (
            ParamSet::rank4(),
            "bc5e25023a2175604bb42ab1e9899a4719bb44ef3c9a9862a54d02bebddd430a",
            "1194700ef64eaee69c4583fcc1b4cb42a46b48e86e40dc8efd35067c9a79f134",
        ),
    ];
    for (ps, digest, ss_hex) in expected {
        let (pk, sk) = keypair_derand(&vec![1u8; 32], &vec![2u8; 32], &ps);
        let (ct, ss) = encapsulate_derand(&pk, &vec![3u8; 32], &ps);
        assert_eq!(kem_decapsulate(&ct, &sk, &ps), ss);
        let mut cat = pk.clone();
        cat.extend_from_slice(&sk);
        cat.extend_from_slice(&ct);
        cat.extend_from_slice(&ss);
        let mut hex = String::new();
        for b in kyberlib::keccak::sha3_256(&cat) {
            hex.push_str(&format!("{:02x}", b));
        }
        assert_eq!(hex, digest);
        let mut ss_out = String::new();
        for b in &ss {
            ss_out.push_str(&format!("{:02x}", b));
        }
        assert_eq!(ss_out, ss_hex);
    }
}
