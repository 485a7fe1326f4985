use bbs_ffi::bls::{
    blinding_factor_size, bls_generate_blinded_g1_key, bls_generate_blinded_g2_key,
    bls_generate_g1_key, bls_generate_g2_key, bls_get_public_key, bls_public_key_g1_size,
    bls_public_key_g2_size, bls_public_key_to_bbs_key, bls_secret_key_size,
    bls_secret_key_to_bbs_key,
};
use bbs_ffi::errors::BbsFfiError;

#[test]
fn sizes_match_the_compressed_encodings() {
    assert_eq!(bls_secret_key_size(), 32);
    assert_eq!(bls_public_key_g2_size(), 96);
    assert_eq!(bls_public_key_g1_size(), 48);
    assert_eq!(blinding_factor_size(), 32);
}

#[test]
fn seeded_g2_key_generation_is_deterministic() {
    let seed = vec![7u8; 32];
    let (pk1, sk1) = bls_generate_g2_key(Some(seed.clone()));
    let (pk2, sk2) = bls_generate_g2_key(Some(seed));
    assert_eq!(pk1, pk2);
    assert_eq!(sk1, sk2);
    assert_eq!(pk1.len(), 96);
    assert_eq!(sk1.len(), 32);
    // a different seed yields a different key
    let (pk3, sk3) = bls_generate_g2_key(Some(vec![8u8; 32]));
    assert_ne!(pk1, pk3);
    assert_ne!(sk1, sk3);
}

#[test]
fn seeded_g1_key_generation_is_deterministic() {
    let seed = vec![9u8; 32];
    let (pk1, sk1) = bls_generate_g1_key(Some(seed.clone()));
    let (pk2, sk2) = bls_generate_g1_key(Some(seed));
    assert_eq!(pk1, pk2);
    assert_eq!(sk1, sk2);
    assert_eq!(pk1.len(), 48);
    assert_eq!(sk1.len(), 32);
}

#[test]
fn unseeded_key_generation_draws_fresh_randomness() {
    let (pk1, sk1) = bls_generate_g2_key(None);
    let (pk2, sk2) = bls_generate_g2_key(None);
    assert_eq!(pk1.len(), 96);
    assert_eq!(sk1.len(), 32);
    assert_ne!(sk1, sk2);
    assert_ne!(pk1, pk2);
}

#[test]
fn blinded_g2_key_has_the_extra_term() {
    let seed = vec![3u8; 32];
    let (bf, bpk, sk) = bls_generate_blinded_g2_key(Some(seed.clone())).unwrap();
    assert_eq!(bf.len(), 32);
    assert_eq!(bpk.len(), 96);
    assert_eq!(sk.len(), 32);
    // the plain public key of the same secret differs from the blinded one
    let (pk, sk2) = bls_generate_g2_key(Some(seed.clone()));
    assert_eq!(sk, sk2);
    assert_ne!(bpk, pk);
    // deterministic for a fixed seed
    let (bf2, bpk2, _) = bls_generate_blinded_g2_key(Some(seed)).unwrap();
    assert_eq!(bf, bf2);
    assert_eq!(bpk, bpk2);
}

#[test]
fn blinded_g1_key_has_the_extra_term() {
    let seed = vec![4u8; 32];
    let (bf, bpk, sk) = bls_generate_blinded_g1_key(Some(seed.clone())).unwrap();
    assert_eq!(bf.len(), 32);
    assert_eq!(bpk.len(), 48);
    assert_eq!(sk.len(), 32);
    let (pk, _) = bls_generate_g1_key(Some(seed));
    assert_ne!(bpk, pk);
}

#[test]
fn compact_public_key_expands_to_a_full_key() {
    let (_, sk) = bls_generate_g2_key(Some(vec![5u8; 32]));
    let dpk = bls_get_public_key(&sk).unwrap();
    assert_eq!(dpk.len(), 96);
    // expanding through the secret key and through the compact key agree
    let via_sk = bls_secret_key_to_bbs_key(&sk, 3).unwrap();
    let via_dpk = bls_public_key_to_bbs_key(&dpk, 3).unwrap();
    assert_eq!(via_sk, via_dpk);
    // one G2 point, one blinding generator, a count and three generators
    assert_eq!(via_sk.len(), 96 + 48 + 4 + 3 * 48);
}

#[test]
fn expansion_rejects_a_zero_message_count() {
    let (_, sk) = bls_generate_g2_key(Some(vec![6u8; 32]));
    assert_eq!(bls_secret_key_to_bbs_key(&sk, 0), Err(BbsFfiError::KeyGenError));
    let dpk = bls_get_public_key(&sk).unwrap();
    assert_eq!(bls_public_key_to_bbs_key(&dpk, 0), Err(BbsFfiError::KeyGenError));
}

#[test]
fn malformed_key_bytes_are_rejected() {
    assert_eq!(
        bls_get_public_key(&vec![1u8, 2, 3]),
        Err(BbsFfiError::BadSecretKeyBytes)
    );
    assert_eq!(
        bls_secret_key_to_bbs_key(&vec![0xFFu8; 7], 2),
        Err(BbsFfiError::BadSecretKeyBytes)
    );
    assert_eq!(
        bls_public_key_to_bbs_key(&vec![0xAAu8; 96], 2),
        Err(BbsFfiError::BadDeterministicPublicKeyBytes)
    );
    assert_eq!(
        bls_public_key_to_bbs_key(&vec![1u8, 2, 3], 2),
        Err(BbsFfiError::BadDeterministicPublicKeyBytes)
    );
}
