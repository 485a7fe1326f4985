use bbs_ffi::bbs_sign::{
    bbs_sign_context_add_message_bytes, bbs_sign_context_add_message_prehashed,
    bbs_sign_context_add_message_string, bbs_sign_context_finish, bbs_sign_context_init,
    bbs_sign_context_set_public_key, bbs_sign_context_set_secret_key, bbs_signature_size,
    bbs_verify_context_add_message_bytes, bbs_verify_context_finish, bbs_verify_context_init,
    bbs_verify_context_set_public_key, bbs_verify_context_set_signature, free_bbs_sign,
    SignContext,
};
use bbs_ffi::bls::{bls_generate_g2_key, bls_secret_key_to_bbs_key};
use bbs_ffi::errors::BbsFfiError;
use bbs_ffi::handles::HandleMap;

fn keypair(seed: &[u8], message_count: u32) -> (Vec<u8>, Vec<u8>) {
    let (_, sk) = bls_generate_g2_key(Some(seed.to_vec()));
    let pk = bls_secret_key_to_bbs_key(&sk, message_count).unwrap();
    (pk, sk)
}

fn sign(messages: &[Vec<u8>], sk: &Vec<u8>, pk: &Vec<u8>) -> Vec<u8> {
    let mut m: HandleMap<SignContext> = HandleMap::new();
    let h = bbs_sign_context_init(&mut m);
    for msg in messages {
        bbs_sign_context_add_message_bytes(&mut m, h, msg).unwrap();
    }
    bbs_sign_context_set_secret_key(&mut m, h, sk).unwrap();
    bbs_sign_context_set_public_key(&mut m, h, pk).unwrap();
    bbs_sign_context_finish(&mut m, h).unwrap()
}

fn verify(messages: &[Vec<u8>], signature: &Vec<u8>, pk: &Vec<u8>) -> Result<bool, BbsFfiError> {
    let mut m: HandleMap<SignContext> = HandleMap::new();
    let h = bbs_verify_context_init(&mut m);
    for msg in messages {
        bbs_verify_context_add_message_bytes(&mut m, h, msg).unwrap();
    }
    bbs_verify_context_set_public_key(&mut m, h, pk).unwrap();
    bbs_verify_context_set_signature(&mut m, h, signature).unwrap();
    bbs_verify_context_finish(&mut m, h)
}

#[test]
fn zero_seed_sign_and_verify_three_messages() {
    // seed of 32 zero bytes, messages 0x01 0x02 0x03, message count 3
    let (pk, sk) = keypair(&[0u8; 32], 3);
    let messages = vec![vec![0x01u8], vec![0x02u8], vec![0x03u8]];
    let sig = sign(&messages, &sk, &pk);
    assert_eq!(sig.len(), 112);
    assert_eq!(bbs_signature_size(), 112);
    assert!(verify(&messages, &sig, &pk).unwrap());

    let tampered = vec![vec![0x01u8], vec![0x02u8], vec![0xFFu8]];
    assert!(!verify(&tampered, &sig, &pk).unwrap());
}

#[test]
fn mutating_any_single_message_fails_verification() {
    let (pk, sk) = keypair(b"mutation seed mutation seed 1234", 3);
    let messages = vec![b"alpha".to_vec(), b"beta".to_vec(), b"gamma".to_vec()];
    let sig = sign(&messages, &sk, &pk);
    for i in 0..3 {
        let mut tampered = messages.clone();
        tampered[i] = b"changed".to_vec();
        assert!(!verify(&tampered, &sig, &pk).unwrap(), "mutation at {} passed", i);
    }
}

#[test]
fn reordering_two_messages_fails_verification() {
    let (pk, sk) = keypair(b"reorder seed reorder seed 123456", 3);
    let messages = vec![b"alpha".to_vec(), b"beta".to_vec(), b"gamma".to_vec()];
    let sig = sign(&messages, &sk, &pk);
    let reordered = vec![b"beta".to_vec(), b"alpha".to_vec(), b"gamma".to_vec()];
    assert!(!verify(&reordered, &sig, &pk).unwrap());
}

#[test]
fn substituting_the_public_key_fails_verification() {
    let (pk, sk) = keypair(b"first key seed first key seed 12", 3);
    let (other_pk, _) = keypair(b"second key seed second key seed ", 3);
    let messages = vec![b"alpha".to_vec(), b"beta".to_vec(), b"gamma".to_vec()];
    let sig = sign(&messages, &sk, &pk);
    assert!(!verify(&messages, &sig, &other_pk).unwrap());
}

#[test]
fn verify_is_deterministic_on_identical_inputs() {
    let (pk, sk) = keypair(b"determinism seed determinism see", 2);
    let messages = vec![b"one".to_vec(), b"two".to_vec()];
    let sig = sign(&messages, &sk, &pk);
    let first = verify(&messages, &sig, &pk);
    let second = verify(&messages, &sig, &pk);
    assert_eq!(first, second);
    assert!(first.unwrap());
}

#[test]
fn message_count_mismatch_is_rejected_at_finish() {
    let (pk, sk) = keypair(b"count mismatch seed count mismat", 3);
    let mut m: HandleMap<SignContext> = HandleMap::new();
    let h = bbs_sign_context_init(&mut m);
    bbs_sign_context_add_message_bytes(&mut m, h, &b"only one".to_vec()).unwrap();
    bbs_sign_context_set_secret_key(&mut m, h, &sk).unwrap();
    bbs_sign_context_set_public_key(&mut m, h, &pk).unwrap();
    assert_eq!(
        bbs_sign_context_finish(&mut m, h),
        Err(BbsFfiError::MessageCountMismatch)
    );
    // the handle stays usable for correction
    bbs_sign_context_add_message_bytes(&mut m, h, &b"second".to_vec()).unwrap();
    bbs_sign_context_add_message_bytes(&mut m, h, &b"third".to_vec()).unwrap();
    let sig = bbs_sign_context_finish(&mut m, h).unwrap();
    assert_eq!(sig.len(), 112);
}

#[test]
fn finish_reports_missing_fields_in_order() {
    let mut m: HandleMap<SignContext> = HandleMap::new();
    let h = bbs_sign_context_init(&mut m);
    assert_eq!(bbs_sign_context_finish(&mut m, h), Err(BbsFfiError::SecretKeyNotSet));
    let (pk, sk) = keypair(b"field order seed field order see", 1);
    bbs_sign_context_set_secret_key(&mut m, h, &sk).unwrap();
    assert_eq!(bbs_sign_context_finish(&mut m, h), Err(BbsFfiError::PublicKeyNotSet));
    bbs_sign_context_set_public_key(&mut m, h, &pk).unwrap();
    assert_eq!(bbs_sign_context_finish(&mut m, h), Err(BbsFfiError::NoMessages));
}

#[test]
fn finished_sign_handle_is_not_found_afterwards() {
    let (pk, sk) = keypair(b"lifecycle seed lifecycle seed 12", 1);
    let mut m: HandleMap<SignContext> = HandleMap::new();
    let h = bbs_sign_context_init(&mut m);
    bbs_sign_context_add_message_bytes(&mut m, h, &b"msg".to_vec()).unwrap();
    bbs_sign_context_set_secret_key(&mut m, h, &sk).unwrap();
    bbs_sign_context_set_public_key(&mut m, h, &pk).unwrap();
    bbs_sign_context_finish(&mut m, h).unwrap();
    assert_eq!(
        bbs_sign_context_add_message_bytes(&mut m, h, &b"late".to_vec()),
        Err(BbsFfiError::HandleNotFound)
    );
    assert_eq!(
        bbs_sign_context_set_secret_key(&mut m, h, &sk),
        Err(BbsFfiError::HandleNotFound)
    );
    assert_eq!(bbs_sign_context_finish(&mut m, h), Err(BbsFfiError::HandleNotFound));
}

#[test]
fn freed_handle_is_not_found_afterwards() {
    let mut m: HandleMap<SignContext> = HandleMap::new();
    let h = bbs_sign_context_init(&mut m);
    free_bbs_sign(&mut m, h).unwrap();
    assert_eq!(free_bbs_sign(&mut m, h), Err(BbsFfiError::HandleNotFound));
    assert_eq!(
        bbs_sign_context_add_message_bytes(&mut m, h, &b"late".to_vec()),
        Err(BbsFfiError::HandleNotFound)
    );
}

#[test]
fn verify_finish_retires_the_handle_even_on_failure() {
    let mut m: HandleMap<SignContext> = HandleMap::new();
    let h = bbs_verify_context_init(&mut m);
    bbs_verify_context_add_message_bytes(&mut m, h, &b"msg".to_vec()).unwrap();
    assert_eq!(bbs_verify_context_finish(&mut m, h), Err(BbsFfiError::SignatureNotSet));
    assert_eq!(
        bbs_verify_context_add_message_bytes(&mut m, h, &b"late".to_vec()),
        Err(BbsFfiError::HandleNotFound)
    );
}

#[test]
fn independent_handles_do_not_interfere() {
    let (pk, sk) = keypair(b"independent seed independent see", 1);
    let mut m: HandleMap<SignContext> = HandleMap::new();
    let h1 = bbs_sign_context_init(&mut m);
    let h2 = bbs_sign_context_init(&mut m);
    assert_ne!(h1, h2);
    bbs_sign_context_add_message_bytes(&mut m, h1, &b"first".to_vec()).unwrap();
    bbs_sign_context_add_message_bytes(&mut m, h2, &b"second".to_vec()).unwrap();
    bbs_sign_context_set_secret_key(&mut m, h1, &sk).unwrap();
    bbs_sign_context_set_public_key(&mut m, h1, &pk).unwrap();
    bbs_sign_context_finish(&mut m, h1).unwrap();
    // the other context is still live and keeps its own state
    assert_eq!(bbs_sign_context_finish(&mut m, h2), Err(BbsFfiError::SecretKeyNotSet));
}

#[test]
fn string_and_bytes_messages_hash_alike() {
    let (pk, sk) = keypair(b"string bytes seed string bytes s", 1);
    let mut m: HandleMap<SignContext> = HandleMap::new();
    let h = bbs_sign_context_init(&mut m);
    bbs_sign_context_add_message_string(&mut m, h, "hello").unwrap();
    bbs_sign_context_set_secret_key(&mut m, h, &sk).unwrap();
    bbs_sign_context_set_public_key(&mut m, h, &pk).unwrap();
    let sig = bbs_sign_context_finish(&mut m, h).unwrap();
    assert!(verify(&[b"hello".to_vec()], &sig, &pk).unwrap());
}

#[test]
fn prehashed_messages_round_trip() {
    let (pk, sk) = keypair(b"prehashed seed prehashed seed 12", 1);
    // a small scalar in big-endian form is a valid prehashed message
    let mut scalar = vec![0u8; 32];
    scalar[31] = 7;
    let mut m: HandleMap<SignContext> = HandleMap::new();
    let h = bbs_sign_context_init(&mut m);
    bbs_sign_context_add_message_prehashed(&mut m, h, &scalar).unwrap();
    bbs_sign_context_set_secret_key(&mut m, h, &sk).unwrap();
    bbs_sign_context_set_public_key(&mut m, h, &pk).unwrap();
    let sig = bbs_sign_context_finish(&mut m, h).unwrap();

    let mut vm: HandleMap<SignContext> = HandleMap::new();
    let vh = bbs_verify_context_init(&mut vm);
    bbs_ffi::bbs_sign::bbs_verify_context_add_message_prehashed(&mut vm, vh, &scalar).unwrap();
    bbs_verify_context_set_public_key(&mut vm, vh, &pk).unwrap();
    bbs_verify_context_set_signature(&mut vm, vh, &sig).unwrap();
    assert!(bbs_verify_context_finish(&mut vm, vh).unwrap());
}

#[test]
fn empty_and_malformed_inputs_are_rejected() {
    let mut m: HandleMap<SignContext> = HandleMap::new();
    let h = bbs_sign_context_init(&mut m);
    assert_eq!(
        bbs_sign_context_add_message_bytes(&mut m, h, &Vec::new()),
        Err(BbsFfiError::EmptyMessage)
    );
    assert_eq!(
        bbs_sign_context_set_secret_key(&mut m, h, &Vec::new()),
        Err(BbsFfiError::EmptySecretKey)
    );
    assert_eq!(
        bbs_sign_context_set_secret_key(&mut m, h, &vec![1u8, 2, 3]),
        Err(BbsFfiError::BadSecretKeyBytes)
    );
    assert_eq!(
        bbs_sign_context_set_public_key(&mut m, h, &vec![9u8; 37]),
        Err(BbsFfiError::BadPublicKeyBytes)
    );
    assert_eq!(
        bbs_verify_context_set_signature(&mut m, h, &vec![4u8; 10]),
        Err(BbsFfiError::BadSignatureBytes)
    );
    // a parse failure leaves the context usable
    let (pk, sk) = keypair(b"reject seed reject seed 12345678", 1);
    bbs_sign_context_add_message_bytes(&mut m, h, &b"msg".to_vec()).unwrap();
    bbs_sign_context_set_secret_key(&mut m, h, &sk).unwrap();
    bbs_sign_context_set_public_key(&mut m, h, &pk).unwrap();
    assert_eq!(bbs_sign_context_finish(&mut m, h).unwrap().len(), 112);
}

#[test]
fn retired_handle_beats_bad_key_bytes() {
    let mut m: HandleMap<SignContext> = HandleMap::new();
    let h = bbs_sign_context_init(&mut m);
    free_bbs_sign(&mut m, h).unwrap();
    // a short public key on a retired handle reports the handle first
    assert_eq!(
        bbs_sign_context_set_public_key(&mut m, h, &vec![1u8, 2, 3]),
        Err(BbsFfiError::HandleNotFound)
    );
    // on a live handle the same bytes are a key error that leaves it usable
    let h2 = bbs_sign_context_init(&mut m);
    assert_eq!(
        bbs_sign_context_set_public_key(&mut m, h2, &vec![1u8, 2, 3]),
        Err(BbsFfiError::BadPublicKeyBytes)
    );
    assert_eq!(bbs_sign_context_finish(&mut m, h2), Err(BbsFfiError::SecretKeyNotSet));
}
