use bbs_ffi::bbs_create_proof::{
    bbs_create_proof_context_add_proof_message_bytes, bbs_create_proof_context_finish,
    bbs_create_proof_context_init, bbs_create_proof_context_set_nonce_bytes,
    bbs_create_proof_context_set_public_key, bbs_create_proof_context_set_signature,
    bbs_create_proof_context_size, free_create_proof, CreateProofContext, ProofMessageType,
};
use bbs_ffi::bbs_sign::{
    bbs_sign_context_add_message_bytes, bbs_sign_context_finish, bbs_sign_context_init,
    bbs_sign_context_set_public_key, bbs_sign_context_set_secret_key, SignContext,
};
use bbs_ffi::bbs_verify_proof::{
    bbs_verify_proof_context_add_message_bytes, bbs_verify_proof_context_finish,
    bbs_verify_proof_context_init, bbs_verify_proof_context_set_nonce_bytes,
    bbs_verify_proof_context_set_proof, bbs_verify_proof_context_set_public_key,
    VerifyProofContext,
};
use bbs_ffi::bls::{bls_generate_g2_key, bls_secret_key_to_bbs_key};
use bbs_ffi::errors::{BbsFfiError, SignatureProofStatus};
use bbs_ffi::handles::HandleMap;

fn keypair(seed: &[u8], message_count: u32) -> (Vec<u8>, Vec<u8>) {
    let (_, sk) = bls_generate_g2_key(Some(seed.to_vec()));
    let pk = bls_secret_key_to_bbs_key(&sk, message_count).unwrap();
    (pk, sk)
}

fn sign(messages: &[Vec<u8>], sk: &Vec<u8>, pk: &Vec<u8>) -> Vec<u8> {
    let mut m: HandleMap<SignContext> = HandleMap::new();
    let h = bbs_sign_context_init(&mut m);
    for msg in messages {
        bbs_sign_context_add_message_bytes(&mut m, h, msg).unwrap();
    }
    bbs_sign_context_set_secret_key(&mut m, h, sk).unwrap();
    bbs_sign_context_set_public_key(&mut m, h, pk).unwrap();
    bbs_sign_context_finish(&mut m, h).unwrap()
}

/// Creates a proof over three messages revealing only position 0.
fn make_proof(
    messages: &[Vec<u8>],
    sig: &Vec<u8>,
    pk: &Vec<u8>,
    nonce: &Vec<u8>,
) -> (Vec<u8>, usize) {
    let mut m: HandleMap<CreateProofContext> = HandleMap::new();
    let h = bbs_create_proof_context_init(&mut m);
    bbs_create_proof_context_add_proof_message_bytes(
        &mut m,
        h,
        &messages[0],
        ProofMessageType::Revealed,
        &Vec::new(),
    )
    .unwrap();
    for msg in &messages[1..] {
        bbs_create_proof_context_add_proof_message_bytes(
            &mut m,
            h,
            msg,
            ProofMessageType::HiddenProofSpecificBlinding,
            &Vec::new(),
        )
        .unwrap();
    }
    bbs_create_proof_context_set_signature(&mut m, h, sig).unwrap();
    bbs_create_proof_context_set_public_key(&mut m, h, pk).unwrap();
    bbs_create_proof_context_set_nonce_bytes(&mut m, h, nonce).unwrap();
    let predicted = bbs_create_proof_context_size(&m, h).unwrap();
    let proof = bbs_create_proof_context_finish(&mut m, h).unwrap();
    (proof, predicted)
}

fn verify_proof(
    revealed: &[(u32, Vec<u8>)],
    proof: &Vec<u8>,
    pk: &Vec<u8>,
    nonce: &Vec<u8>,
) -> Result<SignatureProofStatus, BbsFfiError> {
    let mut m: HandleMap<VerifyProofContext> = HandleMap::new();
    let h = bbs_verify_proof_context_init(&mut m);
    for (i, msg) in revealed {
        bbs_verify_proof_context_add_message_bytes(&mut m, h, *i, msg).unwrap();
    }
    bbs_verify_proof_context_set_proof(&mut m, h, proof).unwrap();
    bbs_verify_proof_context_set_public_key(&mut m, h, pk).unwrap();
    bbs_verify_proof_context_set_nonce_bytes(&mut m, h, nonce).unwrap();
    bbs_verify_proof_context_finish(&mut m, h)
}

#[test]
fn proof_round_trip_revealing_index_zero() {
    let (pk, sk) = keypair(b"proof round trip seed 1234567890", 3);
    let messages = vec![b"shown".to_vec(), b"hidden one".to_vec(), b"hidden two".to_vec()];
    let sig = sign(&messages, &sk, &pk);
    let nonce = b"verifier nonce".to_vec();
    let (proof, predicted) = make_proof(&messages, &sig, &pk, &nonce);
    assert_eq!(proof.len(), predicted);
    // the frame declares three messages and reveals exactly position 0
    assert_eq!(&proof[..2], &[0u8, 3u8]);
    assert_eq!(proof[2], 0x01u8);

    let status = verify_proof(&[(0, messages[0].clone())], &proof, &pk, &nonce).unwrap();
    assert_eq!(status, SignatureProofStatus::Success);
    assert!(status.is_valid());
}

#[test]
fn proof_with_a_different_nonce_fails() {
    let (pk, sk) = keypair(b"proof nonce seed 123456789012345", 3);
    let messages = vec![b"shown".to_vec(), b"hidden one".to_vec(), b"hidden two".to_vec()];
    let sig = sign(&messages, &sk, &pk);
    let nonce = b"nonce A".to_vec();
    let (proof, _) = make_proof(&messages, &sig, &pk, &nonce);
    let status = verify_proof(
        &[(0, messages[0].clone())],
        &proof,
        &pk,
        &b"nonce B".to_vec(),
    )
    .unwrap();
    assert_ne!(status, SignatureProofStatus::Success);
    assert!(!status.is_valid());
}

#[test]
fn proof_with_a_different_revealed_value_fails() {
    let (pk, sk) = keypair(b"proof value seed 123456789012345", 3);
    let messages = vec![b"shown".to_vec(), b"hidden one".to_vec(), b"hidden two".to_vec()];
    let sig = sign(&messages, &sk, &pk);
    let nonce = b"nonce".to_vec();
    let (proof, _) = make_proof(&messages, &sig, &pk, &nonce);
    let status = verify_proof(&[(0, b"forged".to_vec())], &proof, &pk, &nonce).unwrap();
    assert_eq!(status, SignatureProofStatus::BadRevealedMessage);
}

#[test]
fn proof_with_a_mismatched_index_set_is_a_hard_failure() {
    let (pk, sk) = keypair(b"proof index seed 123456789012345", 3);
    let messages = vec![b"shown".to_vec(), b"hidden one".to_vec(), b"hidden two".to_vec()];
    let sig = sign(&messages, &sk, &pk);
    let nonce = b"nonce".to_vec();
    let (proof, _) = make_proof(&messages, &sig, &pk, &nonce);
    // the verifier supplies position 1 where the proof revealed position 0
    assert_eq!(
        verify_proof(&[(1, messages[1].clone())], &proof, &pk, &nonce),
        Err(BbsFfiError::IndicesMismatch)
    );
    // and supplying both positions fails the same way
    assert_eq!(
        verify_proof(
            &[(0, messages[0].clone()), (1, messages[1].clone())],
            &proof,
            &pk,
            &nonce
        ),
        Err(BbsFfiError::IndicesMismatch)
    );
}

#[test]
fn externally_blinded_messages_round_trip() {
    let (pk, sk) = keypair(b"external blinding seed 123456789", 2);
    let messages = vec![b"shown".to_vec(), b"linked hidden".to_vec()];
    let sig = sign(&messages, &sk, &pk);
    let nonce = b"nonce".to_vec();
    let blinding = b"caller blinding".to_vec();

    let mut m: HandleMap<CreateProofContext> = HandleMap::new();
    let h = bbs_create_proof_context_init(&mut m);
    bbs_create_proof_context_add_proof_message_bytes(
        &mut m,
        h,
        &messages[0],
        ProofMessageType::Revealed,
        &Vec::new(),
    )
    .unwrap();
    bbs_create_proof_context_add_proof_message_bytes(
        &mut m,
        h,
        &messages[1],
        ProofMessageType::HiddenExternalBlinding,
        &blinding,
    )
    .unwrap();
    bbs_create_proof_context_set_signature(&mut m, h, &sig).unwrap();
    bbs_create_proof_context_set_public_key(&mut m, h, &pk).unwrap();
    bbs_create_proof_context_set_nonce_bytes(&mut m, h, &nonce).unwrap();
    let proof = bbs_create_proof_context_finish(&mut m, h).unwrap();
    let status = verify_proof(&[(0, messages[0].clone())], &proof, &pk, &nonce).unwrap();
    assert_eq!(status, SignatureProofStatus::Success);
}

#[test]
fn external_blinding_requires_a_blinding_factor() {
    let mut m: HandleMap<CreateProofContext> = HandleMap::new();
    let h = bbs_create_proof_context_init(&mut m);
    assert_eq!(
        bbs_create_proof_context_add_proof_message_bytes(
            &mut m,
            h,
            &b"msg".to_vec(),
            ProofMessageType::HiddenExternalBlinding,
            &Vec::new(),
        ),
        Err(BbsFfiError::EmptyBlindingFactor)
    );
}

#[test]
fn proof_creation_rejects_a_signature_over_other_messages() {
    let (pk, sk) = keypair(b"wrong messages seed 123456789012", 2);
    let messages = vec![b"one".to_vec(), b"two".to_vec()];
    let sig = sign(&messages, &sk, &pk);
    let mut m: HandleMap<CreateProofContext> = HandleMap::new();
    let h = bbs_create_proof_context_init(&mut m);
    bbs_create_proof_context_add_proof_message_bytes(
        &mut m,
        h,
        &b"one".to_vec(),
        ProofMessageType::Revealed,
        &Vec::new(),
    )
    .unwrap();
    bbs_create_proof_context_add_proof_message_bytes(
        &mut m,
        h,
        &b"not two".to_vec(),
        ProofMessageType::HiddenProofSpecificBlinding,
        &Vec::new(),
    )
    .unwrap();
    bbs_create_proof_context_set_signature(&mut m, h, &sig).unwrap();
    bbs_create_proof_context_set_public_key(&mut m, h, &pk).unwrap();
    bbs_create_proof_context_set_nonce_bytes(&mut m, h, &b"nonce".to_vec()).unwrap();
    assert_eq!(
        bbs_create_proof_context_finish(&mut m, h),
        Err(BbsFfiError::MessagesSignatureMismatch)
    );
}

#[test]
fn proof_creation_reports_missing_fields_in_order() {
    let mut m: HandleMap<CreateProofContext> = HandleMap::new();
    let h = bbs_create_proof_context_init(&mut m);
    assert_eq!(
        bbs_create_proof_context_finish(&mut m, h),
        Err(BbsFfiError::SignatureNotSet)
    );
    assert_eq!(
        bbs_create_proof_context_size(&m, 424242),
        Err(BbsFfiError::HandleNotFound)
    );
    free_create_proof(&mut m, h).unwrap();
    assert_eq!(
        bbs_create_proof_context_finish(&mut m, h),
        Err(BbsFfiError::HandleNotFound)
    );
}

#[test]
fn verify_proof_finish_retires_the_handle() {
    let mut m: HandleMap<VerifyProofContext> = HandleMap::new();
    let h = bbs_verify_proof_context_init(&mut m);
    assert_eq!(
        bbs_verify_proof_context_finish(&mut m, h),
        Err(BbsFfiError::ProofNotSet)
    );
    assert_eq!(
        bbs_verify_proof_context_add_message_bytes(&mut m, h, 0, &b"late".to_vec()),
        Err(BbsFfiError::HandleNotFound)
    );
}

#[test]
fn malformed_proof_bytes_are_rejected_at_set_time() {
    let mut m: HandleMap<VerifyProofContext> = HandleMap::new();
    let h = bbs_verify_proof_context_init(&mut m);
    assert_eq!(
        bbs_verify_proof_context_set_proof(&mut m, h, &vec![0u8]),
        Err(BbsFfiError::BadProofBytes)
    );
    assert_eq!(
        bbs_verify_proof_context_set_proof(&mut m, h, &vec![0u8, 3, 1]),
        Err(BbsFfiError::BadProofBytes)
    );
    let mut junk = vec![0u8, 3, 1];
    junk.extend(vec![0xAAu8; 200]);
    assert_eq!(
        bbs_verify_proof_context_set_proof(&mut m, h, &junk),
        Err(BbsFfiError::BadProofBytes)
    );
}

#[test]
fn proof_verification_is_deterministic() {
    let (pk, sk) = keypair(b"proof determinism seed 123456789", 2);
    let messages = vec![b"shown".to_vec(), b"hidden".to_vec()];
    let sig = sign(&messages, &sk, &pk);
    let nonce = b"nonce".to_vec();
    let (proof, _) = make_proof(&messages, &sig, &pk, &nonce);
    let first = verify_proof(&[(0, messages[0].clone())], &proof, &pk, &nonce);
    let second = verify_proof(&[(0, messages[0].clone())], &proof, &pk, &nonce);
    assert_eq!(first, second);
}
