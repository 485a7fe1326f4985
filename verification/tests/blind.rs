use bbs_ffi::bbs_blind_commitment::{
    bbs_blind_commitment_context_add_message_bytes, bbs_blind_commitment_context_finish,
    bbs_blind_commitment_context_init, bbs_blind_commitment_context_set_nonce_bytes,
    bbs_blind_commitment_context_set_public_key, bbs_blind_signature_size, BlindCommitmentContext,
};
use bbs_ffi::bbs_blind_sign::{
    bbs_blind_sign_context_add_message_bytes, bbs_blind_sign_context_finish,
    bbs_blind_sign_context_init, bbs_blind_sign_context_set_commitment,
    bbs_blind_sign_context_set_public_key, bbs_blind_sign_context_set_secret_key,
    bbs_blinding_factor_size, bbs_unblind_signature, BlindSignContext,
};
use bbs_ffi::bbs_sign::{
    bbs_verify_context_add_message_bytes, bbs_verify_context_finish, bbs_verify_context_init,
    bbs_verify_context_set_public_key, bbs_verify_context_set_signature, SignContext,
};
use bbs_ffi::bbs_verify_sign_proof::{
    bbs_verify_blind_commitment_context_add_blinded, bbs_verify_blind_commitment_context_finish,
    bbs_verify_blind_commitment_context_init, bbs_verify_blind_commitment_context_set_nonce_bytes,
    bbs_verify_blind_commitment_context_set_proof,
    bbs_verify_blind_commitment_context_set_public_key, VerifyBlindSignProofContext,
};
use bbs_ffi::bls::{bls_generate_g2_key, bls_secret_key_to_bbs_key};
use bbs_ffi::errors::BbsFfiError;
use bbs_ffi::handles::HandleMap;

fn keypair(seed: &[u8], message_count: u32) -> (Vec<u8>, Vec<u8>) {
    let (_, sk) = bls_generate_g2_key(Some(seed.to_vec()));
    let pk = bls_secret_key_to_bbs_key(&sk, message_count).unwrap();
    (pk, sk)
}

#[test]
fn blind_sign_round_trip_verifies_the_full_vector() {
    // the holder hides positions 1 and 2; the issuer contributes position 0
    let (pk, sk) = keypair(b"blind round trip seed 1234567890", 3);
    let nonce = b"issuer nonce".to_vec();
    let hidden1 = b"hidden one".to_vec();
    let hidden2 = b"hidden two".to_vec();
    let known0 = b"issuer known".to_vec();

    let mut cm: HandleMap<BlindCommitmentContext> = HandleMap::new();
    let ch = bbs_blind_commitment_context_init(&mut cm);
    bbs_blind_commitment_context_add_message_bytes(&mut cm, ch, 1, &hidden1).unwrap();
    bbs_blind_commitment_context_add_message_bytes(&mut cm, ch, 2, &hidden2).unwrap();
    bbs_blind_commitment_context_set_public_key(&mut cm, ch, &pk).unwrap();
    bbs_blind_commitment_context_set_nonce_bytes(&mut cm, ch, &nonce).unwrap();
    let outcome = bbs_blind_commitment_context_finish(&mut cm, ch).unwrap();
    assert_eq!(outcome.blinding_factor.len(), 32);
    assert_eq!(outcome.commitment.len(), 48);
    assert_eq!(&outcome.out_context[..48], &outcome.commitment[..]);

    // the issuer first checks the proof of hidden messages
    let mut vm: HandleMap<VerifyBlindSignProofContext> = HandleMap::new();
    let vh = bbs_verify_blind_commitment_context_init(&mut vm);
    bbs_verify_blind_commitment_context_add_blinded(&mut vm, vh, 1).unwrap();
    bbs_verify_blind_commitment_context_add_blinded(&mut vm, vh, 2).unwrap();
    bbs_verify_blind_commitment_context_set_nonce_bytes(&mut vm, vh, &nonce).unwrap();
    bbs_verify_blind_commitment_context_set_proof(&mut vm, vh, &outcome.out_context).unwrap();
    bbs_verify_blind_commitment_context_set_public_key(&mut vm, vh, &pk).unwrap();
    assert_eq!(bbs_verify_blind_commitment_context_finish(&mut vm, vh), Ok(()));

    // the issuer signs the commitment plus the known message
    let mut sm: HandleMap<BlindSignContext> = HandleMap::new();
    let sh = bbs_blind_sign_context_init(&mut sm);
    bbs_blind_sign_context_add_message_bytes(&mut sm, sh, 0, &known0).unwrap();
    bbs_blind_sign_context_set_commitment(&mut sm, sh, &outcome.commitment).unwrap();
    bbs_blind_sign_context_set_secret_key(&mut sm, sh, &sk).unwrap();
    bbs_blind_sign_context_set_public_key(&mut sm, sh, &pk).unwrap();
    let blind_sig = bbs_blind_sign_context_finish(&mut sm, sh).unwrap();
    assert_eq!(blind_sig.len(), 112);
    assert_eq!(bbs_blind_signature_size(), 112);
    assert_eq!(bbs_blinding_factor_size(), 32);

    // the holder unblinds and verifies over the full vector
    let sig = bbs_unblind_signature(&blind_sig, &outcome.blinding_factor).unwrap();
    assert_eq!(sig.len(), 112);
    let mut fm: HandleMap<SignContext> = HandleMap::new();
    let fh = bbs_verify_context_init(&mut fm);
    bbs_verify_context_add_message_bytes(&mut fm, fh, &known0).unwrap();
    bbs_verify_context_add_message_bytes(&mut fm, fh, &hidden1).unwrap();
    bbs_verify_context_add_message_bytes(&mut fm, fh, &hidden2).unwrap();
    bbs_verify_context_set_public_key(&mut fm, fh, &pk).unwrap();
    bbs_verify_context_set_signature(&mut fm, fh, &sig).unwrap();
    assert!(bbs_verify_context_finish(&mut fm, fh).unwrap());

    // a wrong blinding factor does not unblind into a valid signature
    let wrong_bf = {
        let mut b = outcome.blinding_factor.clone();
        b[31] ^= 1;
        b
    };
    if let Ok(bad_sig) = bbs_unblind_signature(&blind_sig, &wrong_bf) {
        let mut bm: HandleMap<SignContext> = HandleMap::new();
        let bh = bbs_verify_context_init(&mut bm);
        bbs_verify_context_add_message_bytes(&mut bm, bh, &known0).unwrap();
        bbs_verify_context_add_message_bytes(&mut bm, bh, &hidden1).unwrap();
        bbs_verify_context_add_message_bytes(&mut bm, bh, &hidden2).unwrap();
        bbs_verify_context_set_public_key(&mut bm, bh, &pk).unwrap();
        bbs_verify_context_set_signature(&mut bm, bh, &bad_sig).unwrap();
        assert!(!bbs_verify_context_finish(&mut bm, bh).unwrap());
    }
}

#[test]
fn commitment_finish_reports_missing_fields_in_order() {
    let (pk, _) = keypair(b"commitment order seed 1234567890", 2);
    let mut cm: HandleMap<BlindCommitmentContext> = HandleMap::new();
    let ch = bbs_blind_commitment_context_init(&mut cm);
    assert!(matches!(
        bbs_blind_commitment_context_finish(&mut cm, ch),
        Err(BbsFfiError::NonceNotSet)
    ));
    bbs_blind_commitment_context_set_nonce_bytes(&mut cm, ch, &b"nonce".to_vec()).unwrap();
    assert!(matches!(
        bbs_blind_commitment_context_finish(&mut cm, ch),
        Err(BbsFfiError::PublicKeyNotSet)
    ));
    bbs_blind_commitment_context_set_public_key(&mut cm, ch, &pk).unwrap();
    assert!(matches!(
        bbs_blind_commitment_context_finish(&mut cm, ch),
        Err(BbsFfiError::NoMessages)
    ));
}

#[test]
fn out_of_range_hidden_index_is_rejected_not_signed() {
    let (pk, _) = keypair(b"range check seed 1234567890abcde", 2);
    let mut cm: HandleMap<BlindCommitmentContext> = HandleMap::new();
    let ch = bbs_blind_commitment_context_init(&mut cm);
    bbs_blind_commitment_context_add_message_bytes(&mut cm, ch, 5, &b"beyond".to_vec()).unwrap();
    bbs_blind_commitment_context_set_public_key(&mut cm, ch, &pk).unwrap();
    bbs_blind_commitment_context_set_nonce_bytes(&mut cm, ch, &b"nonce".to_vec()).unwrap();
    assert!(matches!(
        bbs_blind_commitment_context_finish(&mut cm, ch),
        Err(BbsFfiError::InvalidMessageIndex)
    ));
}

#[test]
fn adding_the_same_index_twice_overwrites() {
    // the issuer corrects position 0 before finishing; the final signature
    // verifies against the corrected value, not the first one
    let (pk, sk) = keypair(b"overwrite seed 1234567890abcdefg", 2);
    let nonce = b"nonce".to_vec();
    let hidden = b"hidden".to_vec();

    let mut cm: HandleMap<BlindCommitmentContext> = HandleMap::new();
    let ch = bbs_blind_commitment_context_init(&mut cm);
    bbs_blind_commitment_context_add_message_bytes(&mut cm, ch, 1, &hidden).unwrap();
    bbs_blind_commitment_context_set_public_key(&mut cm, ch, &pk).unwrap();
    bbs_blind_commitment_context_set_nonce_bytes(&mut cm, ch, &nonce).unwrap();
    let outcome = bbs_blind_commitment_context_finish(&mut cm, ch).unwrap();

    let mut sm: HandleMap<BlindSignContext> = HandleMap::new();
    let sh = bbs_blind_sign_context_init(&mut sm);
    bbs_blind_sign_context_add_message_bytes(&mut sm, sh, 0, &b"wrong".to_vec()).unwrap();
    bbs_blind_sign_context_add_message_bytes(&mut sm, sh, 0, &b"right".to_vec()).unwrap();
    bbs_blind_sign_context_set_commitment(&mut sm, sh, &outcome.commitment).unwrap();
    bbs_blind_sign_context_set_secret_key(&mut sm, sh, &sk).unwrap();
    bbs_blind_sign_context_set_public_key(&mut sm, sh, &pk).unwrap();
    let blind_sig = bbs_blind_sign_context_finish(&mut sm, sh).unwrap();
    let sig = bbs_unblind_signature(&blind_sig, &outcome.blinding_factor).unwrap();

    let verify = |value: &Vec<u8>| -> bool {
        let mut fm: HandleMap<SignContext> = HandleMap::new();
        let fh = bbs_verify_context_init(&mut fm);
        bbs_verify_context_add_message_bytes(&mut fm, fh, value).unwrap();
        bbs_verify_context_add_message_bytes(&mut fm, fh, &hidden).unwrap();
        bbs_verify_context_set_public_key(&mut fm, fh, &pk).unwrap();
        bbs_verify_context_set_signature(&mut fm, fh, &sig).unwrap();
        bbs_verify_context_finish(&mut fm, fh).unwrap()
    };
    assert!(verify(&b"right".to_vec()));
    assert!(!verify(&b"wrong".to_vec()));
}

#[test]
fn blind_commitment_proof_rejects_a_different_nonce() {
    let (pk, _) = keypair(b"nonce mismatch seed 123456789012", 2);
    let mut cm: HandleMap<BlindCommitmentContext> = HandleMap::new();
    let ch = bbs_blind_commitment_context_init(&mut cm);
    bbs_blind_commitment_context_add_message_bytes(&mut cm, ch, 1, &b"hidden".to_vec()).unwrap();
    bbs_blind_commitment_context_set_public_key(&mut cm, ch, &pk).unwrap();
    bbs_blind_commitment_context_set_nonce_bytes(&mut cm, ch, &b"nonce A".to_vec()).unwrap();
    let outcome = bbs_blind_commitment_context_finish(&mut cm, ch).unwrap();

    let mut vm: HandleMap<VerifyBlindSignProofContext> = HandleMap::new();
    let vh = bbs_verify_blind_commitment_context_init(&mut vm);
    bbs_verify_blind_commitment_context_add_blinded(&mut vm, vh, 1).unwrap();
    bbs_verify_blind_commitment_context_set_nonce_bytes(&mut vm, vh, &b"nonce B".to_vec()).unwrap();
    bbs_verify_blind_commitment_context_set_proof(&mut vm, vh, &outcome.out_context).unwrap();
    bbs_verify_blind_commitment_context_set_public_key(&mut vm, vh, &pk).unwrap();
    assert_eq!(
        bbs_verify_blind_commitment_context_finish(&mut vm, vh),
        Err(BbsFfiError::BadHiddenMessagesProof)
    );
}

#[test]
fn blind_commitment_verification_retires_the_handle() {
    let mut vm: HandleMap<VerifyBlindSignProofContext> = HandleMap::new();
    let vh = bbs_verify_blind_commitment_context_init(&mut vm);
    assert_eq!(
        bbs_verify_blind_commitment_context_finish(&mut vm, vh),
        Err(BbsFfiError::NoBlindedIndices)
    );
    assert_eq!(
        bbs_verify_blind_commitment_context_add_blinded(&mut vm, vh, 0),
        Err(BbsFfiError::HandleNotFound)
    );
}

#[test]
fn unblind_rejects_malformed_inputs() {
    assert_eq!(
        bbs_unblind_signature(&vec![1u8, 2, 3], &vec![0u8; 32]),
        Err(BbsFfiError::BadBlindSignatureBytes)
    );
    let (pk, sk) = keypair(b"unblind reject seed 123456789012", 1);
    let mut sm: HandleMap<BlindSignContext> = HandleMap::new();
    let sh = bbs_blind_sign_context_init(&mut sm);
    bbs_blind_sign_context_add_message_bytes(&mut sm, sh, 0, &b"m".to_vec()).unwrap();
    // a commitment is required before the keys are checked
    assert_eq!(
        bbs_blind_sign_context_finish(&mut sm, sh),
        Err(BbsFfiError::CommitmentNotSet)
    );
    let _ = (pk, sk);
}
