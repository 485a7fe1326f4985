use bbs_ffi::codec::{
    be_u16_to_bytes, bitvector_length, bitvector_to_revealed, concat_bytes, copy_bytes_range,
    read_be_u16, read_be_u32, revealed_to_bitvector,
};
use bbs_ffi::errors::{update_last_error, BbsFfiError, LastErrorSlot, SignatureProofStatus};

#[test]
fn big_endian_reads_and_writes_agree() {
    let bytes = vec![0x01u8, 0x02, 0x03, 0x04, 0x05, 0x06];
    assert_eq!(read_be_u16(&bytes, 0), 0x0102);
    assert_eq!(read_be_u16(&bytes, 3), 0x0405);
    assert_eq!(read_be_u32(&bytes, 1), 0x02030405);
    assert_eq!(be_u16_to_bytes(0x0102), vec![0x01u8, 0x02]);
    assert_eq!(be_u16_to_bytes(3), vec![0x00u8, 0x03]);
}

#[test]
fn byte_helpers_copy_and_concatenate() {
    let bytes = vec![1u8, 2, 3, 4, 5];
    assert_eq!(copy_bytes_range(&bytes, 1, 4), vec![2u8, 3, 4]);
    assert_eq!(copy_bytes_range(&bytes, 2, 2), Vec::<u8>::new());
    assert_eq!(concat_bytes(&vec![1u8, 2], &vec![3u8]), vec![1u8, 2, 3]);
}

#[test]
fn bitvector_marks_revealed_positions_big_endian() {
    // three messages fit one byte; position 0 is the lowest bit
    assert_eq!(bitvector_length(3), 1);
    assert_eq!(revealed_to_bitvector(3, &vec![0usize]), vec![0x01u8]);
    assert_eq!(revealed_to_bitvector(3, &vec![0usize, 2]), vec![0x05u8]);
    // ten messages need two bytes, most significant first
    assert_eq!(bitvector_length(10), 2);
    assert_eq!(revealed_to_bitvector(10, &vec![0usize, 8]), vec![0x01u8, 0x01]);
    assert_eq!(revealed_to_bitvector(10, &vec![9usize]), vec![0x02u8, 0x00]);
}

#[test]
fn bitvector_decoding_inverts_encoding() {
    let cases: Vec<(usize, Vec<usize>)> = vec![
        (3, vec![]),
        (3, vec![0]),
        (3, vec![1, 2]),
        (10, vec![0, 8, 9]),
        (16, vec![3, 7, 15]),
        (17, vec![16]),
    ];
    for (total, revealed) in cases {
        let bv = revealed_to_bitvector(total, &revealed);
        assert_eq!(bv.len(), total / 8 + 1);
        assert_eq!(bitvector_to_revealed(&bv), revealed, "total {}", total);
    }
}

#[test]
fn decoded_positions_ascend() {
    let decoded = bitvector_to_revealed(&vec![0xFFu8]);
    assert_eq!(decoded, vec![0usize, 1, 2, 3, 4, 5, 6, 7]);
    let decoded = bitvector_to_revealed(&vec![0x80u8, 0x01]);
    assert_eq!(decoded, vec![0usize, 15]);
}

#[test]
fn error_messages_name_the_failure() {
    assert_eq!(BbsFfiError::SecretKeyNotSet.message(), "Secret Key must be set");
    assert_eq!(BbsFfiError::NonceNotSet.message(), "Nonce must be set");
    assert_eq!(BbsFfiError::NoMessages.message(), "Messages cannot be empty");
    assert_eq!(BbsFfiError::IndicesMismatch.message(), "Indices are not equal");
    assert_eq!(
        BbsFfiError::BadHiddenMessagesProof.message(),
        "Bad hidden message in proof"
    );
    assert_eq!(BbsFfiError::HandleNotFound.message(), "Handle not found");
    assert_eq!(BbsFfiError::EmptyMessage.message(), "Message cannot be empty");
    assert_eq!(
        BbsFfiError::EmptyBlindingFactor.message(),
        "Blinding Factor cannot be empty"
    );
    assert_eq!(BbsFfiError::EmptyPublicKey.message(), "PublicKey cannot be empty");
}

#[test]
fn statuses_distinguish_success_from_failure() {
    assert!(SignatureProofStatus::Success.is_valid());
    assert!(!SignatureProofStatus::BadSignature.is_valid());
    assert!(!SignatureProofStatus::BadHiddenMessage.is_valid());
    assert!(!SignatureProofStatus::BadRevealedMessage.is_valid());
}

#[test]
fn last_error_slot_keeps_the_most_recent_text() {
    let mut slot = LastErrorSlot::new();
    assert!(slot.message.is_none());
    update_last_error(&mut slot, String::from("first failure"));
    assert_eq!(slot.message.as_deref(), Some("first failure"));
    update_last_error(&mut slot, String::from(BbsFfiError::NoMessages.message()));
    assert_eq!(slot.message.as_deref(), Some("Messages cannot be empty"));
}
