//! The verifier's side of the selective-disclosure protocol: accumulate the
//! revealed messages under their positions, set the serialized proof, the
//! public key and the nonce, and finish by recomputing the Fiat-Shamir
//! challenge and checking the proof. A revealed-index set that differs from
//! the proof's bitvector is a hard failure before any cryptography runs.

use vstd::prelude::*;
use crate::errors::{BbsFfiError, SignatureProofStatus};
use vstd::string::StringSliceAdditionalSpecFns;
use crate::handles::{HandleMap, entry_updated};
use crate::codec::{bit_set, be_u16_value, be_u32_value, seq_has};
use crate::index_map::{IndexedMessages, lemma_sorted_unique_membership_eq, index_vecs_equal};
use crate::bbs_blind_commitment::check_indexes;
use crate::bbs_create_proof::{ProofMessageEntry, proof_output_ok, proof_bitvector_ok};
use crate::bbs_api::{
    hashed_message, message_hash, message_from_bytes, message_parse, pk_from_bytes, pk_parse,
    hashed_nonce, nonce_hash, nonce_from_bytes, nonce_parse, message_count_of, pk_message_count,
    pk_valid, pk_validate, pok_proof_from_bytes, pok_proof_parse, pok_proof_bytes,
    pok_proof_to_bytes, challenge_input_bytes, proof_challenge_input, hashed_challenge,
    challenge_hash, nonce_bytes, nonce_to_bytes, proof_status, proof_verify,
};

verus! {

/// A parsed proof together with the count-and-bitvector frame it arrived
/// under, kept verbatim for challenge recomputation.
pub struct PoKOfSignatureProofWrapper {
    /// The two-byte message count followed by the revealed-index bitvector.
    pub bit_vector: Vec<u8>,
    /// The deserialized proof body.
    pub proof: bbs::pok_sig::PoKOfSignatureProof,
}

/// The message count a serialized proof declares in its first two bytes.
pub open spec fn declared_total(b: Seq<u8>) -> int {
    be_u16_value(b.subrange(0, 2))
}

/// Where the proof body starts: after the count and the bitvector.
pub open spec fn proof_body_offset(b: Seq<u8>) -> int {
    2 + declared_total(b) / 8 + 1
}

/// The frame is sound: the input covers the count, the bitvector and a proof
/// body whose own length header lies within it.
pub open spec fn proof_frame_ok(b: Seq<u8>) -> bool {
    let offset = proof_body_offset(b);
    &&& b.len() >= 2
    &&& b.len() >= offset
    &&& b.len() - offset >= 148
    &&& be_u32_value(b.subrange(offset + 144, offset + 148)) <= b.len() - offset - 148
}

/// The wrapper's frame holds a count header and a bitvector of the length
/// the count demands.
pub open spec fn wrapper_wf(w: PoKOfSignatureProofWrapper) -> bool {
    &&& w.bit_vector@.len() >= 2
    &&& w.bit_vector@.len() <= 2 + 8192
}

/// Parses serialized proof bytes into the frame and the proof body.
pub fn parse_proof_wrapper(b: &Vec<u8>) -> (r: Result<PoKOfSignatureProofWrapper, BbsFfiError>)
    ensures
        !proof_frame_ok(b@) ==> r == Err::<PoKOfSignatureProofWrapper, BbsFfiError>(
            BbsFfiError::BadProofBytes,
        ),
        proof_frame_ok(b@) ==> (match pok_proof_from_bytes(
            b@.subrange(proof_body_offset(b@), b@.len() as int),
        ) {
            Some(p) => r matches Ok(w) && w.bit_vector@ == b@.subrange(0, proof_body_offset(b@))
                && w.proof == p && wrapper_wf(w),
            None => r == Err::<PoKOfSignatureProofWrapper, BbsFfiError>(BbsFfiError::BadProofBytes),
        }),
{
    if b.len() < 2 {
        return Err(BbsFfiError::BadProofBytes);
    }
    let total = crate::codec::read_be_u16(b, 0) as usize;
    let offset: usize = 2 + total / 8 + 1;
    proof {
        assert(offset == proof_body_offset(b@));
    }
    if b.len() < offset {
        return Err(BbsFfiError::BadProofBytes);
    }
    let body = crate::codec::copy_bytes_range(b, offset, b.len());
    if body.len() < 148 {
        return Err(BbsFfiError::BadProofBytes);
    }
    let p1_len = crate::codec::read_be_u32(&body, 144) as usize;
    if body.len() - 148 < p1_len {
        proof {
            assert(body@.subrange(144, 148) =~= b@.subrange(offset + 144, offset + 148));
        }
        return Err(BbsFfiError::BadProofBytes);
    }
    proof {
        assert(body@.subrange(144, 148) =~= b@.subrange(offset + 144, offset + 148));
        assert(proof_frame_ok(b@));
    }
    match pok_proof_parse(&body) {
        Some(p) => {
            let bit_vector = crate::codec::copy_bytes_range(b, 0, offset);
            Ok(PoKOfSignatureProofWrapper { bit_vector, proof: p })
        },
        None => Err(BbsFfiError::BadProofBytes),
    }
}

impl PoKOfSignatureProofWrapper {
    /// The frame followed by the serialized proof body.
    pub fn to_bytes(&self) -> (r: Vec<u8>)
        ensures
            r@ == self.bit_vector@ + pok_proof_bytes(self.proof),
    {
        let body = pok_proof_to_bytes(&self.proof);
        crate::codec::concat_bytes(&self.bit_vector, &body)
    }

    /// The ascending positions the frame's bitvector marks as revealed.
    pub fn unpack(&self) -> (r: Vec<usize>)
        requires
            wrapper_wf(*self),
        ensures
            forall|a: int, b: int| 0 <= a < b < r@.len() ==> r@[a] < r@[b],
            forall|p: usize| seq_has(r@, p) <==> revealed_bit(self.bit_vector@, p),
    {
        let bv = crate::codec::copy_bytes_range(&self.bit_vector, 2, self.bit_vector.len());
        let r = crate::codec::bitvector_to_revealed(&bv);
        proof {
            let bits = self.bit_vector@.subrange(2, self.bit_vector@.len() as int);
            assert(bv@ == bits);
        }
        r
    }
}

/// Whether the frame's bitvector marks position `p` as revealed.
pub open spec fn revealed_bit(bit_vector: Seq<u8>, p: usize) -> bool {
    let bits = bit_vector.subrange(2, bit_vector.len() as int);
    &&& p < 8 * bits.len()
    &&& bit_set(bits[bits.len() - 1 - p / 8], (p % 8) as u8)
}

/// One in-flight proof-verification operation.
pub struct VerifyProofContext {
    /// The revealed messages, keyed by their position in the full vector.
    pub messages: IndexedMessages,
    /// The verifier's freshness nonce, once set.
    pub nonce: Option<bbs::ProofNonce>,
    /// The parsed proof and its frame, once set.
    pub proof: Option<PoKOfSignatureProofWrapper>,
    /// The public key, once set.
    pub public_key: Option<bbs::keys::PublicKey>,
}

/// Every context in the table keeps its messages ordered and its proof frame
/// sound.
pub open spec fn verify_proof_ctxs_wf(mm: Map<u64, VerifyProofContext>) -> bool {
    forall|h: u64|
        mm.contains_key(h) ==> (#[trigger] mm[h]).messages.wf() && (mm[h].proof matches Some(w)
            ==> wrapper_wf(w))
}

proof fn lemma_table_wf(
    prev: Map<u64, VerifyProofContext>,
    cur: Map<u64, VerifyProofContext>,
    handle: u64,
)
    requires
        verify_proof_ctxs_wf(prev),
        entry_updated(prev, cur, handle),
        cur[handle].messages.wf(),
        cur[handle].proof matches Some(w) ==> wrapper_wf(w),
    ensures
        verify_proof_ctxs_wf(cur),
{
    assert forall|h: u64| cur.contains_key(h) implies (#[trigger] cur[h]).messages.wf() && (
    cur[h].proof matches Some(w) ==> wrapper_wf(w)) by {
        if h != handle {
            assert(prev.contains_key(h) && prev[h] == cur[h]);
        }
    }
}

proof fn lemma_remove_wf(
    prev: Map<u64, VerifyProofContext>,
    cur: Map<u64, VerifyProofContext>,
    handle: u64,
)
    requires
        verify_proof_ctxs_wf(prev),
        cur == prev.remove(handle),
    ensures
        verify_proof_ctxs_wf(cur),
{
    assert forall|h: u64| cur.contains_key(h) implies (#[trigger] cur[h]).messages.wf() && (
    cur[h].proof matches Some(w) ==> wrapper_wf(w)) by {
        assert(prev.contains_key(h) && prev[h] == cur[h]);
    }
}

/// Opens a fresh proof-verification context and returns its handle.
pub fn bbs_verify_proof_context_init(m: &mut HandleMap<VerifyProofContext>) -> (handle: u64)
    requires
        old(m).wf(),
        old(m).can_insert(),
        verify_proof_ctxs_wf(old(m)@),
    ensures
        final(m).wf(),
        verify_proof_ctxs_wf(final(m)@),
        !old(m)@.contains_key(handle),
        entry_updated(old(m)@, final(m)@, handle),
        final(m)@[handle].messages@.len() == 0,
        final(m)@[handle].nonce is None,
        final(m)@[handle].proof is None,
        final(m)@[handle].public_key is None,
{
    let handle = m.insert(
        VerifyProofContext {
            messages: IndexedMessages::new(),
            nonce: None,
            proof: None,
            public_key: None,
        },
    );
    proof {
        lemma_table_wf(old(m)@, m@, handle);
    }
    handle
}

/// The second context equals the first with `msg` stored at `index` and
/// every other index untouched.
pub open spec fn message_stored(
    prev: VerifyProofContext,
    cur: VerifyProofContext,
    index: usize,
    msg: bbs::SignatureMessage,
) -> bool {
    &&& cur.messages.has_index(index)
    &&& cur.messages.message_at(index) == msg
    &&& forall|i: usize|
        i != index ==> (#[trigger] cur.messages.has_index(i)) == prev.messages.has_index(i)
    &&& forall|i: usize|
        i != index && prev.messages.has_index(i) ==> #[trigger] cur.messages.message_at(i)
            == prev.messages.message_at(i)
    &&& cur.nonce == prev.nonce
    &&& cur.proof == prev.proof
    &&& cur.public_key == prev.public_key
}

/// Stores the hash of a byte string as the revealed message at `index`;
/// writing the same index again overwrites the earlier message.
pub fn bbs_verify_proof_context_add_message_bytes(
    m: &mut HandleMap<VerifyProofContext>,
    handle: u64,
    index: u32,
    message: &Vec<u8>,
) -> (r: Result<(), BbsFfiError>)
    requires
        old(m).wf(),
        verify_proof_ctxs_wf(old(m)@),
    ensures
        final(m).wf(),
        verify_proof_ctxs_wf(final(m)@),
        message@.len() == 0 ==> r == Err::<(), BbsFfiError>(BbsFfiError::EmptyMessage) && final(m)@
            == old(m)@,
        message@.len() > 0 && !old(m)@.contains_key(handle) ==> r == Err::<(), BbsFfiError>(
            BbsFfiError::HandleNotFound,
        ) && final(m)@ == old(m)@,
        message@.len() > 0 && old(m)@.contains_key(handle) ==> ({
            &&& r == Ok::<(), BbsFfiError>(())
            &&& entry_updated(old(m)@, final(m)@, handle)
            &&& message_stored(
                old(m)@[handle],
                final(m)@[handle],
                index as usize,
                hashed_message(message@),
            )
        }),
{
    if message.len() == 0 {
        return Err(BbsFfiError::EmptyMessage);
    }
    let mut ctx = match m.take(handle) {
        Some(c) => c,
        None => {
            return Err(BbsFfiError::HandleNotFound);
        },
    };
    let msg = message_hash(message);
    ctx.messages.set(index as usize, msg);
    m.put(handle, ctx);
    proof {
        assert(m@ =~= old(m)@.insert(handle, m@[handle]));
        lemma_table_wf(old(m)@, m@, handle);
    }
    Ok(())
}

/// Stores the hash of a string's bytes as the revealed message at `index`.
pub fn bbs_verify_proof_context_add_message_string(
    m: &mut HandleMap<VerifyProofContext>,
    handle: u64,
    index: u32,
    message: &str,
) -> (r: Result<(), BbsFfiError>)
    requires
        old(m).wf(),
        verify_proof_ctxs_wf(old(m)@),
    ensures
        final(m).wf(),
        verify_proof_ctxs_wf(final(m)@),
        message.spec_bytes().len() == 0 ==> r == Err::<(), BbsFfiError>(BbsFfiError::EmptyMessage)
            && final(m)@ == old(m)@,
        message.spec_bytes().len() > 0 && !old(m)@.contains_key(handle) ==> r == Err::<
            (),
            BbsFfiError,
        >(BbsFfiError::HandleNotFound) && final(m)@ == old(m)@,
        message.spec_bytes().len() > 0 && old(m)@.contains_key(handle) ==> ({
            &&& r == Ok::<(), BbsFfiError>(())
            &&& entry_updated(old(m)@, final(m)@, handle)
            &&& message_stored(
                old(m)@[handle],
                final(m)@[handle],
                index as usize,
                hashed_message(message.spec_bytes()),
            )
        }),
{
    let bytes = vstd::slice::slice_to_vec(message.as_bytes());
    bbs_verify_proof_context_add_message_bytes(m, handle, index, &bytes)
}

/// Stores a prehashed message, given as a serialized field scalar, at
/// `index`.
pub fn bbs_verify_proof_context_add_message_prehashed(
    m: &mut HandleMap<VerifyProofContext>,
    handle: u64,
    index: u32,
    message: &Vec<u8>,
) -> (r: Result<(), BbsFfiError>)
    requires
        old(m).wf(),
        verify_proof_ctxs_wf(old(m)@),
    ensures
        final(m).wf(),
        verify_proof_ctxs_wf(final(m)@),
        message@.len() == 0 ==> r == Err::<(), BbsFfiError>(BbsFfiError::EmptyMessage) && final(m)@
            == old(m)@,
        message@.len() > 0 && !old(m)@.contains_key(handle) ==> r == Err::<(), BbsFfiError>(
            BbsFfiError::HandleNotFound,
        ) && final(m)@ == old(m)@,
        message@.len() > 0 && old(m)@.contains_key(handle) ==> (
        match message_from_bytes(message@) {
            Some(msg) => {
                &&& r == Ok::<(), BbsFfiError>(())
                &&& entry_updated(old(m)@, final(m)@, handle)
                &&& message_stored(old(m)@[handle], final(m)@[handle], index as usize, msg)
            },
            None => r == Err::<(), BbsFfiError>(BbsFfiError::BadMessageBytes) && final(m)@ == old(
                m,
            )@,
        }),
{
    if message.len() == 0 {
        return Err(BbsFfiError::EmptyMessage);
    }
    let mut ctx = match m.take(handle) {
        Some(c) => c,
        None => {
            return Err(BbsFfiError::HandleNotFound);
        },
    };
    match message_parse(message) {
        Some(msg) => {
            ctx.messages.set(index as usize, msg);
            m.put(handle, ctx);
            proof {
                assert(m@ =~= old(m)@.insert(handle, m@[handle]));
                lemma_table_wf(old(m)@, m@, handle);
            }
            Ok(())
        },
        None => {
            m.put(handle, ctx);
            proof {
                assert(m@ =~= old(m)@);
            }
            Err(BbsFfiError::BadMessageBytes)
        },
    }
}

/// Sets the proof from its serialized bytes, parsing the frame and the body.
pub fn bbs_verify_proof_context_set_proof(
    m: &mut HandleMap<VerifyProofContext>,
    handle: u64,
    value: &Vec<u8>,
) -> (r: Result<(), BbsFfiError>)
    requires
        old(m).wf(),
        verify_proof_ctxs_wf(old(m)@),
    ensures
        final(m).wf(),
        verify_proof_ctxs_wf(final(m)@),
        value@.len() == 0 ==> r == Err::<(), BbsFfiError>(BbsFfiError::EmptyProof) && final(m)@
            == old(m)@,
        value@.len() > 0 && !old(m)@.contains_key(handle) ==> r == Err::<(), BbsFfiError>(
            BbsFfiError::HandleNotFound,
        ) && final(m)@ == old(m)@,
        value@.len() > 0 && old(m)@.contains_key(handle) && !proof_frame_ok(value@) ==> r == Err::<
            (),
            BbsFfiError,
        >(BbsFfiError::BadProofBytes) && final(m)@ == old(m)@,
        value@.len() > 0 && old(m)@.contains_key(handle) && proof_frame_ok(value@) ==> (
        match pok_proof_from_bytes(value@.subrange(proof_body_offset(value@), value@.len() as int)) {
            Some(p) => {
                &&& r == Ok::<(), BbsFfiError>(())
                &&& entry_updated(old(m)@, final(m)@, handle)
                &&& final(m)@[handle].proof matches Some(w) && w.proof == p && w.bit_vector@
                    == value@.subrange(0, proof_body_offset(value@))
                &&& final(m)@[handle].messages == old(m)@[handle].messages
                &&& final(m)@[handle].nonce == old(m)@[handle].nonce
                &&& final(m)@[handle].public_key == old(m)@[handle].public_key
            },
            None => r == Err::<(), BbsFfiError>(BbsFfiError::BadProofBytes) && final(m)@ == old(
                m,
            )@,
        }),
{
    if value.len() == 0 {
        return Err(BbsFfiError::EmptyProof);
    }
    let mut ctx = match m.take(handle) {
        Some(c) => c,
        None => {
            return Err(BbsFfiError::HandleNotFound);
        },
    };
    match parse_proof_wrapper(value) {
        Ok(w) => {
            ctx.proof = Some(w);
            m.put(handle, ctx);
            proof {
                assert(m@ =~= old(m)@.insert(handle, m@[handle]));
                lemma_table_wf(old(m)@, m@, handle);
            }
            Ok(())
        },
        Err(e) => {
            m.put(handle, ctx);
            proof {
                assert(m@ =~= old(m)@);
            }
            Err(e)
        },
    }
}

/// Sets the public key from its serialized bytes.
pub fn bbs_verify_proof_context_set_public_key(
    m: &mut HandleMap<VerifyProofContext>,
    handle: u64,
    value: &Vec<u8>,
) -> (r: Result<(), BbsFfiError>)
    requires
        old(m).wf(),
        verify_proof_ctxs_wf(old(m)@),
    ensures
        final(m).wf(),
        verify_proof_ctxs_wf(final(m)@),
        value@.len() == 0 ==> r == Err::<(), BbsFfiError>(BbsFfiError::EmptyPublicKey) && final(m)@
            == old(m)@,
        value@.len() > 0 && !old(m)@.contains_key(handle) ==> r == Err::<(), BbsFfiError>(
            BbsFfiError::HandleNotFound,
        ) && final(m)@ == old(m)@,
        0 < value@.len() < 4 && old(m)@.contains_key(handle) ==> r == Err::<(), BbsFfiError>(
            BbsFfiError::BadPublicKeyBytes,
        ) && final(m)@ == old(m)@,
        value@.len() >= 4 && old(m)@.contains_key(handle) ==> (match pk_from_bytes(value@) {
            Some(pk) => {
                &&& r == Ok::<(), BbsFfiError>(())
                &&& entry_updated(old(m)@, final(m)@, handle)
                &&& final(m)@[handle].public_key == Some(pk)
                &&& final(m)@[handle].messages == old(m)@[handle].messages
                &&& final(m)@[handle].nonce == old(m)@[handle].nonce
                &&& final(m)@[handle].proof == old(m)@[handle].proof
            },
            None => r == Err::<(), BbsFfiError>(BbsFfiError::BadPublicKeyBytes) && final(m)@ == old(
                m,
            )@,
        }),
{
    if value.len() == 0 {
        return Err(BbsFfiError::EmptyPublicKey);
    }
    let mut ctx = match m.take(handle) {
        Some(c) => c,
        None => {
            return Err(BbsFfiError::HandleNotFound);
        },
    };
    if value.len() < 4 {
        m.put(handle, ctx);
        proof {
            assert(m@ =~= old(m)@);
        }
        return Err(BbsFfiError::BadPublicKeyBytes);
    }
    match pk_parse(value) {
        Some(pk) => {
            ctx.public_key = Some(pk);
            m.put(handle, ctx);
            proof {
                assert(m@ =~= old(m)@.insert(handle, m@[handle]));
                lemma_table_wf(old(m)@, m@, handle);
            }
            Ok(())
        },
        None => {
            m.put(handle, ctx);
            proof {
                assert(m@ =~= old(m)@);
            }
            Err(BbsFfiError::BadPublicKeyBytes)
        },
    }
}

/// Sets the verifier nonce to the hash of a byte string.
pub fn bbs_verify_proof_context_set_nonce_bytes(
    m: &mut HandleMap<VerifyProofContext>,
    handle: u64,
    value: &Vec<u8>,
) -> (r: Result<(), BbsFfiError>)
    requires
        old(m).wf(),
        verify_proof_ctxs_wf(old(m)@),
    ensures
        final(m).wf(),
        verify_proof_ctxs_wf(final(m)@),
        value@.len() == 0 ==> r == Err::<(), BbsFfiError>(BbsFfiError::EmptyNonce) && final(m)@
            == old(m)@,
        value@.len() > 0 && !old(m)@.contains_key(handle) ==> r == Err::<(), BbsFfiError>(
            BbsFfiError::HandleNotFound,
        ) && final(m)@ == old(m)@,
        value@.len() > 0 && old(m)@.contains_key(handle) ==> ({
            &&& r == Ok::<(), BbsFfiError>(())
            &&& entry_updated(old(m)@, final(m)@, handle)
            &&& final(m)@[handle].nonce == Some(hashed_nonce(value@))
            &&& final(m)@[handle].messages == old(m)@[handle].messages
            &&& final(m)@[handle].proof == old(m)@[handle].proof
            &&& final(m)@[handle].public_key == old(m)@[handle].public_key
        }),
{
    if value.len() == 0 {
        return Err(BbsFfiError::EmptyNonce);
    }
    let mut ctx = match m.take(handle) {
        Some(c) => c,
        None => {
            return Err(BbsFfiError::HandleNotFound);
        },
    };
    let nonce = nonce_hash(value);
    ctx.nonce = Some(nonce);
    m.put(handle, ctx);
    proof {
        assert(m@ =~= old(m)@.insert(handle, m@[handle]));
        lemma_table_wf(old(m)@, m@, handle);
    }
    Ok(())
}

/// Sets the verifier nonce to the hash of a string's bytes.
pub fn bbs_verify_proof_context_set_nonce_string(
    m: &mut HandleMap<VerifyProofContext>,
    handle: u64,
    value: &str,
) -> (r: Result<(), BbsFfiError>)
    requires
        old(m).wf(),
        verify_proof_ctxs_wf(old(m)@),
    ensures
        final(m).wf(),
        verify_proof_ctxs_wf(final(m)@),
        value.spec_bytes().len() == 0 ==> r == Err::<(), BbsFfiError>(BbsFfiError::EmptyNonce)
            && final(m)@ == old(m)@,
        value.spec_bytes().len() > 0 && !old(m)@.contains_key(handle) ==> r == Err::<
            (),
            BbsFfiError,
        >(BbsFfiError::HandleNotFound) && final(m)@ == old(m)@,
        value.spec_bytes().len() > 0 && old(m)@.contains_key(handle) ==> ({
            &&& r == Ok::<(), BbsFfiError>(())
            &&& entry_updated(old(m)@, final(m)@, handle)
            &&& final(m)@[handle].nonce == Some(hashed_nonce(value.spec_bytes()))
            &&& final(m)@[handle].messages == old(m)@[handle].messages
            &&& final(m)@[handle].proof == old(m)@[handle].proof
            &&& final(m)@[handle].public_key == old(m)@[handle].public_key
        }),
{
    let bytes = vstd::slice::slice_to_vec(value.as_bytes());
    bbs_verify_proof_context_set_nonce_bytes(m, handle, &bytes)
}

/// Sets the verifier nonce from a serialized field scalar.
pub fn bbs_verify_proof_context_set_nonce_prehashed(
    m: &mut HandleMap<VerifyProofContext>,
    handle: u64,
    value: &Vec<u8>,
) -> (r: Result<(), BbsFfiError>)
    requires
        old(m).wf(),
        verify_proof_ctxs_wf(old(m)@),
    ensures
        final(m).wf(),
        verify_proof_ctxs_wf(final(m)@),
        value@.len() == 0 ==> r == Err::<(), BbsFfiError>(BbsFfiError::EmptyNonce) && final(m)@
            == old(m)@,
        value@.len() > 0 && !old(m)@.contains_key(handle) ==> r == Err::<(), BbsFfiError>(
            BbsFfiError::HandleNotFound,
        ) && final(m)@ == old(m)@,
        value@.len() > 0 && old(m)@.contains_key(handle) ==> (match nonce_from_bytes(value@) {
            Some(n) => {
                &&& r == Ok::<(), BbsFfiError>(())
                &&& entry_updated(old(m)@, final(m)@, handle)
                &&& final(m)@[handle].nonce == Some(n)
                &&& final(m)@[handle].messages == old(m)@[handle].messages
                &&& final(m)@[handle].proof == old(m)@[handle].proof
                &&& final(m)@[handle].public_key == old(m)@[handle].public_key
            },
            None => r == Err::<(), BbsFfiError>(BbsFfiError::BadNonceBytes) && final(m)@ == old(m)@,
        }),
{
    if value.len() == 0 {
        return Err(BbsFfiError::EmptyNonce);
    }
    let mut ctx = match m.take(handle) {
        Some(c) => c,
        None => {
            return Err(BbsFfiError::HandleNotFound);
        },
    };
    match nonce_parse(value) {
        Some(n) => {
            ctx.nonce = Some(n);
            m.put(handle, ctx);
            proof {
                assert(m@ =~= old(m)@.insert(handle, m@[handle]));
                lemma_table_wf(old(m)@, m@, handle);
            }
            Ok(())
        },
        None => {
            m.put(handle, ctx);
            proof {
                assert(m@ =~= old(m)@);
            }
            Err(BbsFfiError::BadNonceBytes)
        },
    }
}

/// Whether the frame's bitvector marks exactly the given positions.
pub open spec fn bits_match_indices(bit_vector: Seq<u8>, indices: Seq<usize>) -> bool {
    forall|p: usize| seq_has(indices, p) <==> revealed_bit(bit_vector, p)
}

/// What a completed proof verification returns, a pure function of the
/// context: the precondition failures in their fixed order, the index-set
/// comparison against the proof's bitvector, the structural key checks, and
/// finally the cryptographic outcome under the recomputed challenge.
pub open spec fn verify_proof_finish_spec(ctx: VerifyProofContext) -> Result<
    SignatureProofStatus,
    BbsFfiError,
> {
    if ctx.proof is None {
        Err(BbsFfiError::ProofNotSet)
    } else if ctx.public_key is None {
        Err(BbsFfiError::PublicKeyNotSet)
    } else if ctx.nonce is None {
        Err(BbsFfiError::NonceNotSet)
    } else if ctx.messages@.len() == 0 {
        Err(BbsFfiError::NoMessages)
    } else {
        let w = ctx.proof->Some_0;
        let pk = ctx.public_key->Some_0;
        let nonce = ctx.nonce->Some_0;
        if !bits_match_indices(w.bit_vector@, ctx.messages.indices()) {
            Err(BbsFfiError::IndicesMismatch)
        } else if !(forall|j: int|
            0 <= j < ctx.messages@.len() ==> (#[trigger] ctx.messages@[j]).0 < message_count_of(
                pk,
            )) {
            Err(BbsFfiError::InvalidMessageIndex)
        } else if !pk_valid(pk) {
            Err(BbsFfiError::InvalidPublicKey)
        } else {
            match proof_status(
                w.proof,
                ctx.messages@,
                pk,
                hashed_challenge(
                    challenge_input_bytes(w.proof, ctx.messages.indices(), pk) + nonce_bytes(
                        nonce,
                    ),
                ),
            ) {
                Some(status) => Ok(status),
                // a wire-decoded proof can carry a response count the
                // cryptographic check refuses outright
                None => Err(BbsFfiError::BadProofBytes),
            }
        }
    }
}

/// Takes a context out of the table, keeping the table's well-formedness.
fn take_verify_ctx(m: &mut HandleMap<VerifyProofContext>, handle: u64) -> (r: Option<
    VerifyProofContext,
>)
    requires
        old(m).wf(),
        verify_proof_ctxs_wf(old(m)@),
    ensures
        final(m).wf(),
        verify_proof_ctxs_wf(final(m)@),
        final(m)@ == old(m)@.remove(handle),
        r matches Some(c) ==> old(m)@.contains_key(handle) && c == old(m)@[handle]
            && c.messages.wf() && (c.proof matches Some(w) ==> wrapper_wf(w)),
        r is None <==> !old(m)@.contains_key(handle),
{
    let r = m.take(handle);
    proof {
        lemma_remove_wf(old(m)@, m@, handle);
    }
    r
}

/// Verifies the proof against the accumulated revealed messages, the
/// recomputed challenge and the nonce. The handle is retired whether
/// verification runs or a precondition fails: a verification context is
/// never reused.
pub fn bbs_verify_proof_context_finish(m: &mut HandleMap<VerifyProofContext>, handle: u64) -> (r:
    Result<SignatureProofStatus, BbsFfiError>)
    requires
        old(m).wf(),
        verify_proof_ctxs_wf(old(m)@),
    ensures
        final(m).wf(),
        verify_proof_ctxs_wf(final(m)@),
        !old(m)@.contains_key(handle) ==> r == Err::<SignatureProofStatus, BbsFfiError>(
            BbsFfiError::HandleNotFound,
        ) && final(m)@ == old(m)@,
        old(m)@.contains_key(handle) ==> final(m)@ == old(m)@.remove(handle) && r
            == verify_proof_finish_spec(old(m)@[handle]),
{
    let ctx = match take_verify_ctx(m, handle) {
        Some(c) => c,
        None => {
            return Err(BbsFfiError::HandleNotFound);
        },
    };
    let w = match &(ctx.proof) {
        Some(w) => w,
        None => {
            return Err(BbsFfiError::ProofNotSet);
        },
    };
    let pk = match &ctx.public_key {
        Some(k) => k,
        None => {
            return Err(BbsFfiError::PublicKeyNotSet);
        },
    };
    let nonce = match &ctx.nonce {
        Some(n) => n,
        None => {
            return Err(BbsFfiError::NonceNotSet);
        },
    };
    if ctx.messages.is_empty() {
        return Err(BbsFfiError::NoMessages);
    }
    let revealed = w.unpack();
    let passed = ctx.messages.index_vec();
    proof {
        // the stored indices ascend strictly, as the decoded ones do
        assert forall|a: int, b: int| 0 <= a < b < passed@.len() implies passed@[a]
            < passed@[b] by {
            assert(ctx.messages@[a].0 < ctx.messages@[b].0);
        }
    }
    let sets_equal = index_vecs_equal(&revealed, &passed);
    proof {
        if sets_equal {
            assert(bits_match_indices(w.bit_vector@, ctx.messages.indices()));
        } else {
            // equal membership of two strictly ascending sequences would make
            // them equal
            if bits_match_indices(w.bit_vector@, ctx.messages.indices()) {
                assert forall|p: usize| seq_has(revealed@, p) <==> seq_has(passed@, p) by {
                    assert(seq_has(revealed@, p) <==> revealed_bit(w.bit_vector@, p));
                }
                lemma_sorted_unique_membership_eq(revealed@, passed@);
            }
        }
    }
    if !sets_equal {
        return Err(BbsFfiError::IndicesMismatch);
    }
    let mc = pk_message_count(pk);
    if !check_indexes(ctx.messages.pairs(), mc) {
        return Err(BbsFfiError::InvalidMessageIndex);
    }
    if !pk_validate(pk) {
        return Err(BbsFfiError::InvalidPublicKey);
    }
    let challenge_input = proof_challenge_input(&w.proof, &passed, pk);
    let nonce_bytes_vec = nonce_to_bytes(nonce);
    let challenge_bytes = crate::codec::concat_bytes(&challenge_input, &nonce_bytes_vec);
    let challenge = challenge_hash(&challenge_bytes);
    match proof_verify(&w.proof, ctx.messages.pairs(), pk, &challenge) {
        Some(status) => Ok(status),
        None => Err(BbsFfiError::BadProofBytes),
    }
}

/// Releases a proof-verification context without finishing it.
pub fn free_verify_proof(m: &mut HandleMap<VerifyProofContext>, handle: u64) -> (r: Result<
    (),
    BbsFfiError,
>)
    requires
        old(m).wf(),
        verify_proof_ctxs_wf(old(m)@),
    ensures
        final(m).wf(),
        verify_proof_ctxs_wf(final(m)@),
        final(m)@ == old(m)@.remove(handle),
        r is Ok <==> old(m)@.contains_key(handle),
        r matches Err(e) ==> e == BbsFfiError::HandleNotFound,
{
    let r = match m.remove(handle) {
        Some(_) => Ok(()),
        None => Err(BbsFfiError::HandleNotFound),
    };
    proof {
        lemma_remove_wf(old(m)@, m@, handle);
    }
    r
}


/// A revealed-index set that differs from the set the proof's bitvector
/// marks is rejected as an index mismatch, for every context whose required
/// fields are set, independent of any cryptographic validity.
pub proof fn lemma_mismatched_indices_rejected(ctx: VerifyProofContext)
    requires
        ctx.proof is Some,
        ctx.public_key is Some,
        ctx.nonce is Some,
        ctx.messages@.len() > 0,
        !bits_match_indices((ctx.proof->Some_0).bit_vector@, ctx.messages.indices()),
    ensures
        verify_proof_finish_spec(ctx) == Err::<SignatureProofStatus, BbsFfiError>(
            BbsFfiError::IndicesMismatch,
        ),
{
}

/// Proof verification is a pure function: two contexts with equal contents
/// always finish with the same result.
pub proof fn lemma_verify_proof_deterministic(a: VerifyProofContext, b: VerifyProofContext)
    requires
        a.proof == b.proof,
        a.public_key == b.public_key,
        a.nonce == b.nonce,
        a.messages@ == b.messages@,
    ensures
        verify_proof_finish_spec(a) == verify_proof_finish_spec(b),
{
}


/// The framing half of the proof round trip: a proof framed by a successful
/// proof creation declares the message count it was created over, and its
/// bitvector marks exactly the created context's revealed positions. A
/// verifier who adds its revealed messages at those positions therefore
/// passes the index-set comparison; only the cryptographic check remains.
pub proof fn lemma_created_frame_matches_verifier_indices(
    entries: Seq<ProofMessageEntry>,
    out: Seq<u8>,
    indices: Seq<usize>,
)
    requires
        entries.len() <= u16::MAX,
        proof_output_ok(out, entries),
        forall|p: usize| seq_has(indices, p) <==> (p < entries.len() && entries[p as int]
            is Revealed),
    ensures
        declared_total(out) == entries.len(),
        bits_match_indices(out.subrange(0, proof_body_offset(out)), indices),
{
    let len = entries.len();
    let v = len as u16;
    assert(declared_total(out) == (v / 0x100) * 0x100 + (v % 0x100));
    assert(declared_total(out) == len);
    let bv_len = (len / 8 + 1) as int;
    let offset = proof_body_offset(out);
    assert(offset == 2 + bv_len);
    let bv_full = out.subrange(0, offset);
    let bits = bv_full.subrange(2, bv_full.len() as int);
    assert(bits =~= out.subrange(2, 2 + bv_len));
    assert(proof_bitvector_ok(bits, entries));
    assert forall|p: usize| seq_has(indices, p) <==> revealed_bit(bv_full, p) by {
        if p < 8 * bits.len() {
            let k = p as int / 8;
            let b = (p % 8) as u8;
            assert(0 <= k < bits.len() && b < 8);
            assert(8 * k + b == p);
            assert(bit_set(bits[bits.len() - 1 - k], b) <==> (8 * k + b < entries.len() && entries[8
                * k + b] is Revealed));
        } else {
            assert(8 * bits.len() >= len);
            if seq_has(indices, p) {
                assert(p < len);
            }
        }
    }
}

} // verus!
