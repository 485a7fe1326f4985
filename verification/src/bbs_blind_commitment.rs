//! The holder's side of the blind-signature protocol: accumulate the hidden
//! messages under their positions, set the issuer's public key and the
//! issuer-supplied nonce, and finish into a commitment, a proof of the
//! hidden messages and the blinding factor that later unblinds the
//! signature.

use vstd::prelude::*;
use crate::errors::BbsFfiError;
use vstd::string::StringSliceAdditionalSpecFns;
use crate::handles::{HandleMap, entry_updated};
use crate::index_map::IndexedMessages;
use crate::index_map::complement_indices;
use crate::bbs_api::{
    hashed_message, message_hash, message_from_bytes, message_parse, pk_from_bytes, pk_parse,
    hashed_nonce, nonce_hash, nonce_from_bytes, nonce_parse, message_count_of, pk_message_count,
    blind_commit, blinding_to_bytes, blinding_bytes, blinding_from_bytes, bsc_to_bytes, bsc_bytes,
    bsc_outcome,
};

verus! {

/// One in-flight blind-commitment operation.
pub struct BlindCommitmentContext {
    /// The hidden messages, keyed by their position in the full vector.
    pub messages: IndexedMessages,
    /// The issuer's public key, once set.
    pub public_key: Option<bbs::keys::PublicKey>,
    /// The issuer-supplied freshness nonce, once set.
    pub nonce: Option<bbs::ProofNonce>,
}

/// What a successful blind commitment hands back.
pub struct BlindCommitmentOutcome {
    /// The blinding factor the holder keeps to unblind the signature.
    pub blinding_factor: Vec<u8>,
    /// The commitment the issuer signs over.
    pub commitment: Vec<u8>,
    /// The full serialized context: the commitment followed by the proof of
    /// the hidden messages.
    pub out_context: Vec<u8>,
}

/// Every context in the table keeps its messages in ascending index order.
pub open spec fn commitment_ctxs_wf(mm: Map<u64, BlindCommitmentContext>) -> bool {
    forall|h: u64| mm.contains_key(h) ==> (#[trigger] mm[h]).messages.wf()
}

/// The byte length of a serialized blind signature.
pub fn bbs_blind_signature_size() -> (r: i32)
    ensures
        r == crate::SIGNATURE_COMPRESSED_SIZE,
{
    112
}

/// Opens a fresh blind-commitment context and returns its handle.
pub fn bbs_blind_commitment_context_init(m: &mut HandleMap<BlindCommitmentContext>) -> (handle: u64)
    requires
        old(m).wf(),
        old(m).can_insert(),
        commitment_ctxs_wf(old(m)@),
    ensures
        final(m).wf(),
        commitment_ctxs_wf(final(m)@),
        !old(m)@.contains_key(handle),
        entry_updated(old(m)@, final(m)@, handle),
        final(m)@[handle].messages@.len() == 0,
        final(m)@[handle].public_key is None,
        final(m)@[handle].nonce is None,
{
    let handle = m.insert(
        BlindCommitmentContext { messages: IndexedMessages::new(), public_key: None, nonce: None },
    );
    proof {
        assert forall|h: u64| m@.contains_key(h) implies (#[trigger] m@[h]).messages.wf() by {
            if h != handle {
                assert(old(m)@[h].messages.wf());
            }
        }
    }
    handle
}

/// Stores the hash of a byte string as the hidden message at `index`;
/// writing the same index again overwrites the earlier message.
pub fn bbs_blind_commitment_context_add_message_bytes(
    m: &mut HandleMap<BlindCommitmentContext>,
    handle: u64,
    index: u32,
    message: &Vec<u8>,
) -> (r: Result<(), BbsFfiError>)
    requires
        old(m).wf(),
        commitment_ctxs_wf(old(m)@),
    ensures
        final(m).wf(),
        commitment_ctxs_wf(final(m)@),
        message@.len() == 0 ==> r == Err::<(), BbsFfiError>(BbsFfiError::EmptyMessage) && final(m)@
            == old(m)@,
        message@.len() > 0 && !old(m)@.contains_key(handle) ==> r == Err::<(), BbsFfiError>(
            BbsFfiError::HandleNotFound,
        ) && final(m)@ == old(m)@,
        message@.len() > 0 && old(m)@.contains_key(handle) ==> ({
            &&& r == Ok::<(), BbsFfiError>(())
            &&& entry_updated(old(m)@, final(m)@, handle)
            &&& message_stored(
                old(m)@[handle],
                final(m)@[handle],
                index as usize,
                hashed_message(message@),
            )
        }),
{
    if message.len() == 0 {
        return Err(BbsFfiError::EmptyMessage);
    }
    let mut ctx = match m.take(handle) {
        Some(c) => c,
        None => {
            return Err(BbsFfiError::HandleNotFound);
        },
    };
    let msg = message_hash(message);
    ctx.messages.set(index as usize, msg);
    m.put(handle, ctx);
    proof {
        assert(m@ =~= old(m)@.insert(handle, m@[handle]));
        lemma_table_wf(old(m)@, m@, handle);
    }
    Ok(())
}

/// The second context equals the first with `msg` stored at `index` and
/// every other index untouched.
pub open spec fn message_stored(
    prev: BlindCommitmentContext,
    cur: BlindCommitmentContext,
    index: usize,
    msg: bbs::SignatureMessage,
) -> bool {
    &&& cur.messages.has_index(index)
    &&& cur.messages.message_at(index) == msg
    &&& forall|i: usize|
        i != index ==> (#[trigger] cur.messages.has_index(i)) == prev.messages.has_index(i)
    &&& forall|i: usize|
        i != index && prev.messages.has_index(i) ==> #[trigger] cur.messages.message_at(i)
            == prev.messages.message_at(i)
    &&& cur.public_key == prev.public_key
    &&& cur.nonce == prev.nonce
}

proof fn lemma_table_wf(
    prev: Map<u64, BlindCommitmentContext>,
    cur: Map<u64, BlindCommitmentContext>,
    handle: u64,
)
    requires
        commitment_ctxs_wf(prev),
        entry_updated(prev, cur, handle),
        cur[handle].messages.wf(),
    ensures
        commitment_ctxs_wf(cur),
{
    assert forall|h: u64| cur.contains_key(h) implies (#[trigger] cur[h]).messages.wf() by {
        if h != handle {
            assert(prev[h].messages.wf());
        }
    }
}

/// Stores the hash of a string's bytes as the hidden message at `index`.
pub fn bbs_blind_commitment_context_add_message_string(
    m: &mut HandleMap<BlindCommitmentContext>,
    handle: u64,
    index: u32,
    message: &str,
) -> (r: Result<(), BbsFfiError>)
    requires
        old(m).wf(),
        commitment_ctxs_wf(old(m)@),
    ensures
        final(m).wf(),
        commitment_ctxs_wf(final(m)@),
        message.spec_bytes().len() == 0 ==> r == Err::<(), BbsFfiError>(BbsFfiError::EmptyMessage)
            && final(m)@ == old(m)@,
        message.spec_bytes().len() > 0 && !old(m)@.contains_key(handle) ==> r == Err::<
            (),
            BbsFfiError,
        >(BbsFfiError::HandleNotFound) && final(m)@ == old(m)@,
        message.spec_bytes().len() > 0 && old(m)@.contains_key(handle) ==> ({
            &&& r == Ok::<(), BbsFfiError>(())
            &&& entry_updated(old(m)@, final(m)@, handle)
            &&& message_stored(
                old(m)@[handle],
                final(m)@[handle],
                index as usize,
                hashed_message(message.spec_bytes()),
            )
        }),
{
    let bytes = vstd::slice::slice_to_vec(message.as_bytes());
    bbs_blind_commitment_context_add_message_bytes(m, handle, index, &bytes)
}

/// Stores a prehashed message, given as a serialized field scalar, at
/// `index`.
pub fn bbs_blind_commitment_context_add_message_prehashed(
    m: &mut HandleMap<BlindCommitmentContext>,
    handle: u64,
    index: u32,
    message: &Vec<u8>,
) -> (r: Result<(), BbsFfiError>)
    requires
        old(m).wf(),
        commitment_ctxs_wf(old(m)@),
    ensures
        final(m).wf(),
        commitment_ctxs_wf(final(m)@),
        message@.len() == 0 ==> r == Err::<(), BbsFfiError>(BbsFfiError::EmptyMessage) && final(m)@
            == old(m)@,
        message@.len() > 0 && !old(m)@.contains_key(handle) ==> r == Err::<(), BbsFfiError>(
            BbsFfiError::HandleNotFound,
        ) && final(m)@ == old(m)@,
        message@.len() > 0 && old(m)@.contains_key(handle) ==> (
        match message_from_bytes(message@) {
            Some(msg) => {
                &&& r == Ok::<(), BbsFfiError>(())
                &&& entry_updated(old(m)@, final(m)@, handle)
                &&& message_stored(old(m)@[handle], final(m)@[handle], index as usize, msg)
            },
            None => r == Err::<(), BbsFfiError>(BbsFfiError::BadMessageBytes) && final(m)@ == old(
                m,
            )@,
        }),
{
    if message.len() == 0 {
        return Err(BbsFfiError::EmptyMessage);
    }
    let mut ctx = match m.take(handle) {
        Some(c) => c,
        None => {
            return Err(BbsFfiError::HandleNotFound);
        },
    };
    match message_parse(message) {
        Some(msg) => {
            ctx.messages.set(index as usize, msg);
            m.put(handle, ctx);
            proof {
                assert(m@ =~= old(m)@.insert(handle, m@[handle]));
                lemma_table_wf(old(m)@, m@, handle);
            }
            Ok(())
        },
        None => {
            m.put(handle, ctx);
            proof {
                assert(m@ =~= old(m)@);
            }
            Err(BbsFfiError::BadMessageBytes)
        },
    }
}

/// Sets the issuer's public key from its serialized bytes.
pub fn bbs_blind_commitment_context_set_public_key(
    m: &mut HandleMap<BlindCommitmentContext>,
    handle: u64,
    value: &Vec<u8>,
) -> (r: Result<(), BbsFfiError>)
    requires
        old(m).wf(),
        commitment_ctxs_wf(old(m)@),
    ensures
        final(m).wf(),
        commitment_ctxs_wf(final(m)@),
        value@.len() == 0 ==> r == Err::<(), BbsFfiError>(BbsFfiError::EmptyPublicKey) && final(m)@
            == old(m)@,
        value@.len() > 0 && !old(m)@.contains_key(handle) ==> r == Err::<(), BbsFfiError>(
            BbsFfiError::HandleNotFound,
        ) && final(m)@ == old(m)@,
        0 < value@.len() < 4 && old(m)@.contains_key(handle) ==> r == Err::<(), BbsFfiError>(
            BbsFfiError::BadPublicKeyBytes,
        ) && final(m)@ == old(m)@,
        value@.len() >= 4 && old(m)@.contains_key(handle) ==> (match pk_from_bytes(value@) {
            Some(pk) => {
                &&& r == Ok::<(), BbsFfiError>(())
                &&& entry_updated(old(m)@, final(m)@, handle)
                &&& final(m)@[handle].public_key == Some(pk)
                &&& final(m)@[handle].messages == old(m)@[handle].messages
                &&& final(m)@[handle].nonce == old(m)@[handle].nonce
            },
            None => r == Err::<(), BbsFfiError>(BbsFfiError::BadPublicKeyBytes) && final(m)@ == old(
                m,
            )@,
        }),
{
    if value.len() == 0 {
        return Err(BbsFfiError::EmptyPublicKey);
    }
    let mut ctx = match m.take(handle) {
        Some(c) => c,
        None => {
            return Err(BbsFfiError::HandleNotFound);
        },
    };
    if value.len() < 4 {
        m.put(handle, ctx);
        proof {
            assert(m@ =~= old(m)@);
        }
        return Err(BbsFfiError::BadPublicKeyBytes);
    }
    match pk_parse(value) {
        Some(pk) => {
            ctx.public_key = Some(pk);
            m.put(handle, ctx);
            proof {
                assert(m@ =~= old(m)@.insert(handle, m@[handle]));
                lemma_table_wf(old(m)@, m@, handle);
            }
            Ok(())
        },
        None => {
            m.put(handle, ctx);
            proof {
                assert(m@ =~= old(m)@);
            }
            Err(BbsFfiError::BadPublicKeyBytes)
        },
    }
}

/// Sets the nonce to the hash of a byte string.
pub fn bbs_blind_commitment_context_set_nonce_bytes(
    m: &mut HandleMap<BlindCommitmentContext>,
    handle: u64,
    value: &Vec<u8>,
) -> (r: Result<(), BbsFfiError>)
    requires
        old(m).wf(),
        commitment_ctxs_wf(old(m)@),
    ensures
        final(m).wf(),
        commitment_ctxs_wf(final(m)@),
        value@.len() == 0 ==> r == Err::<(), BbsFfiError>(BbsFfiError::EmptyNonce) && final(m)@
            == old(m)@,
        value@.len() > 0 && !old(m)@.contains_key(handle) ==> r == Err::<(), BbsFfiError>(
            BbsFfiError::HandleNotFound,
        ) && final(m)@ == old(m)@,
        value@.len() > 0 && old(m)@.contains_key(handle) ==> ({
            &&& r == Ok::<(), BbsFfiError>(())
            &&& entry_updated(old(m)@, final(m)@, handle)
            &&& final(m)@[handle].nonce == Some(hashed_nonce(value@))
            &&& final(m)@[handle].messages == old(m)@[handle].messages
            &&& final(m)@[handle].public_key == old(m)@[handle].public_key
        }),
{
    if value.len() == 0 {
        return Err(BbsFfiError::EmptyNonce);
    }
    let mut ctx = match m.take(handle) {
        Some(c) => c,
        None => {
            return Err(BbsFfiError::HandleNotFound);
        },
    };
    let nonce = nonce_hash(value);
    ctx.nonce = Some(nonce);
    m.put(handle, ctx);
    proof {
        assert(m@ =~= old(m)@.insert(handle, m@[handle]));
        lemma_table_wf(old(m)@, m@, handle);
    }
    Ok(())
}

/// Sets the nonce to the hash of a string's bytes.
pub fn bbs_blind_commitment_context_set_nonce_string(
    m: &mut HandleMap<BlindCommitmentContext>,
    handle: u64,
    value: &str,
) -> (r: Result<(), BbsFfiError>)
    requires
        old(m).wf(),
        commitment_ctxs_wf(old(m)@),
    ensures
        final(m).wf(),
        commitment_ctxs_wf(final(m)@),
        value.spec_bytes().len() == 0 ==> r == Err::<(), BbsFfiError>(BbsFfiError::EmptyNonce)
            && final(m)@ == old(m)@,
        value.spec_bytes().len() > 0 && !old(m)@.contains_key(handle) ==> r == Err::<
            (),
            BbsFfiError,
        >(BbsFfiError::HandleNotFound) && final(m)@ == old(m)@,
        value.spec_bytes().len() > 0 && old(m)@.contains_key(handle) ==> ({
            &&& r == Ok::<(), BbsFfiError>(())
            &&& entry_updated(old(m)@, final(m)@, handle)
            &&& final(m)@[handle].nonce == Some(hashed_nonce(value.spec_bytes()))
            &&& final(m)@[handle].messages == old(m)@[handle].messages
            &&& final(m)@[handle].public_key == old(m)@[handle].public_key
        }),
{
    let bytes = vstd::slice::slice_to_vec(value.as_bytes());
    bbs_blind_commitment_context_set_nonce_bytes(m, handle, &bytes)
}

/// Sets the nonce from a serialized field scalar.
pub fn bbs_blind_commitment_context_set_nonce_prehashed(
    m: &mut HandleMap<BlindCommitmentContext>,
    handle: u64,
    value: &Vec<u8>,
) -> (r: Result<(), BbsFfiError>)
    requires
        old(m).wf(),
        commitment_ctxs_wf(old(m)@),
    ensures
        final(m).wf(),
        commitment_ctxs_wf(final(m)@),
        value@.len() == 0 ==> r == Err::<(), BbsFfiError>(BbsFfiError::EmptyNonce) && final(m)@
            == old(m)@,
        value@.len() > 0 && !old(m)@.contains_key(handle) ==> r == Err::<(), BbsFfiError>(
            BbsFfiError::HandleNotFound,
        ) && final(m)@ == old(m)@,
        value@.len() > 0 && old(m)@.contains_key(handle) ==> (match nonce_from_bytes(value@) {
            Some(n) => {
                &&& r == Ok::<(), BbsFfiError>(())
                &&& entry_updated(old(m)@, final(m)@, handle)
                &&& final(m)@[handle].nonce == Some(n)
                &&& final(m)@[handle].messages == old(m)@[handle].messages
                &&& final(m)@[handle].public_key == old(m)@[handle].public_key
            },
            None => r == Err::<(), BbsFfiError>(BbsFfiError::BadNonceBytes) && final(m)@ == old(m)@,
        }),
{
    if value.len() == 0 {
        return Err(BbsFfiError::EmptyNonce);
    }
    let mut ctx = match m.take(handle) {
        Some(c) => c,
        None => {
            return Err(BbsFfiError::HandleNotFound);
        },
    };
    match nonce_parse(value) {
        Some(n) => {
            ctx.nonce = Some(n);
            m.put(handle, ctx);
            proof {
                assert(m@ =~= old(m)@.insert(handle, m@[handle]));
                lemma_table_wf(old(m)@, m@, handle);
            }
            Ok(())
        },
        None => {
            m.put(handle, ctx);
            proof {
                assert(m@ =~= old(m)@);
            }
            Err(BbsFfiError::BadNonceBytes)
        },
    }
}

/// The named precondition failure a blind-commitment finish reports, if
/// any: the nonce, the public key and at least one message are required, in
/// that order, and every message index must lie below the key's generator
/// count.
pub open spec fn blind_commitment_checks(ctx: BlindCommitmentContext) -> Option<BbsFfiError> {
    if ctx.nonce is None {
        Some(BbsFfiError::NonceNotSet)
    } else if ctx.public_key is None {
        Some(BbsFfiError::PublicKeyNotSet)
    } else if ctx.messages@.len() == 0 {
        Some(BbsFfiError::NoMessages)
    } else if !(forall|j: int|
        0 <= j < ctx.messages@.len() ==> (#[trigger] ctx.messages@[j]).0 < message_count_of(
            ctx.public_key->Some_0,
        )) {
        Some(BbsFfiError::InvalidMessageIndex)
    } else {
        None
    }
}

/// Builds the commitment over the accumulated hidden messages and retires
/// the handle. The blinding factor is drawn fresh, so the outputs are not a
/// function of the context, but they always serialize a blinding factor and
/// a commitment context whose proof of hidden messages verifies over the
/// complement of the stored indices; the commitment is the first 48 bytes of
/// the serialized context.
pub fn bbs_blind_commitment_context_finish(
    m: &mut HandleMap<BlindCommitmentContext>,
    handle: u64,
) -> (r: Result<BlindCommitmentOutcome, BbsFfiError>)
    requires
        old(m).wf(),
        commitment_ctxs_wf(old(m)@),
    ensures
        final(m).wf(),
        commitment_ctxs_wf(final(m)@),
        !old(m)@.contains_key(handle) ==> r == Err::<BlindCommitmentOutcome, BbsFfiError>(
            BbsFfiError::HandleNotFound,
        ) && final(m)@ == old(m)@,
        old(m)@.contains_key(handle) ==> (match blind_commitment_checks(old(m)@[handle]) {
            Some(e) => r == Err::<BlindCommitmentOutcome, BbsFfiError>(e) && final(m)@ == old(m)@,
            None => {
                &&& final(m)@ == old(m)@.remove(handle)
                &&& r matches Ok(o) && o.blinding_factor@.len() == crate::FR_COMPRESSED_SIZE
                    && o.out_context@.len() >= 132 && o.commitment@ == o.out_context@.subrange(
                    0,
                    crate::G1_COMPRESSED_SIZE as int,
                ) && (exists|c: bbs::BlindSignatureContext, bf: bbs::SignatureBlinding|
                    o.out_context@ == bsc_bytes(c) && o.blinding_factor@ == blinding_bytes(bf)
                        && blinding_from_bytes(o.blinding_factor@) == Some(bf) && bsc_outcome(
                        c,
                        complement_indices(
                            message_count_of(old(m)@[handle].public_key->Some_0) as nat,
                            old(m)@[handle].messages.indices(),
                        ),
                        old(m)@[handle].public_key->Some_0,
                        old(m)@[handle].nonce->Some_0,
                    ) == Some(true))
            },
        }),
{
    let ctx = match m.take(handle) {
        Some(c) => c,
        None => {
            return Err(BbsFfiError::HandleNotFound);
        },
    };
    let nonce = match &ctx.nonce {
        Some(n) => n,
        None => {
            m.put(handle, ctx);
            proof {
                assert(m@ =~= old(m)@);
            }
            return Err(BbsFfiError::NonceNotSet);
        },
    };
    let pk = match &ctx.public_key {
        Some(k) => k,
        None => {
            m.put(handle, ctx);
            proof {
                assert(m@ =~= old(m)@);
            }
            return Err(BbsFfiError::PublicKeyNotSet);
        },
    };
    if ctx.messages.is_empty() {
        m.put(handle, ctx);
        proof {
            assert(m@ =~= old(m)@);
        }
        return Err(BbsFfiError::NoMessages);
    }
    let mc = pk_message_count(pk);
    let indexes_ok = check_indexes(ctx.messages.pairs(), mc);
    proof {
        assert(mc == message_count_of(*pk));
    }
    if !indexes_ok {
        m.put(handle, ctx);
        proof {
            assert(m@ =~= old(m)@);
        }
        return Err(BbsFfiError::InvalidMessageIndex);
    }
    proof {
        assert(ctx.messages.wf());
    }
    let (blinding, bsc) = blind_commit(pk, ctx.messages.pairs(), nonce);
    let out_context = bsc_to_bytes(&bsc);
    let commitment = crate::codec::copy_bytes_range(&out_context, 0, 48);
    let blinding_factor = blinding_to_bytes(&blinding);
    proof {
        assert(out_context@ == bsc_bytes(bsc) && blinding_factor@ == blinding_bytes(blinding)
            && blinding_from_bytes(blinding_factor@) == Some(blinding) && bsc_outcome(
            bsc,
            complement_indices(message_count_of(*pk) as nat, ctx.messages.indices()),
            *pk,
            *nonce,
        ) == Some(true));
    }
    Ok(BlindCommitmentOutcome { blinding_factor, commitment, out_context })
}

/// Releases a blind-commitment context without finishing it.
pub fn free_bbs_blind_commitment(m: &mut HandleMap<BlindCommitmentContext>, handle: u64) -> (r:
    Result<(), BbsFfiError>)
    requires
        old(m).wf(),
        commitment_ctxs_wf(old(m)@),
    ensures
        final(m).wf(),
        commitment_ctxs_wf(final(m)@),
        final(m)@ == old(m)@.remove(handle),
        r is Ok <==> old(m)@.contains_key(handle),
        r matches Err(e) ==> e == BbsFfiError::HandleNotFound,
{
    let r = match m.remove(handle) {
        Some(_) => Ok(()),
        None => Err(BbsFfiError::HandleNotFound),
    };
    proof {
        assert forall|h: u64| m@.contains_key(h) implies (#[trigger] m@[h]).messages.wf() by {
            assert(old(m)@[h].messages.wf());
        }
    }
    r
}


/// Whether every stored index lies below the key's generator count.
pub fn check_indexes(pairs: &Vec<(usize, bbs::SignatureMessage)>, bound: usize) -> (r: bool)
    ensures
        r == (forall|j: int| 0 <= j < pairs@.len() ==> (#[trigger] pairs@[j]).0 < bound),
{
    let mut j: usize = 0;
    let n = pairs.len();
    while j < n
        invariant
            j <= n,
            n == pairs@.len(),
            forall|a: int| 0 <= a < j ==> (#[trigger] pairs@[a]).0 < bound,
        decreases n - j,
    {
        if pairs[j].0 >= bound {
            proof {
                assert(!((pairs@[j as int]).0 < bound));
            }
            return false;
        }
        j = j + 1;
    }
    true
}

} // verus!
