//! The issuer's side of the blind-signature protocol: accumulate the
//! issuer-known messages under their positions, set the holder's commitment
//! and the key pair, and finish into a blind signature that the holder
//! unblinds into an ordinary one.

use vstd::prelude::*;
use crate::errors::BbsFfiError;
use vstd::string::StringSliceAdditionalSpecFns;
use crate::handles::{HandleMap, entry_updated};
use crate::index_map::{IndexedMessages, lemma_sorted_below_bound_len};
use crate::bbs_blind_commitment::check_indexes;
use crate::bbs_api::{
    hashed_message, message_hash, message_from_bytes, message_parse, sk_from_bytes, sk_parse,
    pk_from_bytes, pk_parse, commitment_from_bytes, commitment_parse, message_count_of,
    pk_message_count, blind_sig_new, blind_sig_to_bytes, blind_sig_bytes, blind_sig_from_bytes,
    blind_sig_parse,
    blinding_from_bytes, blinding_parse, unblinded, unblind, sig_bytes, sig_to_bytes,
};

verus! {

/// One in-flight blind-signing operation.
pub struct BlindSignContext {
    /// The holder's commitment to the hidden messages, once set.
    pub commitment: Option<bbs::Commitment>,
    /// The issuer-known messages, keyed by their position in the full
    /// vector.
    pub messages: IndexedMessages,
    /// The public key, once set.
    pub public_key: Option<bbs::keys::PublicKey>,
    /// The signing key, once set.
    pub secret_key: Option<bbs::keys::SecretKey>,
}

/// Every context in the table keeps its messages in ascending index order.
pub open spec fn blind_sign_ctxs_wf(mm: Map<u64, BlindSignContext>) -> bool {
    forall|h: u64| mm.contains_key(h) ==> (#[trigger] mm[h]).messages.wf()
}

proof fn lemma_table_wf(
    prev: Map<u64, BlindSignContext>,
    cur: Map<u64, BlindSignContext>,
    handle: u64,
)
    requires
        blind_sign_ctxs_wf(prev),
        entry_updated(prev, cur, handle),
        cur[handle].messages.wf(),
    ensures
        blind_sign_ctxs_wf(cur),
{
    assert forall|h: u64| cur.contains_key(h) implies (#[trigger] cur[h]).messages.wf() by {
        if h != handle {
            assert(prev[h].messages.wf());
        }
    }
}

/// The byte length of a serialized signature blinding factor.
pub fn bbs_blinding_factor_size() -> (r: i32)
    ensures
        r == crate::FR_COMPRESSED_SIZE,
{
    32
}

/// Opens a fresh blind-signing context and returns its handle.
pub fn bbs_blind_sign_context_init(m: &mut HandleMap<BlindSignContext>) -> (handle: u64)
    requires
        old(m).wf(),
        old(m).can_insert(),
        blind_sign_ctxs_wf(old(m)@),
    ensures
        final(m).wf(),
        blind_sign_ctxs_wf(final(m)@),
        !old(m)@.contains_key(handle),
        entry_updated(old(m)@, final(m)@, handle),
        final(m)@[handle].messages@.len() == 0,
        final(m)@[handle].commitment is None,
        final(m)@[handle].public_key is None,
        final(m)@[handle].secret_key is None,
{
    let handle = m.insert(
        BlindSignContext {
            commitment: None,
            messages: IndexedMessages::new(),
            public_key: None,
            secret_key: None,
        },
    );
    proof {
        assert forall|h: u64| m@.contains_key(h) implies (#[trigger] m@[h]).messages.wf() by {
            if h != handle {
                assert(old(m)@[h].messages.wf());
            }
        }
    }
    handle
}

/// The second context equals the first with `msg` stored at `index` and
/// every other index untouched.
pub open spec fn message_stored(
    prev: BlindSignContext,
    cur: BlindSignContext,
    index: usize,
    msg: bbs::SignatureMessage,
) -> bool {
    &&& cur.messages.has_index(index)
    &&& cur.messages.message_at(index) == msg
    &&& forall|i: usize|
        i != index ==> (#[trigger] cur.messages.has_index(i)) == prev.messages.has_index(i)
    &&& forall|i: usize|
        i != index && prev.messages.has_index(i) ==> #[trigger] cur.messages.message_at(i)
            == prev.messages.message_at(i)
    &&& cur.commitment == prev.commitment
    &&& cur.public_key == prev.public_key
    &&& cur.secret_key == prev.secret_key
}

/// Stores the hash of a byte string as the issuer-known message at `index`;
/// writing the same index again overwrites the earlier message.
pub fn bbs_blind_sign_context_add_message_bytes(
    m: &mut HandleMap<BlindSignContext>,
    handle: u64,
    index: u32,
    message: &Vec<u8>,
) -> (r: Result<(), BbsFfiError>)
    requires
        old(m).wf(),
        blind_sign_ctxs_wf(old(m)@),
    ensures
        final(m).wf(),
        blind_sign_ctxs_wf(final(m)@),
        message@.len() == 0 ==> r == Err::<(), BbsFfiError>(BbsFfiError::EmptyMessage) && final(m)@
            == old(m)@,
        message@.len() > 0 && !old(m)@.contains_key(handle) ==> r == Err::<(), BbsFfiError>(
            BbsFfiError::HandleNotFound,
        ) && final(m)@ == old(m)@,
        message@.len() > 0 && old(m)@.contains_key(handle) ==> ({
            &&& r == Ok::<(), BbsFfiError>(())
            &&& entry_updated(old(m)@, final(m)@, handle)
            &&& message_stored(
                old(m)@[handle],
                final(m)@[handle],
                index as usize,
                hashed_message(message@),
            )
        }),
{
    if message.len() == 0 {
        return Err(BbsFfiError::EmptyMessage);
    }
    let mut ctx = match m.take(handle) {
        Some(c) => c,
        None => {
            return Err(BbsFfiError::HandleNotFound);
        },
    };
    let msg = message_hash(message);
    ctx.messages.set(index as usize, msg);
    m.put(handle, ctx);
    proof {
        assert(m@ =~= old(m)@.insert(handle, m@[handle]));
        lemma_table_wf(old(m)@, m@, handle);
    }
    Ok(())
}

/// Stores the hash of a string's bytes as the issuer-known message at
/// `index`.
pub fn bbs_blind_sign_context_add_message_string(
    m: &mut HandleMap<BlindSignContext>,
    handle: u64,
    index: u32,
    message: &str,
) -> (r: Result<(), BbsFfiError>)
    requires
        old(m).wf(),
        blind_sign_ctxs_wf(old(m)@),
    ensures
        final(m).wf(),
        blind_sign_ctxs_wf(final(m)@),
        message.spec_bytes().len() == 0 ==> r == Err::<(), BbsFfiError>(BbsFfiError::EmptyMessage)
            && final(m)@ == old(m)@,
        message.spec_bytes().len() > 0 && !old(m)@.contains_key(handle) ==> r == Err::<
            (),
            BbsFfiError,
        >(BbsFfiError::HandleNotFound) && final(m)@ == old(m)@,
        message.spec_bytes().len() > 0 && old(m)@.contains_key(handle) ==> ({
            &&& r == Ok::<(), BbsFfiError>(())
            &&& entry_updated(old(m)@, final(m)@, handle)
            &&& message_stored(
                old(m)@[handle],
                final(m)@[handle],
                index as usize,
                hashed_message(message.spec_bytes()),
            )
        }),
{
    let bytes = vstd::slice::slice_to_vec(message.as_bytes());
    bbs_blind_sign_context_add_message_bytes(m, handle, index, &bytes)
}

/// Stores a prehashed message, given as a serialized field scalar, at
/// `index`.
pub fn bbs_blind_sign_context_add_message_prehashed(
    m: &mut HandleMap<BlindSignContext>,
    handle: u64,
    index: u32,
    message: &Vec<u8>,
) -> (r: Result<(), BbsFfiError>)
    requires
        old(m).wf(),
        blind_sign_ctxs_wf(old(m)@),
    ensures
        final(m).wf(),
        blind_sign_ctxs_wf(final(m)@),
        message@.len() == 0 ==> r == Err::<(), BbsFfiError>(BbsFfiError::EmptyMessage) && final(m)@
            == old(m)@,
        message@.len() > 0 && !old(m)@.contains_key(handle) ==> r == Err::<(), BbsFfiError>(
            BbsFfiError::HandleNotFound,
        ) && final(m)@ == old(m)@,
        message@.len() > 0 && old(m)@.contains_key(handle) ==> (
        match message_from_bytes(message@) {
            Some(msg) => {
                &&& r == Ok::<(), BbsFfiError>(())
                &&& entry_updated(old(m)@, final(m)@, handle)
                &&& message_stored(old(m)@[handle], final(m)@[handle], index as usize, msg)
            },
            None => r == Err::<(), BbsFfiError>(BbsFfiError::BadMessageBytes) && final(m)@ == old(
                m,
            )@,
        }),
{
    if message.len() == 0 {
        return Err(BbsFfiError::EmptyMessage);
    }
    let mut ctx = match m.take(handle) {
        Some(c) => c,
        None => {
            return Err(BbsFfiError::HandleNotFound);
        },
    };
    match message_parse(message) {
        Some(msg) => {
            ctx.messages.set(index as usize, msg);
            m.put(handle, ctx);
            proof {
                assert(m@ =~= old(m)@.insert(handle, m@[handle]));
                lemma_table_wf(old(m)@, m@, handle);
            }
            Ok(())
        },
        None => {
            m.put(handle, ctx);
            proof {
                assert(m@ =~= old(m)@);
            }
            Err(BbsFfiError::BadMessageBytes)
        },
    }
}

/// Sets the public key from its serialized bytes.
pub fn bbs_blind_sign_context_set_public_key(
    m: &mut HandleMap<BlindSignContext>,
    handle: u64,
    value: &Vec<u8>,
) -> (r: Result<(), BbsFfiError>)
    requires
        old(m).wf(),
        blind_sign_ctxs_wf(old(m)@),
    ensures
        final(m).wf(),
        blind_sign_ctxs_wf(final(m)@),
        value@.len() == 0 ==> r == Err::<(), BbsFfiError>(BbsFfiError::EmptyPublicKey) && final(m)@
            == old(m)@,
        value@.len() > 0 && !old(m)@.contains_key(handle) ==> r == Err::<(), BbsFfiError>(
            BbsFfiError::HandleNotFound,
        ) && final(m)@ == old(m)@,
        0 < value@.len() < 4 && old(m)@.contains_key(handle) ==> r == Err::<(), BbsFfiError>(
            BbsFfiError::BadPublicKeyBytes,
        ) && final(m)@ == old(m)@,
        value@.len() >= 4 && old(m)@.contains_key(handle) ==> (match pk_from_bytes(value@) {
            Some(pk) => {
                &&& r == Ok::<(), BbsFfiError>(())
                &&& entry_updated(old(m)@, final(m)@, handle)
                &&& final(m)@[handle].public_key == Some(pk)
                &&& final(m)@[handle].messages == old(m)@[handle].messages
                &&& final(m)@[handle].commitment == old(m)@[handle].commitment
                &&& final(m)@[handle].secret_key == old(m)@[handle].secret_key
            },
            None => r == Err::<(), BbsFfiError>(BbsFfiError::BadPublicKeyBytes) && final(m)@ == old(
                m,
            )@,
        }),
{
    if value.len() == 0 {
        return Err(BbsFfiError::EmptyPublicKey);
    }
    let mut ctx = match m.take(handle) {
        Some(c) => c,
        None => {
            return Err(BbsFfiError::HandleNotFound);
        },
    };
    if value.len() < 4 {
        m.put(handle, ctx);
        proof {
            assert(m@ =~= old(m)@);
        }
        return Err(BbsFfiError::BadPublicKeyBytes);
    }
    match pk_parse(value) {
        Some(pk) => {
            ctx.public_key = Some(pk);
            m.put(handle, ctx);
            proof {
                assert(m@ =~= old(m)@.insert(handle, m@[handle]));
                lemma_table_wf(old(m)@, m@, handle);
            }
            Ok(())
        },
        None => {
            m.put(handle, ctx);
            proof {
                assert(m@ =~= old(m)@);
            }
            Err(BbsFfiError::BadPublicKeyBytes)
        },
    }
}

/// Sets the signing key from its serialized bytes.
pub fn bbs_blind_sign_context_set_secret_key(
    m: &mut HandleMap<BlindSignContext>,
    handle: u64,
    value: &Vec<u8>,
) -> (r: Result<(), BbsFfiError>)
    requires
        old(m).wf(),
        blind_sign_ctxs_wf(old(m)@),
    ensures
        final(m).wf(),
        blind_sign_ctxs_wf(final(m)@),
        value@.len() == 0 ==> r == Err::<(), BbsFfiError>(BbsFfiError::EmptySecretKey) && final(m)@
            == old(m)@,
        value@.len() > 0 && !old(m)@.contains_key(handle) ==> r == Err::<(), BbsFfiError>(
            BbsFfiError::HandleNotFound,
        ) && final(m)@ == old(m)@,
        value@.len() > 0 && old(m)@.contains_key(handle) ==> (match sk_from_bytes(value@) {
            Some(sk) => {
                &&& r == Ok::<(), BbsFfiError>(())
                &&& entry_updated(old(m)@, final(m)@, handle)
                &&& final(m)@[handle].secret_key == Some(sk)
                &&& final(m)@[handle].messages == old(m)@[handle].messages
                &&& final(m)@[handle].commitment == old(m)@[handle].commitment
                &&& final(m)@[handle].public_key == old(m)@[handle].public_key
            },
            None => r == Err::<(), BbsFfiError>(BbsFfiError::BadSecretKeyBytes) && final(m)@ == old(
                m,
            )@,
        }),
{
    if value.len() == 0 {
        return Err(BbsFfiError::EmptySecretKey);
    }
    let mut ctx = match m.take(handle) {
        Some(c) => c,
        None => {
            return Err(BbsFfiError::HandleNotFound);
        },
    };
    match sk_parse(value) {
        Some(sk) => {
            ctx.secret_key = Some(sk);
            m.put(handle, ctx);
            proof {
                assert(m@ =~= old(m)@.insert(handle, m@[handle]));
                lemma_table_wf(old(m)@, m@, handle);
            }
            Ok(())
        },
        None => {
            m.put(handle, ctx);
            proof {
                assert(m@ =~= old(m)@);
            }
            Err(BbsFfiError::BadSecretKeyBytes)
        },
    }
}

/// Sets the holder's commitment from its serialized bytes.
pub fn bbs_blind_sign_context_set_commitment(
    m: &mut HandleMap<BlindSignContext>,
    handle: u64,
    value: &Vec<u8>,
) -> (r: Result<(), BbsFfiError>)
    requires
        old(m).wf(),
        blind_sign_ctxs_wf(old(m)@),
    ensures
        final(m).wf(),
        blind_sign_ctxs_wf(final(m)@),
        value@.len() == 0 ==> r == Err::<(), BbsFfiError>(BbsFfiError::EmptyCommitment) && final(m)@
            == old(m)@,
        value@.len() > 0 && !old(m)@.contains_key(handle) ==> r == Err::<(), BbsFfiError>(
            BbsFfiError::HandleNotFound,
        ) && final(m)@ == old(m)@,
        value@.len() > 0 && old(m)@.contains_key(handle) ==> (match commitment_from_bytes(value@) {
            Some(c) => {
                &&& r == Ok::<(), BbsFfiError>(())
                &&& entry_updated(old(m)@, final(m)@, handle)
                &&& final(m)@[handle].commitment == Some(c)
                &&& final(m)@[handle].messages == old(m)@[handle].messages
                &&& final(m)@[handle].secret_key == old(m)@[handle].secret_key
                &&& final(m)@[handle].public_key == old(m)@[handle].public_key
            },
            None => r == Err::<(), BbsFfiError>(BbsFfiError::BadCommitmentBytes) && final(m)@
                == old(m)@,
        }),
{
    if value.len() == 0 {
        return Err(BbsFfiError::EmptyCommitment);
    }
    let mut ctx = match m.take(handle) {
        Some(c) => c,
        None => {
            return Err(BbsFfiError::HandleNotFound);
        },
    };
    match commitment_parse(value) {
        Some(c) => {
            ctx.commitment = Some(c);
            m.put(handle, ctx);
            proof {
                assert(m@ =~= old(m)@.insert(handle, m@[handle]));
                lemma_table_wf(old(m)@, m@, handle);
            }
            Ok(())
        },
        None => {
            m.put(handle, ctx);
            proof {
                assert(m@ =~= old(m)@);
            }
            Err(BbsFfiError::BadCommitmentBytes)
        },
    }
}

/// The named precondition failure a blind-signing finish reports, if any:
/// the commitment, the signing key, the public key and at least one message
/// are required, in that order, and every message index must lie below the
/// key's generator count.
pub open spec fn blind_sign_checks(ctx: BlindSignContext) -> Option<BbsFfiError> {
    if ctx.commitment is None {
        Some(BbsFfiError::CommitmentNotSet)
    } else if ctx.secret_key is None {
        Some(BbsFfiError::SecretKeyNotSet)
    } else if ctx.public_key is None {
        Some(BbsFfiError::PublicKeyNotSet)
    } else if ctx.messages@.len() == 0 {
        Some(BbsFfiError::NoMessages)
    } else if !(forall|j: int|
        0 <= j < ctx.messages@.len() ==> (#[trigger] ctx.messages@[j]).0 < message_count_of(
            ctx.public_key->Some_0,
        )) {
        Some(BbsFfiError::InvalidMessageIndex)
    } else {
        None
    }
}

/// Signs the commitment together with the issuer-known messages and retires
/// the handle. The blind signature carries fresh randomness, so only its
/// shape is pinned down: the bytes serialize a blind signature. Whether it
/// unblinds to a verifying signature depends on the holder's blinding factor
/// and hidden messages, which the issuer never holds, so that relation is
/// carried by the round-trip tests.
pub fn bbs_blind_sign_context_finish(m: &mut HandleMap<BlindSignContext>, handle: u64) -> (r:
    Result<Vec<u8>, BbsFfiError>)
    requires
        old(m).wf(),
        blind_sign_ctxs_wf(old(m)@),
    ensures
        final(m).wf(),
        blind_sign_ctxs_wf(final(m)@),
        !old(m)@.contains_key(handle) ==> r == Err::<Vec<u8>, BbsFfiError>(
            BbsFfiError::HandleNotFound,
        ) && final(m)@ == old(m)@,
        old(m)@.contains_key(handle) ==> (match blind_sign_checks(old(m)@[handle]) {
            Some(e) => r == Err::<Vec<u8>, BbsFfiError>(e) && final(m)@ == old(m)@,
            None => {
                &&& final(m)@ == old(m)@.remove(handle)
                &&& r matches Ok(v) && v@.len() == crate::SIGNATURE_COMPRESSED_SIZE && (
                exists|bs: bbs::signature::BlindSignature|
                    v@ == blind_sig_bytes(bs) && blind_sig_from_bytes(v@) == Some(bs))
            },
        }),
{
    let ctx = match m.take(handle) {
        Some(c) => c,
        None => {
            return Err(BbsFfiError::HandleNotFound);
        },
    };
    let commitment = match &ctx.commitment {
        Some(c) => c,
        None => {
            m.put(handle, ctx);
            proof {
                assert(m@ =~= old(m)@);
            }
            return Err(BbsFfiError::CommitmentNotSet);
        },
    };
    let sk = match &ctx.secret_key {
        Some(k) => k,
        None => {
            m.put(handle, ctx);
            proof {
                assert(m@ =~= old(m)@);
            }
            return Err(BbsFfiError::SecretKeyNotSet);
        },
    };
    let pk = match &ctx.public_key {
        Some(k) => k,
        None => {
            m.put(handle, ctx);
            proof {
                assert(m@ =~= old(m)@);
            }
            return Err(BbsFfiError::PublicKeyNotSet);
        },
    };
    if ctx.messages.is_empty() {
        m.put(handle, ctx);
        proof {
            assert(m@ =~= old(m)@);
        }
        return Err(BbsFfiError::NoMessages);
    }
    let mc = pk_message_count(pk);
    let indexes_ok = check_indexes(ctx.messages.pairs(), mc);
    if !indexes_ok {
        m.put(handle, ctx);
        proof {
            assert(m@ =~= old(m)@);
        }
        return Err(BbsFfiError::InvalidMessageIndex);
    }
    proof {
        // distinct ascending indices below the generator count bound the
        // number of messages by that count
        let idx = ctx.messages.indices();
        assert forall|a: int, b: int| 0 <= a < b < idx.len() implies idx[a] < idx[b] by {
            assert(ctx.messages@[a].0 < ctx.messages@[b].0);
        }
        assert forall|a: int| 0 <= a < idx.len() implies idx[a] < message_count_of(*pk) by {
            assert(ctx.messages@[a].0 < message_count_of(*pk));
        }
        lemma_sorted_below_bound_len(idx, message_count_of(*pk));
    }
    let blind_sig = match blind_sig_new(commitment, ctx.messages.pairs(), sk, pk) {
        Some(s) => s,
        None => {
            // unreachable: distinct indices below the count bound the length
            m.put(handle, ctx);
            proof {
                assert(m@ =~= old(m)@);
            }
            return Err(BbsFfiError::InvalidMessageIndex);
        },
    };
    let out = blind_sig_to_bytes(&blind_sig);
    proof {
        assert(out@ == blind_sig_bytes(blind_sig) && blind_sig_from_bytes(out@) == Some(
            blind_sig,
        ));
    }
    Ok(out)
}

/// What unblinding yields: both inputs must deserialize, and the result is
/// the unblinded signature's bytes, a pure function of the two inputs.
pub open spec fn unblind_signature_spec(
    blind_signature: Seq<u8>,
    blinding_factor: Seq<u8>,
) -> Result<Seq<u8>, BbsFfiError> {
    match blind_sig_from_bytes(blind_signature) {
        None => Err(BbsFfiError::BadBlindSignatureBytes),
        Some(bs) => match blinding_from_bytes(blinding_factor) {
            None => Err(BbsFfiError::BadBlindingFactorBytes),
            Some(bf) => Ok(sig_bytes(unblinded(bs, bf))),
        },
    }
}

/// Removes the holder's blinding contribution from a blind signature,
/// yielding an ordinary signature over the full message vector.
pub fn bbs_unblind_signature(blind_signature: &Vec<u8>, blinding_factor: &Vec<u8>) -> (r: Result<
    Vec<u8>,
    BbsFfiError,
>)
    ensures
        match unblind_signature_spec(blind_signature@, blinding_factor@) {
            Ok(bytes) => r matches Ok(v) && v@ == bytes && v@.len()
                == crate::SIGNATURE_COMPRESSED_SIZE,
            Err(e) => r == Err::<Vec<u8>, BbsFfiError>(e),
        },
{
    let bs = match blind_sig_parse(blind_signature) {
        Some(b) => b,
        None => {
            return Err(BbsFfiError::BadBlindSignatureBytes);
        },
    };
    let bf = match blinding_parse(blinding_factor) {
        Some(b) => b,
        None => {
            return Err(BbsFfiError::BadBlindingFactorBytes);
        },
    };
    let sig = unblind(&bs, &bf);
    Ok(sig_to_bytes(&sig))
}

/// Releases a blind-signing context without finishing it.
pub fn free_bbs_blind_sign(m: &mut HandleMap<BlindSignContext>, handle: u64) -> (r: Result<
    (),
    BbsFfiError,
>)
    requires
        old(m).wf(),
        blind_sign_ctxs_wf(old(m)@),
    ensures
        final(m).wf(),
        blind_sign_ctxs_wf(final(m)@),
        final(m)@ == old(m)@.remove(handle),
        r is Ok <==> old(m)@.contains_key(handle),
        r matches Err(e) ==> e == BbsFfiError::HandleNotFound,
{
    let r = match m.remove(handle) {
        Some(_) => Ok(()),
        None => Err(BbsFfiError::HandleNotFound),
    };
    proof {
        assert forall|h: u64| m@.contains_key(h) implies (#[trigger] m@[h]).messages.wf() by {
            assert(old(m)@[h].messages.wf());
        }
    }
    r
}


/// The plumbing half of the blind-signature round trip: unblinding accepts
/// every blind signature a successful blind-signing finish hands out and
/// every blinding factor a successful blind-commitment finish hands out,
/// both of which parse back, and yields the unblinded signature's bytes.
pub proof fn lemma_unblind_accepts_protocol_outputs(
    blind_signature: Seq<u8>,
    blinding_factor: Seq<u8>,
)
    requires
        blind_sig_from_bytes(blind_signature) is Some,
        blinding_from_bytes(blinding_factor) is Some,
    ensures
        unblind_signature_spec(blind_signature, blinding_factor) == Ok::<Seq<u8>, BbsFfiError>(
            sig_bytes(
                unblinded(
                    blind_sig_from_bytes(blind_signature)->Some_0,
                    blinding_from_bytes(blinding_factor)->Some_0,
                ),
            ),
        ),
{
}

} // verus!
