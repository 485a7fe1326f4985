//! The issuer's check of a holder's blind-commitment context: accumulate the
//! blinded (hidden) positions, set the proof, the public key and the nonce,
//! and finish by verifying the proof of hidden messages over the remaining
//! (revealed) generator positions.

use vstd::prelude::*;
use crate::errors::BbsFfiError;
use vstd::string::StringSliceAdditionalSpecFns;
use crate::handles::{HandleMap, entry_updated};
use crate::codec::seq_has;
use crate::index_map::{IndexSet, complement_indices};
use crate::bbs_api::{
    pk_from_bytes, pk_parse, hashed_nonce, nonce_hash, nonce_from_bytes, nonce_parse,
    message_count_of, pk_message_count, bsc_from_bytes, bsc_parse, bsc_outcome, bsc_verify,
};

verus! {

/// One in-flight check of a blind-commitment proof.
pub struct VerifyBlindSignProofContext {
    /// The positions the holder kept hidden.
    pub blinded: IndexSet,
    /// The issuer's freshness nonce, once set.
    pub nonce: Option<bbs::ProofNonce>,
    /// The holder's serialized context, once set and parsed.
    pub commitment_context: Option<bbs::BlindSignatureContext>,
    /// The public key, once set.
    pub public_key: Option<bbs::keys::PublicKey>,
}

/// Every context in the table keeps its blinded positions in ascending
/// order.
pub open spec fn vbsp_ctxs_wf(mm: Map<u64, VerifyBlindSignProofContext>) -> bool {
    forall|h: u64| mm.contains_key(h) ==> (#[trigger] mm[h]).blinded.wf()
}

proof fn lemma_table_wf(
    prev: Map<u64, VerifyBlindSignProofContext>,
    cur: Map<u64, VerifyBlindSignProofContext>,
    handle: u64,
)
    requires
        vbsp_ctxs_wf(prev),
        entry_updated(prev, cur, handle),
        cur[handle].blinded.wf(),
    ensures
        vbsp_ctxs_wf(cur),
{
    assert forall|h: u64| cur.contains_key(h) implies (#[trigger] cur[h]).blinded.wf() by {
        if h != handle {
            assert(prev.contains_key(h) && prev[h] == cur[h]);
        }
    }
}

proof fn lemma_remove_wf(
    prev: Map<u64, VerifyBlindSignProofContext>,
    cur: Map<u64, VerifyBlindSignProofContext>,
    handle: u64,
)
    requires
        vbsp_ctxs_wf(prev),
        cur == prev.remove(handle),
    ensures
        vbsp_ctxs_wf(cur),
{
    assert forall|h: u64| cur.contains_key(h) implies (#[trigger] cur[h]).blinded.wf() by {
        assert(prev.contains_key(h) && prev[h] == cur[h]);
    }
}

/// Opens a fresh blind-commitment verification context and returns its
/// handle.
pub fn bbs_verify_blind_commitment_context_init(
    m: &mut HandleMap<VerifyBlindSignProofContext>,
) -> (handle: u64)
    requires
        old(m).wf(),
        old(m).can_insert(),
        vbsp_ctxs_wf(old(m)@),
    ensures
        final(m).wf(),
        vbsp_ctxs_wf(final(m)@),
        !old(m)@.contains_key(handle),
        entry_updated(old(m)@, final(m)@, handle),
        final(m)@[handle].blinded@.len() == 0,
        final(m)@[handle].nonce is None,
        final(m)@[handle].commitment_context is None,
        final(m)@[handle].public_key is None,
{
    let handle = m.insert(
        VerifyBlindSignProofContext {
            blinded: IndexSet::new(),
            nonce: None,
            commitment_context: None,
            public_key: None,
        },
    );
    proof {
        lemma_table_wf(old(m)@, m@, handle);
    }
    handle
}

/// Records a position as blinded (hidden by the holder); recording one
/// already present changes nothing.
pub fn bbs_verify_blind_commitment_context_add_blinded(
    m: &mut HandleMap<VerifyBlindSignProofContext>,
    handle: u64,
    index: u32,
) -> (r: Result<(), BbsFfiError>)
    requires
        old(m).wf(),
        vbsp_ctxs_wf(old(m)@),
    ensures
        final(m).wf(),
        vbsp_ctxs_wf(final(m)@),
        !old(m)@.contains_key(handle) ==> r == Err::<(), BbsFfiError>(BbsFfiError::HandleNotFound)
            && final(m)@ == old(m)@,
        old(m)@.contains_key(handle) ==> ({
            &&& r == Ok::<(), BbsFfiError>(())
            &&& entry_updated(old(m)@, final(m)@, handle)
            &&& final(m)@[handle].blinded.has(index as usize)
            &&& forall|p: usize|
                p != index as usize ==> (#[trigger] final(m)@[handle].blinded.has(p)) == old(
                    m,
                )@[handle].blinded.has(p)
            &&& final(m)@[handle].nonce == old(m)@[handle].nonce
            &&& final(m)@[handle].commitment_context == old(m)@[handle].commitment_context
            &&& final(m)@[handle].public_key == old(m)@[handle].public_key
        }),
{
    let mut ctx = match m.take(handle) {
        Some(c) => c,
        None => {
            return Err(BbsFfiError::HandleNotFound);
        },
    };
    ctx.blinded.insert(index as usize);
    m.put(handle, ctx);
    proof {
        assert(m@ =~= old(m)@.insert(handle, m@[handle]));
        lemma_table_wf(old(m)@, m@, handle);
    }
    Ok(())
}

/// Sets the public key from its serialized bytes.
pub fn bbs_verify_blind_commitment_context_set_public_key(
    m: &mut HandleMap<VerifyBlindSignProofContext>,
    handle: u64,
    value: &Vec<u8>,
) -> (r: Result<(), BbsFfiError>)
    requires
        old(m).wf(),
        vbsp_ctxs_wf(old(m)@),
    ensures
        final(m).wf(),
        vbsp_ctxs_wf(final(m)@),
        value@.len() == 0 ==> r == Err::<(), BbsFfiError>(BbsFfiError::EmptyPublicKey) && final(m)@
            == old(m)@,
        value@.len() > 0 && !old(m)@.contains_key(handle) ==> r == Err::<(), BbsFfiError>(
            BbsFfiError::HandleNotFound,
        ) && final(m)@ == old(m)@,
        0 < value@.len() < 4 && old(m)@.contains_key(handle) ==> r == Err::<(), BbsFfiError>(
            BbsFfiError::BadPublicKeyBytes,
        ) && final(m)@ == old(m)@,
        value@.len() >= 4 && old(m)@.contains_key(handle) ==> (match pk_from_bytes(value@) {
            Some(pk) => {
                &&& r == Ok::<(), BbsFfiError>(())
                &&& entry_updated(old(m)@, final(m)@, handle)
                &&& final(m)@[handle].public_key == Some(pk)
                &&& final(m)@[handle].blinded == old(m)@[handle].blinded
                &&& final(m)@[handle].nonce == old(m)@[handle].nonce
                &&& final(m)@[handle].commitment_context == old(m)@[handle].commitment_context
            },
            None => r == Err::<(), BbsFfiError>(BbsFfiError::BadPublicKeyBytes) && final(m)@ == old(
                m,
            )@,
        }),
{
    if value.len() == 0 {
        return Err(BbsFfiError::EmptyPublicKey);
    }
    let mut ctx = match m.take(handle) {
        Some(c) => c,
        None => {
            return Err(BbsFfiError::HandleNotFound);
        },
    };
    if value.len() < 4 {
        m.put(handle, ctx);
        proof {
            assert(m@ =~= old(m)@);
        }
        return Err(BbsFfiError::BadPublicKeyBytes);
    }
    match pk_parse(value) {
        Some(pk) => {
            ctx.public_key = Some(pk);
            m.put(handle, ctx);
            proof {
                assert(m@ =~= old(m)@.insert(handle, m@[handle]));
                lemma_table_wf(old(m)@, m@, handle);
            }
            Ok(())
        },
        None => {
            m.put(handle, ctx);
            proof {
                assert(m@ =~= old(m)@);
            }
            Err(BbsFfiError::BadPublicKeyBytes)
        },
    }
}

/// Sets the nonce to the hash of a byte string.
pub fn bbs_verify_blind_commitment_context_set_nonce_bytes(
    m: &mut HandleMap<VerifyBlindSignProofContext>,
    handle: u64,
    value: &Vec<u8>,
) -> (r: Result<(), BbsFfiError>)
    requires
        old(m).wf(),
        vbsp_ctxs_wf(old(m)@),
    ensures
        final(m).wf(),
        vbsp_ctxs_wf(final(m)@),
        value@.len() == 0 ==> r == Err::<(), BbsFfiError>(BbsFfiError::EmptyNonce) && final(m)@
            == old(m)@,
        value@.len() > 0 && !old(m)@.contains_key(handle) ==> r == Err::<(), BbsFfiError>(
            BbsFfiError::HandleNotFound,
        ) && final(m)@ == old(m)@,
        value@.len() > 0 && old(m)@.contains_key(handle) ==> ({
            &&& r == Ok::<(), BbsFfiError>(())
            &&& entry_updated(old(m)@, final(m)@, handle)
            &&& final(m)@[handle].nonce == Some(hashed_nonce(value@))
            &&& final(m)@[handle].blinded == old(m)@[handle].blinded
            &&& final(m)@[handle].commitment_context == old(m)@[handle].commitment_context
            &&& final(m)@[handle].public_key == old(m)@[handle].public_key
        }),
{
    if value.len() == 0 {
        return Err(BbsFfiError::EmptyNonce);
    }
    let mut ctx = match m.take(handle) {
        Some(c) => c,
        None => {
            return Err(BbsFfiError::HandleNotFound);
        },
    };
    let nonce = nonce_hash(value);
    ctx.nonce = Some(nonce);
    m.put(handle, ctx);
    proof {
        assert(m@ =~= old(m)@.insert(handle, m@[handle]));
        lemma_table_wf(old(m)@, m@, handle);
    }
    Ok(())
}

/// Sets the nonce to the hash of a string's bytes.
pub fn bbs_verify_blind_commitment_context_set_nonce_string(
    m: &mut HandleMap<VerifyBlindSignProofContext>,
    handle: u64,
    value: &str,
) -> (r: Result<(), BbsFfiError>)
    requires
        old(m).wf(),
        vbsp_ctxs_wf(old(m)@),
    ensures
        final(m).wf(),
        vbsp_ctxs_wf(final(m)@),
        value.spec_bytes().len() == 0 ==> r == Err::<(), BbsFfiError>(BbsFfiError::EmptyNonce)
            && final(m)@ == old(m)@,
        value.spec_bytes().len() > 0 && !old(m)@.contains_key(handle) ==> r == Err::<
            (),
            BbsFfiError,
        >(BbsFfiError::HandleNotFound) && final(m)@ == old(m)@,
        value.spec_bytes().len() > 0 && old(m)@.contains_key(handle) ==> ({
            &&& r == Ok::<(), BbsFfiError>(())
            &&& entry_updated(old(m)@, final(m)@, handle)
            &&& final(m)@[handle].nonce == Some(hashed_nonce(value.spec_bytes()))
            &&& final(m)@[handle].blinded == old(m)@[handle].blinded
            &&& final(m)@[handle].commitment_context == old(m)@[handle].commitment_context
            &&& final(m)@[handle].public_key == old(m)@[handle].public_key
        }),
{
    let bytes = vstd::slice::slice_to_vec(value.as_bytes());
    bbs_verify_blind_commitment_context_set_nonce_bytes(m, handle, &bytes)
}

/// Sets the nonce from a serialized field scalar.
pub fn bbs_verify_blind_commitment_context_set_nonce_prehashed(
    m: &mut HandleMap<VerifyBlindSignProofContext>,
    handle: u64,
    value: &Vec<u8>,
) -> (r: Result<(), BbsFfiError>)
    requires
        old(m).wf(),
        vbsp_ctxs_wf(old(m)@),
    ensures
        final(m).wf(),
        vbsp_ctxs_wf(final(m)@),
        value@.len() == 0 ==> r == Err::<(), BbsFfiError>(BbsFfiError::EmptyNonce) && final(m)@
            == old(m)@,
        value@.len() > 0 && !old(m)@.contains_key(handle) ==> r == Err::<(), BbsFfiError>(
            BbsFfiError::HandleNotFound,
        ) && final(m)@ == old(m)@,
        value@.len() > 0 && old(m)@.contains_key(handle) ==> (match nonce_from_bytes(value@) {
            Some(n) => {
                &&& r == Ok::<(), BbsFfiError>(())
                &&& entry_updated(old(m)@, final(m)@, handle)
                &&& final(m)@[handle].nonce == Some(n)
                &&& final(m)@[handle].blinded == old(m)@[handle].blinded
                &&& final(m)@[handle].commitment_context == old(m)@[handle].commitment_context
                &&& final(m)@[handle].public_key == old(m)@[handle].public_key
            },
            None => r == Err::<(), BbsFfiError>(BbsFfiError::BadNonceBytes) && final(m)@ == old(m)@,
        }),
{
    if value.len() == 0 {
        return Err(BbsFfiError::EmptyNonce);
    }
    let mut ctx = match m.take(handle) {
        Some(c) => c,
        None => {
            return Err(BbsFfiError::HandleNotFound);
        },
    };
    match nonce_parse(value) {
        Some(n) => {
            ctx.nonce = Some(n);
            m.put(handle, ctx);
            proof {
                assert(m@ =~= old(m)@.insert(handle, m@[handle]));
                lemma_table_wf(old(m)@, m@, handle);
            }
            Ok(())
        },
        None => {
            m.put(handle, ctx);
            proof {
                assert(m@ =~= old(m)@);
            }
            Err(BbsFfiError::BadNonceBytes)
        },
    }
}

/// Sets the holder's serialized blind-commitment context.
pub fn bbs_verify_blind_commitment_context_set_proof(
    m: &mut HandleMap<VerifyBlindSignProofContext>,
    handle: u64,
    value: &Vec<u8>,
) -> (r: Result<(), BbsFfiError>)
    requires
        old(m).wf(),
        vbsp_ctxs_wf(old(m)@),
    ensures
        final(m).wf(),
        vbsp_ctxs_wf(final(m)@),
        value@.len() == 0 ==> r == Err::<(), BbsFfiError>(BbsFfiError::EmptyProof) && final(m)@
            == old(m)@,
        value@.len() > 0 && !old(m)@.contains_key(handle) ==> r == Err::<(), BbsFfiError>(
            BbsFfiError::HandleNotFound,
        ) && final(m)@ == old(m)@,
        value@.len() > 0 && old(m)@.contains_key(handle) ==> (match bsc_from_bytes(value@) {
            Some(c) => {
                &&& r == Ok::<(), BbsFfiError>(())
                &&& entry_updated(old(m)@, final(m)@, handle)
                &&& final(m)@[handle].commitment_context == Some(c)
                &&& final(m)@[handle].blinded == old(m)@[handle].blinded
                &&& final(m)@[handle].nonce == old(m)@[handle].nonce
                &&& final(m)@[handle].public_key == old(m)@[handle].public_key
            },
            None => r == Err::<(), BbsFfiError>(BbsFfiError::BadProofBytes) && final(m)@ == old(
                m,
            )@,
        }),
{
    if value.len() == 0 {
        return Err(BbsFfiError::EmptyProof);
    }
    let mut ctx = match m.take(handle) {
        Some(c) => c,
        None => {
            return Err(BbsFfiError::HandleNotFound);
        },
    };
    match bsc_parse(value) {
        Some(c) => {
            ctx.commitment_context = Some(c);
            m.put(handle, ctx);
            proof {
                assert(m@ =~= old(m)@.insert(handle, m@[handle]));
                lemma_table_wf(old(m)@, m@, handle);
            }
            Ok(())
        },
        None => {
            m.put(handle, ctx);
            proof {
                assert(m@ =~= old(m)@);
            }
            Err(BbsFfiError::BadProofBytes)
        },
    }
}

/// What a completed blind-commitment verification returns, a pure function
/// of the context: the precondition failures in their fixed order, then the
/// proof checked over the revealed positions.
pub open spec fn verify_blind_commitment_finish_spec(ctx: VerifyBlindSignProofContext) -> Result<
    (),
    BbsFfiError,
> {
    if ctx.blinded@.len() == 0 {
        Err(BbsFfiError::NoBlindedIndices)
    } else if ctx.nonce is None {
        Err(BbsFfiError::NonceNotSet)
    } else if ctx.commitment_context is None {
        Err(BbsFfiError::ProofNotSet)
    } else if ctx.public_key is None {
        Err(BbsFfiError::PublicKeyNotSet)
    } else {
        let pk = ctx.public_key->Some_0;
        let revealed = complement_indices(message_count_of(pk) as nat, ctx.blinded@);
        match bsc_outcome(ctx.commitment_context->Some_0, revealed, pk, ctx.nonce->Some_0) {
            None => Err(BbsFfiError::BadProofBytes),
            Some(true) => Ok(()),
            Some(false) => Err(BbsFfiError::BadHiddenMessagesProof),
        }
    }
}

/// Checks the proof of hidden messages against the positions outside the
/// blinded set. The handle is retired whether verification runs or a
/// precondition fails: a verification context is never reused.
pub fn bbs_verify_blind_commitment_context_finish(
    m: &mut HandleMap<VerifyBlindSignProofContext>,
    handle: u64,
) -> (r: Result<(), BbsFfiError>)
    requires
        old(m).wf(),
        vbsp_ctxs_wf(old(m)@),
    ensures
        final(m).wf(),
        vbsp_ctxs_wf(final(m)@),
        !old(m)@.contains_key(handle) ==> r == Err::<(), BbsFfiError>(BbsFfiError::HandleNotFound)
            && final(m)@ == old(m)@,
        old(m)@.contains_key(handle) ==> final(m)@ == old(m)@.remove(handle) && r
            == verify_blind_commitment_finish_spec(old(m)@[handle]),
{
    let ctx = match m.take(handle) {
        Some(c) => c,
        None => {
            return Err(BbsFfiError::HandleNotFound);
        },
    };
    proof {
        lemma_remove_wf(old(m)@, m@, handle);
    }
    if ctx.blinded.is_empty() {
        return Err(BbsFfiError::NoBlindedIndices);
    }
    let nonce = match &ctx.nonce {
        Some(n) => n,
        None => {
            return Err(BbsFfiError::NonceNotSet);
        },
    };
    let cc = match &ctx.commitment_context {
        Some(c) => c,
        None => {
            return Err(BbsFfiError::ProofNotSet);
        },
    };
    let pk = match &ctx.public_key {
        Some(k) => k,
        None => {
            return Err(BbsFfiError::PublicKeyNotSet);
        },
    };
    let mc = pk_message_count(pk);
    let mut revealed: Vec<usize> = Vec::new();
    let mut i: usize = 0;
    while i < mc
        invariant
            i <= mc,
            revealed@ == complement_indices(i as nat, ctx.blinded@),
        decreases mc - i,
    {
        let ghost before = revealed@;
        if !ctx.blinded.contains(i) {
            revealed.push(i);
        }
        proof {
            if seq_has(ctx.blinded@, i) {
                assert(revealed@ =~= complement_indices((i + 1) as nat, ctx.blinded@));
            } else {
                assert(revealed@ =~= before + seq![i]);
                assert(revealed@ =~= complement_indices((i + 1) as nat, ctx.blinded@));
            }
        }
        i = i + 1;
    }
    match bsc_verify(cc, &revealed, pk, nonce) {
        None => Err(BbsFfiError::BadProofBytes),
        Some(true) => Ok(()),
        Some(false) => Err(BbsFfiError::BadHiddenMessagesProof),
    }
}

/// Releases a blind-commitment verification context without finishing it.
pub fn free_verify_sign_proof(m: &mut HandleMap<VerifyBlindSignProofContext>, handle: u64) -> (r:
    Result<(), BbsFfiError>)
    requires
        old(m).wf(),
        vbsp_ctxs_wf(old(m)@),
    ensures
        final(m).wf(),
        vbsp_ctxs_wf(final(m)@),
        final(m)@ == old(m)@.remove(handle),
        r is Ok <==> old(m)@.contains_key(handle),
        r matches Err(e) ==> e == BbsFfiError::HandleNotFound,
{
    let r = match m.remove(handle) {
        Some(_) => Ok(()),
        None => Err(BbsFfiError::HandleNotFound),
    };
    proof {
        lemma_remove_wf(old(m)@, m@, handle);
    }
    r
}


/// The completeness half of the blind-commitment round trip: a verification
/// context whose proof verifies over the complement of its blinded set - as
/// every output of a successful blind-commitment finish does over the
/// complement of its stored indices - finishes with success.
pub proof fn lemma_commitment_proof_round_trip(ctx: VerifyBlindSignProofContext)
    requires
        ctx.blinded@.len() > 0,
        ctx.nonce is Some,
        ctx.commitment_context is Some,
        ctx.public_key is Some,
        bsc_outcome(
            ctx.commitment_context->Some_0,
            complement_indices(message_count_of(ctx.public_key->Some_0) as nat, ctx.blinded@),
            ctx.public_key->Some_0,
            ctx.nonce->Some_0,
        ) == Some(true),
    ensures
        verify_blind_commitment_finish_spec(ctx) == Ok::<(), BbsFfiError>(()),
{
}

} // verus!
