//! The holder's side of the selective-disclosure protocol: accumulate
//! messages tagged revealed or hidden, set the signature, public key and
//! verifier nonce, and finish into a serialized proof framed as a two-byte
//! big-endian message count, the revealed-index bitvector and the proof
//! body.

use vstd::prelude::*;
use crate::errors::BbsFfiError;
use vstd::string::StringSliceAdditionalSpecFns;
use crate::handles::{HandleMap, entry_updated};
use crate::codec::{bit_set, u16_be_bytes, seq_has};
use crate::bbs_api::{
    hashed_message, message_hash, message_from_bytes, message_parse, pk_from_bytes, pk_parse,
    hashed_nonce, nonce_hash, nonce_from_bytes, nonce_parse, sig_from_bytes, sig_parse,
    message_count_of, pk_message_count, verify_outcome, underlying_message, pm_revealed,
    pm_hidden, pm_hidden_ext, pok_init, pok_to_bytes, pok_gen_proof, pok_proof_to_bytes,
    pok_proof_bytes, nonce_to_bytes, challenge_hash,
};

verus! {

/// The fixed part of a serialized proof: five G1 points, three sub-proof
/// length headers, four response scalars and the two-byte message count.
pub const PROOF_CONTEXT_OVERHEAD: usize = 5 * 48 + 3 * 4 + 4 * 32 + 2;

/// How a message added to a proof context is to be treated.
#[derive(Clone, Copy, PartialEq, Eq, Structural, Debug)]
pub enum ProofMessageType {
    /// The message is disclosed to the verifier.
    Revealed,
    /// The message stays hidden behind blinding drawn for this proof alone.
    HiddenProofSpecificBlinding,
    /// The message stays hidden behind a caller-supplied blinding, so that
    /// several proofs can be linked to the same hidden value.
    HiddenExternalBlinding,
}

/// One message of the vector, tagged with how the proof treats it.
#[derive(Clone, Copy)]
pub enum ProofMessageEntry {
    /// Disclosed to the verifier.
    Revealed(bbs::SignatureMessage),
    /// Hidden behind proof-specific blinding.
    HiddenProofSpecific(bbs::SignatureMessage),
    /// Hidden behind the caller-supplied blinding scalar.
    HiddenExternal(bbs::SignatureMessage, bbs::ProofNonce),
}

/// The message scalar an entry carries.
pub open spec fn entry_message(e: ProofMessageEntry) -> bbs::SignatureMessage {
    match e {
        ProofMessageEntry::Revealed(msg) => msg,
        ProofMessageEntry::HiddenProofSpecific(msg) => msg,
        ProofMessageEntry::HiddenExternal(msg, _) => msg,
    }
}

/// The entry an add operation stores for a given tag, message scalar and
/// blinding-factor bytes.
pub open spec fn built_entry(
    xtype: ProofMessageType,
    msg: bbs::SignatureMessage,
    blinding_factor: Seq<u8>,
) -> ProofMessageEntry {
    match xtype {
        ProofMessageType::Revealed => ProofMessageEntry::Revealed(msg),
        ProofMessageType::HiddenProofSpecificBlinding => ProofMessageEntry::HiddenProofSpecific(
            msg,
        ),
        ProofMessageType::HiddenExternalBlinding => ProofMessageEntry::HiddenExternal(
            msg,
            hashed_nonce(blinding_factor),
        ),
    }
}

/// One in-flight proof-creation operation.
pub struct CreateProofContext {
    /// The signature being proven, once set.
    pub signature: Option<bbs::signature::Signature>,
    /// The public key, once set.
    pub public_key: Option<bbs::keys::PublicKey>,
    /// The tagged messages, in the order they were added.
    pub messages: Vec<ProofMessageEntry>,
    /// The verifier's freshness nonce, once set.
    pub nonce: Option<bbs::ProofNonce>,
}

/// Opens a fresh proof-creation context and returns its handle.
pub fn bbs_create_proof_context_init(m: &mut HandleMap<CreateProofContext>) -> (handle: u64)
    requires
        old(m).wf(),
        old(m).can_insert(),
    ensures
        final(m).wf(),
        !old(m)@.contains_key(handle),
        entry_updated(old(m)@, final(m)@, handle),
        final(m)@[handle].messages@.len() == 0,
        final(m)@[handle].signature is None,
        final(m)@[handle].public_key is None,
        final(m)@[handle].nonce is None,
{
    m.insert(
        CreateProofContext { signature: None, public_key: None, messages: Vec::new(), nonce: None },
    )
}

/// All fields of the two contexts agree except the message vector.
pub open spec fn same_but_messages(a: CreateProofContext, b: CreateProofContext) -> bool {
    &&& a.signature == b.signature
    &&& a.public_key == b.public_key
    &&& a.nonce == b.nonce
}

/// Appends the hash of a byte string as a tagged proof message. A message
/// hidden behind external blinding requires a non-empty blinding factor,
/// which is hashed into the blinding scalar.
pub fn bbs_create_proof_context_add_proof_message_bytes(
    m: &mut HandleMap<CreateProofContext>,
    handle: u64,
    message: &Vec<u8>,
    xtype: ProofMessageType,
    blinding_factor: &Vec<u8>,
) -> (r: Result<(), BbsFfiError>)
    requires
        old(m).wf(),
    ensures
        final(m).wf(),
        message@.len() == 0 ==> r == Err::<(), BbsFfiError>(BbsFfiError::EmptyMessage) && final(m)@
            == old(m)@,
        message@.len() > 0 && xtype == ProofMessageType::HiddenExternalBlinding
            && blinding_factor@.len() == 0 ==> r == Err::<(), BbsFfiError>(BbsFfiError::EmptyBlindingFactor)
            && final(m)@ == old(m)@,
        message@.len() > 0 && (xtype != ProofMessageType::HiddenExternalBlinding
            || blinding_factor@.len() > 0) && !old(m)@.contains_key(handle) ==> r == Err::<
            (),
            BbsFfiError,
        >(BbsFfiError::HandleNotFound) && final(m)@ == old(m)@,
        message@.len() > 0 && (xtype != ProofMessageType::HiddenExternalBlinding
            || blinding_factor@.len() > 0) && old(m)@.contains_key(handle) ==> ({
            &&& r == Ok::<(), BbsFfiError>(())
            &&& entry_updated(old(m)@, final(m)@, handle)
            &&& final(m)@[handle].messages@ == old(m)@[handle].messages@.push(
                built_entry(xtype, hashed_message(message@), blinding_factor@),
            )
            &&& same_but_messages(old(m)@[handle], final(m)@[handle])
        }),
{
    if message.len() == 0 {
        return Err(BbsFfiError::EmptyMessage);
    }
    if matches!(xtype, ProofMessageType::HiddenExternalBlinding) && blinding_factor.len() == 0 {
        return Err(BbsFfiError::EmptyBlindingFactor);
    }
    let mut ctx = match m.take(handle) {
        Some(c) => c,
        None => {
            return Err(BbsFfiError::HandleNotFound);
        },
    };
    let msg = message_hash(message);
    let entry = match xtype {
        ProofMessageType::Revealed => ProofMessageEntry::Revealed(msg),
        ProofMessageType::HiddenProofSpecificBlinding => ProofMessageEntry::HiddenProofSpecific(
            msg,
        ),
        ProofMessageType::HiddenExternalBlinding => ProofMessageEntry::HiddenExternal(
            msg,
            nonce_hash(blinding_factor),
        ),
    };
    ctx.messages.push(entry);
    m.put(handle, ctx);
    proof {
        assert(m@ =~= old(m)@.insert(handle, m@[handle]));
    }
    Ok(())
}

/// Appends the hash of a string's bytes as a tagged proof message.
pub fn bbs_create_proof_context_add_proof_message_string(
    m: &mut HandleMap<CreateProofContext>,
    handle: u64,
    message: &str,
    xtype: ProofMessageType,
    blinding_factor: &Vec<u8>,
) -> (r: Result<(), BbsFfiError>)
    requires
        old(m).wf(),
    ensures
        final(m).wf(),
        message.spec_bytes().len() == 0 ==> r == Err::<(), BbsFfiError>(BbsFfiError::EmptyMessage)
            && final(m)@ == old(m)@,
        message.spec_bytes().len() > 0 && xtype == ProofMessageType::HiddenExternalBlinding
            && blinding_factor@.len() == 0 ==> r == Err::<(), BbsFfiError>(BbsFfiError::EmptyBlindingFactor)
            && final(m)@ == old(m)@,
        message.spec_bytes().len() > 0 && (xtype != ProofMessageType::HiddenExternalBlinding
            || blinding_factor@.len() > 0) && !old(m)@.contains_key(handle) ==> r == Err::<
            (),
            BbsFfiError,
        >(BbsFfiError::HandleNotFound) && final(m)@ == old(m)@,
        message.spec_bytes().len() > 0 && (xtype != ProofMessageType::HiddenExternalBlinding
            || blinding_factor@.len() > 0) && old(m)@.contains_key(handle) ==> ({
            &&& r == Ok::<(), BbsFfiError>(())
            &&& entry_updated(old(m)@, final(m)@, handle)
            &&& final(m)@[handle].messages@ == old(m)@[handle].messages@.push(
                built_entry(xtype, hashed_message(message.spec_bytes()), blinding_factor@),
            )
            &&& same_but_messages(old(m)@[handle], final(m)@[handle])
        }),
{
    let bytes = vstd::slice::slice_to_vec(message.as_bytes());
    bbs_create_proof_context_add_proof_message_bytes(m, handle, &bytes, xtype, blinding_factor)
}

/// Appends a prehashed message, given as a serialized field scalar, as a
/// tagged proof message.
pub fn bbs_create_proof_context_add_proof_message_prehashed(
    m: &mut HandleMap<CreateProofContext>,
    handle: u64,
    message: &Vec<u8>,
    xtype: ProofMessageType,
    blinding_factor: &Vec<u8>,
) -> (r: Result<(), BbsFfiError>)
    requires
        old(m).wf(),
    ensures
        final(m).wf(),
        message@.len() == 0 ==> r == Err::<(), BbsFfiError>(BbsFfiError::EmptyMessage) && final(m)@
            == old(m)@,
        message@.len() > 0 && xtype == ProofMessageType::HiddenExternalBlinding
            && blinding_factor@.len() == 0 ==> r == Err::<(), BbsFfiError>(BbsFfiError::EmptyBlindingFactor)
            && final(m)@ == old(m)@,
        message@.len() > 0 && (xtype != ProofMessageType::HiddenExternalBlinding
            || blinding_factor@.len() > 0) && !old(m)@.contains_key(handle) ==> r == Err::<
            (),
            BbsFfiError,
        >(BbsFfiError::HandleNotFound) && final(m)@ == old(m)@,
        message@.len() > 0 && (xtype != ProofMessageType::HiddenExternalBlinding
            || blinding_factor@.len() > 0) && old(m)@.contains_key(handle) ==> (
        match message_from_bytes(message@) {
            Some(msg) => {
                &&& r == Ok::<(), BbsFfiError>(())
                &&& entry_updated(old(m)@, final(m)@, handle)
                &&& final(m)@[handle].messages@ == old(m)@[handle].messages@.push(
                    built_entry(xtype, msg, blinding_factor@),
                )
                &&& same_but_messages(old(m)@[handle], final(m)@[handle])
            },
            None => r == Err::<(), BbsFfiError>(BbsFfiError::BadMessageBytes) && final(m)@ == old(
                m,
            )@,
        }),
{
    if message.len() == 0 {
        return Err(BbsFfiError::EmptyMessage);
    }
    if matches!(xtype, ProofMessageType::HiddenExternalBlinding) && blinding_factor.len() == 0 {
        return Err(BbsFfiError::EmptyBlindingFactor);
    }
    let mut ctx = match m.take(handle) {
        Some(c) => c,
        None => {
            return Err(BbsFfiError::HandleNotFound);
        },
    };
    match message_parse(message) {
        Some(msg) => {
            let entry = match xtype {
                ProofMessageType::Revealed => ProofMessageEntry::Revealed(msg),
                ProofMessageType::HiddenProofSpecificBlinding => {
                    ProofMessageEntry::HiddenProofSpecific(msg)
                },
                ProofMessageType::HiddenExternalBlinding => ProofMessageEntry::HiddenExternal(
                    msg,
                    nonce_hash(blinding_factor),
                ),
            };
            ctx.messages.push(entry);
            m.put(handle, ctx);
            proof {
                assert(m@ =~= old(m)@.insert(handle, m@[handle]));
            }
            Ok(())
        },
        None => {
            m.put(handle, ctx);
            proof {
                assert(m@ =~= old(m)@);
            }
            Err(BbsFfiError::BadMessageBytes)
        },
    }
}

/// Sets the signature being proven from its serialized bytes.
pub fn bbs_create_proof_context_set_signature(
    m: &mut HandleMap<CreateProofContext>,
    handle: u64,
    value: &Vec<u8>,
) -> (r: Result<(), BbsFfiError>)
    requires
        old(m).wf(),
    ensures
        final(m).wf(),
        value@.len() == 0 ==> r == Err::<(), BbsFfiError>(BbsFfiError::EmptySignature) && final(m)@
            == old(m)@,
        value@.len() > 0 && !old(m)@.contains_key(handle) ==> r == Err::<(), BbsFfiError>(
            BbsFfiError::HandleNotFound,
        ) && final(m)@ == old(m)@,
        value@.len() > 0 && old(m)@.contains_key(handle) ==> (match sig_from_bytes(value@) {
            Some(sig) => {
                &&& r == Ok::<(), BbsFfiError>(())
                &&& entry_updated(old(m)@, final(m)@, handle)
                &&& final(m)@[handle].signature == Some(sig)
                &&& final(m)@[handle].messages == old(m)@[handle].messages
                &&& final(m)@[handle].public_key == old(m)@[handle].public_key
                &&& final(m)@[handle].nonce == old(m)@[handle].nonce
            },
            None => r == Err::<(), BbsFfiError>(BbsFfiError::BadSignatureBytes) && final(m)@ == old(
                m,
            )@,
        }),
{
    if value.len() == 0 {
        return Err(BbsFfiError::EmptySignature);
    }
    let mut ctx = match m.take(handle) {
        Some(c) => c,
        None => {
            return Err(BbsFfiError::HandleNotFound);
        },
    };
    match sig_parse(value) {
        Some(sig) => {
            ctx.signature = Some(sig);
            m.put(handle, ctx);
            proof {
                assert(m@ =~= old(m)@.insert(handle, m@[handle]));
            }
            Ok(())
        },
        None => {
            m.put(handle, ctx);
            proof {
                assert(m@ =~= old(m)@);
            }
            Err(BbsFfiError::BadSignatureBytes)
        },
    }
}

/// Sets the public key from its serialized bytes.
pub fn bbs_create_proof_context_set_public_key(
    m: &mut HandleMap<CreateProofContext>,
    handle: u64,
    value: &Vec<u8>,
) -> (r: Result<(), BbsFfiError>)
    requires
        old(m).wf(),
    ensures
        final(m).wf(),
        value@.len() < 4 ==> r == Err::<(), BbsFfiError>(
            if value@.len() == 0 {
                BbsFfiError::EmptyPublicKey
            } else {
                BbsFfiError::BadPublicKeyBytes
            },
        ) && final(m)@ == old(m)@,
        value@.len() >= 4 && !old(m)@.contains_key(handle) ==> r == Err::<(), BbsFfiError>(
            BbsFfiError::HandleNotFound,
        ) && final(m)@ == old(m)@,
        value@.len() >= 4 && old(m)@.contains_key(handle) ==> (match pk_from_bytes(value@) {
            Some(pk) => {
                &&& r == Ok::<(), BbsFfiError>(())
                &&& entry_updated(old(m)@, final(m)@, handle)
                &&& final(m)@[handle].public_key == Some(pk)
                &&& final(m)@[handle].messages == old(m)@[handle].messages
                &&& final(m)@[handle].signature == old(m)@[handle].signature
                &&& final(m)@[handle].nonce == old(m)@[handle].nonce
            },
            None => r == Err::<(), BbsFfiError>(BbsFfiError::BadPublicKeyBytes) && final(m)@ == old(
                m,
            )@,
        }),
{
    if value.len() == 0 {
        return Err(BbsFfiError::EmptyPublicKey);
    }
    if value.len() < 4 {
        return Err(BbsFfiError::BadPublicKeyBytes);
    }
    let mut ctx = match m.take(handle) {
        Some(c) => c,
        None => {
            return Err(BbsFfiError::HandleNotFound);
        },
    };
    match pk_parse(value) {
        Some(pk) => {
            ctx.public_key = Some(pk);
            m.put(handle, ctx);
            proof {
                assert(m@ =~= old(m)@.insert(handle, m@[handle]));
            }
            Ok(())
        },
        None => {
            m.put(handle, ctx);
            proof {
                assert(m@ =~= old(m)@);
            }
            Err(BbsFfiError::BadPublicKeyBytes)
        },
    }
}

/// Sets the verifier nonce to the hash of a byte string.
pub fn bbs_create_proof_context_set_nonce_bytes(
    m: &mut HandleMap<CreateProofContext>,
    handle: u64,
    value: &Vec<u8>,
) -> (r: Result<(), BbsFfiError>)
    requires
        old(m).wf(),
    ensures
        final(m).wf(),
        value@.len() == 0 ==> r == Err::<(), BbsFfiError>(BbsFfiError::EmptyNonce) && final(m)@
            == old(m)@,
        value@.len() > 0 && !old(m)@.contains_key(handle) ==> r == Err::<(), BbsFfiError>(
            BbsFfiError::HandleNotFound,
        ) && final(m)@ == old(m)@,
        value@.len() > 0 && old(m)@.contains_key(handle) ==> ({
            &&& r == Ok::<(), BbsFfiError>(())
            &&& entry_updated(old(m)@, final(m)@, handle)
            &&& final(m)@[handle].nonce == Some(hashed_nonce(value@))
            &&& final(m)@[handle].messages == old(m)@[handle].messages
            &&& final(m)@[handle].signature == old(m)@[handle].signature
            &&& final(m)@[handle].public_key == old(m)@[handle].public_key
        }),
{
    if value.len() == 0 {
        return Err(BbsFfiError::EmptyNonce);
    }
    let mut ctx = match m.take(handle) {
        Some(c) => c,
        None => {
            return Err(BbsFfiError::HandleNotFound);
        },
    };
    let nonce = nonce_hash(value);
    ctx.nonce = Some(nonce);
    m.put(handle, ctx);
    proof {
        assert(m@ =~= old(m)@.insert(handle, m@[handle]));
    }
    Ok(())
}

/// Sets the verifier nonce to the hash of a string's bytes.
pub fn bbs_create_proof_context_set_nonce_string(
    m: &mut HandleMap<CreateProofContext>,
    handle: u64,
    value: &str,
) -> (r: Result<(), BbsFfiError>)
    requires
        old(m).wf(),
    ensures
        final(m).wf(),
        value.spec_bytes().len() == 0 ==> r == Err::<(), BbsFfiError>(BbsFfiError::EmptyNonce)
            && final(m)@ == old(m)@,
        value.spec_bytes().len() > 0 && !old(m)@.contains_key(handle) ==> r == Err::<
            (),
            BbsFfiError,
        >(BbsFfiError::HandleNotFound) && final(m)@ == old(m)@,
        value.spec_bytes().len() > 0 && old(m)@.contains_key(handle) ==> ({
            &&& r == Ok::<(), BbsFfiError>(())
            &&& entry_updated(old(m)@, final(m)@, handle)
            &&& final(m)@[handle].nonce == Some(hashed_nonce(value.spec_bytes()))
            &&& final(m)@[handle].messages == old(m)@[handle].messages
            &&& final(m)@[handle].signature == old(m)@[handle].signature
            &&& final(m)@[handle].public_key == old(m)@[handle].public_key
        }),
{
    let bytes = vstd::slice::slice_to_vec(value.as_bytes());
    bbs_create_proof_context_set_nonce_bytes(m, handle, &bytes)
}

/// Sets the verifier nonce from a serialized field scalar.
pub fn bbs_create_proof_context_set_nonce_prehashed(
    m: &mut HandleMap<CreateProofContext>,
    handle: u64,
    value: &Vec<u8>,
) -> (r: Result<(), BbsFfiError>)
    requires
        old(m).wf(),
    ensures
        final(m).wf(),
        value@.len() == 0 ==> r == Err::<(), BbsFfiError>(BbsFfiError::EmptyNonce) && final(m)@
            == old(m)@,
        value@.len() > 0 && !old(m)@.contains_key(handle) ==> r == Err::<(), BbsFfiError>(
            BbsFfiError::HandleNotFound,
        ) && final(m)@ == old(m)@,
        value@.len() > 0 && old(m)@.contains_key(handle) ==> (match nonce_from_bytes(value@) {
            Some(n) => {
                &&& r == Ok::<(), BbsFfiError>(())
                &&& entry_updated(old(m)@, final(m)@, handle)
                &&& final(m)@[handle].nonce == Some(n)
                &&& final(m)@[handle].messages == old(m)@[handle].messages
                &&& final(m)@[handle].signature == old(m)@[handle].signature
                &&& final(m)@[handle].public_key == old(m)@[handle].public_key
            },
            None => r == Err::<(), BbsFfiError>(BbsFfiError::BadNonceBytes) && final(m)@ == old(m)@,
        }),
{
    if value.len() == 0 {
        return Err(BbsFfiError::EmptyNonce);
    }
    let mut ctx = match m.take(handle) {
        Some(c) => c,
        None => {
            return Err(BbsFfiError::HandleNotFound);
        },
    };
    match nonce_parse(value) {
        Some(n) => {
            ctx.nonce = Some(n);
            m.put(handle, ctx);
            proof {
                assert(m@ =~= old(m)@.insert(handle, m@[handle]));
            }
            Ok(())
        },
        None => {
            m.put(handle, ctx);
            proof {
                assert(m@ =~= old(m)@);
            }
            Err(BbsFfiError::BadNonceBytes)
        },
    }
}

/// How many of the entries are hidden.
pub open spec fn hidden_count(s: Seq<ProofMessageEntry>) -> nat
    decreases s.len(),
{
    if s.len() == 0 {
        0
    } else {
        hidden_count(s.drop_last()) + (if s.last() is Revealed {
            0nat
        } else {
            1nat
        })
    }
}

/// The predicted size in bytes of the proof this context will produce: the
/// fixed overhead plus 32 bytes per hidden message plus the bitvector,
/// saturating at the machine's limit.
pub open spec fn proof_context_size_spec(entries: Seq<ProofMessageEntry>) -> int {
    let raw = PROOF_CONTEXT_OVERHEAD + 32 * hidden_count(entries) + entries.len() / 8 + 1;
    if raw > usize::MAX {
        usize::MAX as int
    } else {
        raw
    }
}

/// Predicts the byte size of the proof before finishing, so callers may
/// preallocate buffers.
pub fn bbs_create_proof_context_size(m: &HandleMap<CreateProofContext>, handle: u64) -> (r: Result<
    usize,
    BbsFfiError,
>)
    ensures
        !m@.contains_key(handle) ==> r == Err::<usize, BbsFfiError>(BbsFfiError::HandleNotFound),
        m@.contains_key(handle) ==> r == Ok::<usize, BbsFfiError>(
            proof_context_size_spec(m@[handle].messages@) as usize,
        ),
{
    let ctx = match m.get(handle) {
        Some(c) => c,
        None => {
            return Err(BbsFfiError::HandleNotFound);
        },
    };
    let n = ctx.messages.len();
    let mut hidden: usize = 0;
    let mut i: usize = 0;
    while i < n
        invariant
            i <= n,
            n == ctx.messages@.len(),
            hidden == hidden_count(ctx.messages@.subrange(0, i as int)),
            hidden <= i,
        decreases n - i,
    {
        let is_hidden = match ctx.messages[i] {
            ProofMessageEntry::Revealed(_) => false,
            ProofMessageEntry::HiddenProofSpecific(_) => true,
            ProofMessageEntry::HiddenExternal(_, _) => true,
        };
        proof {
            let pre = ctx.messages@.subrange(0, i as int);
            let cur = ctx.messages@.subrange(0, i + 1);
            assert(cur.drop_last() =~= pre);
            assert(cur.last() == ctx.messages@[i as int]);
        }
        if is_hidden {
            hidden = hidden + 1;
        }
        i = i + 1;
    }
    proof {
        assert(ctx.messages@.subrange(0, n as int) =~= ctx.messages@);
    }
    let raw: u128 = (PROOF_CONTEXT_OVERHEAD as u128) + 32u128 * (hidden as u128) + ((n / 8) as u128)
        + 1u128;
    if raw > (usize::MAX as u128) {
        Ok(usize::MAX)
    } else {
        Ok(raw as usize)
    }
}

/// The named precondition failure a proof-creation finish reports, if any:
/// the signature, the public key, the nonce and at least one message are
/// required, in that order; the message count must match the key and be
/// representable in the two-byte header; and the signature must verify over
/// the underlying messages.
pub open spec fn create_proof_checks(ctx: CreateProofContext) -> Option<BbsFfiError> {
    if ctx.signature is None {
        Some(BbsFfiError::SignatureNotSet)
    } else if ctx.public_key is None {
        Some(BbsFfiError::PublicKeyNotSet)
    } else if ctx.nonce is None {
        Some(BbsFfiError::NonceNotSet)
    } else if ctx.messages@.len() == 0 {
        Some(BbsFfiError::NoMessages)
    } else if ctx.messages@.len() != message_count_of(ctx.public_key->Some_0) {
        Some(BbsFfiError::MessageCountMismatch)
    } else if ctx.messages@.len() > u16::MAX {
        Some(BbsFfiError::MessageCountMismatch)
    } else if !verify_outcome(
        ctx.signature->Some_0,
        ctx.messages@.map_values(|e: ProofMessageEntry| entry_message(e)),
        ctx.public_key->Some_0,
    ) {
        Some(BbsFfiError::MessagesSignatureMismatch)
    } else {
        None
    }
}

/// The bitvector marks exactly the positions of the revealed entries.
pub open spec fn proof_bitvector_ok(bv: Seq<u8>, entries: Seq<ProofMessageEntry>) -> bool {
    &&& bv.len() == entries.len() / 8 + 1
    &&& forall|k: int, b: u8|
        0 <= k < bv.len() && b < 8 ==> (#[trigger] bit_set(bv[bv.len() - 1 - k], b) <==> (8 * k + b
            < entries.len() && entries[8 * k + b] is Revealed))
}

/// A successful proof is framed as the two-byte big-endian message count,
/// the revealed-index bitvector and the serialized proof body.
pub open spec fn proof_output_ok(out: Seq<u8>, entries: Seq<ProofMessageEntry>) -> bool {
    let bv_len = (entries.len() / 8 + 1) as int;
    &&& out.len() >= 2 + bv_len + 148
    &&& out.subrange(0, 2) == u16_be_bytes(entries.len() as u16)
    &&& proof_bitvector_ok(out.subrange(2, 2 + bv_len), entries)
    &&& exists|p: bbs::pok_sig::PoKOfSignatureProof|
        out.subrange(2 + bv_len, out.len() as int) == pok_proof_bytes(p)
}

/// Creates the selective-disclosure proof and retires the handle. The proof
/// randomizes the signature with fresh blinding, so its body is not a
/// function of the context; the recomputable frame (count header and
/// bitvector) is exact and the tail always serializes a proof, and a test
/// must check the round trip through verification.
pub fn bbs_create_proof_context_finish(m: &mut HandleMap<CreateProofContext>, handle: u64) -> (r:
    Result<Vec<u8>, BbsFfiError>)
    requires
        old(m).wf(),
    ensures
        final(m).wf(),
        !old(m)@.contains_key(handle) ==> r == Err::<Vec<u8>, BbsFfiError>(
            BbsFfiError::HandleNotFound,
        ) && final(m)@ == old(m)@,
        old(m)@.contains_key(handle) ==> (match create_proof_checks(old(m)@[handle]) {
            Some(e) => r == Err::<Vec<u8>, BbsFfiError>(e) && final(m)@ == old(m)@,
            None => {
                &&& final(m)@ == old(m)@.remove(handle)
                &&& r matches Ok(v) && proof_output_ok(v@, old(m)@[handle].messages@)
            },
        }),
{
    let ctx = match m.take(handle) {
        Some(c) => c,
        None => {
            return Err(BbsFfiError::HandleNotFound);
        },
    };
    let sig = match &ctx.signature {
        Some(s) => s,
        None => {
            m.put(handle, ctx);
            proof {
                assert(m@ =~= old(m)@);
            }
            return Err(BbsFfiError::SignatureNotSet);
        },
    };
    let pk = match &ctx.public_key {
        Some(k) => k,
        None => {
            m.put(handle, ctx);
            proof {
                assert(m@ =~= old(m)@);
            }
            return Err(BbsFfiError::PublicKeyNotSet);
        },
    };
    let nonce = match &ctx.nonce {
        Some(n) => n,
        None => {
            m.put(handle, ctx);
            proof {
                assert(m@ =~= old(m)@);
            }
            return Err(BbsFfiError::NonceNotSet);
        },
    };
    let total = ctx.messages.len();
    if total == 0 {
        m.put(handle, ctx);
        proof {
            assert(m@ =~= old(m)@);
        }
        return Err(BbsFfiError::NoMessages);
    }
    if total != pk_message_count(pk) || total > 65535 {
        m.put(handle, ctx);
        proof {
            assert(m@ =~= old(m)@);
        }
        return Err(BbsFfiError::MessageCountMismatch);
    }
    // turn the tagged entries into the curve library's proof messages
    let mut pms: Vec<bbs::messages::ProofMessage> = Vec::new();
    let mut i: usize = 0;
    while i < total
        invariant
            i <= total,
            total == ctx.messages@.len(),
            pms@.len() == i,
            forall|t: int|
                0 <= t < i ==> underlying_message(#[trigger] pms@[t]) == entry_message(
                    ctx.messages@[t],
                ),
        decreases total - i,
    {
        let pm = match ctx.messages[i] {
            ProofMessageEntry::Revealed(msg) => pm_revealed(msg),
            ProofMessageEntry::HiddenProofSpecific(msg) => pm_hidden(msg),
            ProofMessageEntry::HiddenExternal(msg, blinding) => pm_hidden_ext(msg, blinding),
        };
        pms.push(pm);
        i = i + 1;
    }
    proof {
        assert(pms@.map_values(|pm: bbs::messages::ProofMessage| underlying_message(pm))
            =~= ctx.messages@.map_values(|e: ProofMessageEntry| entry_message(e)));
    }
    let pok = match pok_init(sig, pk, &pms) {
        Some(p) => p,
        None => {
            m.put(handle, ctx);
            proof {
                assert(m@ =~= old(m)@);
            }
            return Err(BbsFfiError::MessagesSignatureMismatch);
        },
    };
    let nonce_bytes_vec = nonce_to_bytes(nonce);
    let pok_bytes_vec = pok_to_bytes(&pok);
    let challenge_input = crate::codec::concat_bytes(&pok_bytes_vec, &nonce_bytes_vec);
    let challenge = challenge_hash(&challenge_input);
    // collect the revealed positions in ascending order
    let mut revealed: Vec<usize> = Vec::new();
    let mut j: usize = 0;
    while j < total
        invariant
            j <= total,
            total == ctx.messages@.len(),
            total <= 65535,
            forall|p: usize| seq_has(revealed@, p) <==> (p < j && ctx.messages@[p as int]
                is Revealed),
            forall|a: int| 0 <= a < revealed@.len() ==> #[trigger] revealed@[a] < j,
        decreases total - j,
    {
        let ghost rev0 = revealed@;
        let is_revealed = match ctx.messages[j] {
            ProofMessageEntry::Revealed(_) => true,
            _ => false,
        };
        if is_revealed {
            revealed.push(j);
        }
        proof {
            assert forall|p: usize| seq_has(revealed@, p) implies (p < j + 1 && ctx.messages@[p as int]
                is Revealed) by {
                let w = choose|w: int| 0 <= w < revealed@.len() && revealed@[w] == p;
                if w < rev0.len() {
                    assert(rev0[w] == p);
                    assert(seq_has(rev0, p));
                } else {
                    assert(p == j);
                }
            }
            assert forall|p: usize| (p < j + 1 && ctx.messages@[p as int] is Revealed) implies
                seq_has(revealed@, p) by {
                if p < j {
                    assert(seq_has(rev0, p));
                    let w = choose|w: int| 0 <= w < rev0.len() && rev0[w] == p;
                    assert(revealed@[w] == p);
                } else {
                    assert(p == j);
                    assert(is_revealed);
                    assert(revealed@[revealed@.len() - 1] == p);
                }
            }
        }
        j = j + 1;
    }
    proof {
        assert forall|t: int| 0 <= t < revealed@.len() implies #[trigger] revealed@[t] < 8 * (total
            / 8 + 1) by {
            assert(revealed@[t] < total);
            assert(total <= 8 * (total / 8) + 7);
        }
    }
    let bv = crate::codec::revealed_to_bitvector(total, &revealed);
    let proof_obj = match pok_gen_proof(pok, &challenge) {
        Some(p) => p,
        None => {
            // unreachable: a transcript from a successful init yields a
            // proof for every challenge
            proof {
                assert(false);
            }
            return Err(BbsFfiError::MessageCountMismatch);
        },
    };
    let proof_body = pok_proof_to_bytes(&proof_obj);
    let header = crate::codec::be_u16_to_bytes(total as u16);
    let framed = crate::codec::concat_bytes(&header, &bv);
    let out = crate::codec::concat_bytes(&framed, &proof_body);
    proof {
        let entries = ctx.messages@;
        let bv_len = (entries.len() / 8 + 1) as int;
        assert(out@.subrange(0, 2) =~= header@);
        assert(out@.subrange(2, 2 + bv_len) =~= bv@);
        assert(out@.subrange(2 + bv_len, out@.len() as int) =~= proof_body@);
        assert(out@.subrange(2 + bv_len, out@.len() as int) == pok_proof_bytes(proof_obj));
        assert(total as u16 == entries.len());
        assert forall|k: int, b: u8| 0 <= k < bv@.len() && b < 8 implies (#[trigger] bit_set(
            bv@[bv@.len() - 1 - k],
            b,
        ) <==> (8 * k + b < entries.len() && entries[8 * k + b] is Revealed)) by {
            assert(bit_set(bv@[bv@.len() - 1 - k], b) <==> seq_has(
                revealed@,
                (8 * k + b) as usize,
            ));
        }
    }
    Ok(out)
}

/// Releases a proof-creation context without finishing it.
pub fn free_create_proof(m: &mut HandleMap<CreateProofContext>, handle: u64) -> (r: Result<
    (),
    BbsFfiError,
>)
    requires
        old(m).wf(),
    ensures
        final(m).wf(),
        final(m)@ == old(m)@.remove(handle),
        r is Ok <==> old(m)@.contains_key(handle),
        r matches Err(e) ==> e == BbsFfiError::HandleNotFound,
{
    match m.remove(handle) {
        Some(_) => Ok(()),
        None => Err(BbsFfiError::HandleNotFound),
    }
}

} // verus!
