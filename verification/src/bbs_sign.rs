//! The signing and verification contexts: accumulate messages, a key pair
//! and (for verification) a signature across calls, then perform the one
//! cryptographic operation at finish. Missing fields are reported as named
//! precondition failures in a fixed order, never silently defaulted.

use vstd::prelude::*;
use crate::errors::BbsFfiError;
use vstd::string::StringSliceAdditionalSpecFns;
use crate::handles::{HandleMap, entry_updated};
use crate::bbs_api::{
    hashed_message, message_hash, message_from_bytes, message_parse, sk_from_bytes, sk_parse,
    pk_from_bytes, pk_parse, sig_from_bytes, sig_parse, message_count_of, pk_message_count,
    verify_outcome, sig_verify, sig_new, sig_bytes, sig_to_bytes,
};

verus! {

/// One in-flight signing or verification operation.
pub struct SignContext {
    /// The accumulated messages, in the order they were added.
    pub messages: Vec<bbs::SignatureMessage>,
    /// The signing key, once set.
    pub secret_key: Option<bbs::keys::SecretKey>,
    /// The public key, once set.
    pub public_key: Option<bbs::keys::PublicKey>,
    /// The signature to verify, once set.
    pub signature: Option<bbs::signature::Signature>,
}

/// The byte length of a serialized signature.
pub fn bbs_signature_size() -> (r: i32)
    ensures
        r == crate::SIGNATURE_COMPRESSED_SIZE,
{
    112
}

/// Opens a fresh signing context and returns its handle.
pub fn bbs_sign_context_init(m: &mut HandleMap<SignContext>) -> (handle: u64)
    requires
        old(m).wf(),
        old(m).can_insert(),
    ensures
        final(m).wf(),
        !old(m)@.contains_key(handle),
        entry_updated(old(m)@, final(m)@, handle),
        final(m)@[handle].messages@.len() == 0,
        final(m)@[handle].secret_key is None,
        final(m)@[handle].public_key is None,
        final(m)@[handle].signature is None,
{
    m.insert(
        SignContext {
            messages: Vec::new(),
            secret_key: None,
            public_key: None,
            signature: None,
        },
    )
}

/// All fields of the two contexts agree except the message vector.
pub open spec fn same_but_messages(a: SignContext, b: SignContext) -> bool {
    &&& a.secret_key == b.secret_key
    &&& a.public_key == b.public_key
    &&& a.signature == b.signature
}

/// Appends the hash of a byte string to the context's messages.
pub fn bbs_sign_context_add_message_bytes(
    m: &mut HandleMap<SignContext>,
    handle: u64,
    message: &Vec<u8>,
) -> (r: Result<(), BbsFfiError>)
    requires
        old(m).wf(),
    ensures
        final(m).wf(),
        message@.len() == 0 ==> r == Err::<(), BbsFfiError>(BbsFfiError::EmptyMessage) && final(m)@
            == old(m)@,
        message@.len() > 0 && !old(m)@.contains_key(handle) ==> r == Err::<(), BbsFfiError>(
            BbsFfiError::HandleNotFound,
        ) && final(m)@ == old(m)@,
        message@.len() > 0 && old(m)@.contains_key(handle) ==> ({
            &&& r == Ok::<(), BbsFfiError>(())
            &&& entry_updated(old(m)@, final(m)@, handle)
            &&& final(m)@[handle].messages@ == old(m)@[handle].messages@.push(
                hashed_message(message@),
            )
            &&& same_but_messages(old(m)@[handle], final(m)@[handle])
        }),
{
    if message.len() == 0 {
        return Err(BbsFfiError::EmptyMessage);
    }
    let mut ctx = match m.take(handle) {
        Some(c) => c,
        None => {
            return Err(BbsFfiError::HandleNotFound);
        },
    };
    let msg = message_hash(message);
    ctx.messages.push(msg);
    m.put(handle, ctx);
    proof {
        assert(m@ =~= old(m)@.insert(handle, m@[handle]));
    }
    Ok(())
}

/// Appends the hash of a string's bytes to the context's messages.
pub fn bbs_sign_context_add_message_string(
    m: &mut HandleMap<SignContext>,
    handle: u64,
    message: &str,
) -> (r: Result<(), BbsFfiError>)
    requires
        old(m).wf(),
    ensures
        final(m).wf(),
        message.spec_bytes().len() == 0 ==> r == Err::<(), BbsFfiError>(BbsFfiError::EmptyMessage)
            && final(m)@ == old(m)@,
        message.spec_bytes().len() > 0 && !old(m)@.contains_key(handle) ==> r == Err::<
            (),
            BbsFfiError,
        >(BbsFfiError::HandleNotFound) && final(m)@ == old(m)@,
        message.spec_bytes().len() > 0 && old(m)@.contains_key(handle) ==> ({
            &&& r == Ok::<(), BbsFfiError>(())
            &&& entry_updated(old(m)@, final(m)@, handle)
            &&& final(m)@[handle].messages@ == old(m)@[handle].messages@.push(
                hashed_message(message.spec_bytes()),
            )
            &&& same_but_messages(old(m)@[handle], final(m)@[handle])
        }),
{
    let bytes = vstd::slice::slice_to_vec(message.as_bytes());
    bbs_sign_context_add_message_bytes(m, handle, &bytes)
}

/// Appends a prehashed message, given as a serialized field scalar, to the
/// context's messages.
pub fn bbs_sign_context_add_message_prehashed(
    m: &mut HandleMap<SignContext>,
    handle: u64,
    message: &Vec<u8>,
) -> (r: Result<(), BbsFfiError>)
    requires
        old(m).wf(),
    ensures
        final(m).wf(),
        message@.len() == 0 ==> r == Err::<(), BbsFfiError>(BbsFfiError::EmptyMessage) && final(m)@
            == old(m)@,
        message@.len() > 0 && !old(m)@.contains_key(handle) ==> r == Err::<(), BbsFfiError>(
            BbsFfiError::HandleNotFound,
        ) && final(m)@ == old(m)@,
        message@.len() > 0 && old(m)@.contains_key(handle) ==> (
        match message_from_bytes(message@) {
            Some(msg) => {
                &&& r == Ok::<(), BbsFfiError>(())
                &&& entry_updated(old(m)@, final(m)@, handle)
                &&& final(m)@[handle].messages@ == old(m)@[handle].messages@.push(msg)
                &&& same_but_messages(old(m)@[handle], final(m)@[handle])
            },
            None => r == Err::<(), BbsFfiError>(BbsFfiError::BadMessageBytes) && final(m)@ == old(
                m,
            )@,
        }),
{
    if message.len() == 0 {
        return Err(BbsFfiError::EmptyMessage);
    }
    let mut ctx = match m.take(handle) {
        Some(c) => c,
        None => {
            return Err(BbsFfiError::HandleNotFound);
        },
    };
    match message_parse(message) {
        Some(msg) => {
            ctx.messages.push(msg);
            m.put(handle, ctx);
            proof {
                assert(m@ =~= old(m)@.insert(handle, m@[handle]));
            }
            Ok(())
        },
        None => {
            m.put(handle, ctx);
            proof {
                assert(m@ =~= old(m)@);
            }
            Err(BbsFfiError::BadMessageBytes)
        },
    }
}

/// Sets the signing key from its serialized bytes.
pub fn bbs_sign_context_set_secret_key(
    m: &mut HandleMap<SignContext>,
    handle: u64,
    value: &Vec<u8>,
) -> (r: Result<(), BbsFfiError>)
    requires
        old(m).wf(),
    ensures
        final(m).wf(),
        value@.len() == 0 ==> r == Err::<(), BbsFfiError>(BbsFfiError::EmptySecretKey) && final(m)@
            == old(m)@,
        value@.len() > 0 && !old(m)@.contains_key(handle) ==> r == Err::<(), BbsFfiError>(
            BbsFfiError::HandleNotFound,
        ) && final(m)@ == old(m)@,
        value@.len() > 0 && old(m)@.contains_key(handle) ==> (match sk_from_bytes(value@) {
            Some(sk) => {
                &&& r == Ok::<(), BbsFfiError>(())
                &&& entry_updated(old(m)@, final(m)@, handle)
                &&& final(m)@[handle].secret_key == Some(sk)
                &&& final(m)@[handle].messages == old(m)@[handle].messages
                &&& final(m)@[handle].public_key == old(m)@[handle].public_key
                &&& final(m)@[handle].signature == old(m)@[handle].signature
            },
            None => r == Err::<(), BbsFfiError>(BbsFfiError::BadSecretKeyBytes) && final(m)@ == old(
                m,
            )@,
        }),
{
    if value.len() == 0 {
        return Err(BbsFfiError::EmptySecretKey);
    }
    let mut ctx = match m.take(handle) {
        Some(c) => c,
        None => {
            return Err(BbsFfiError::HandleNotFound);
        },
    };
    match sk_parse(value) {
        Some(sk) => {
            ctx.secret_key = Some(sk);
            m.put(handle, ctx);
            proof {
                assert(m@ =~= old(m)@.insert(handle, m@[handle]));
            }
            Ok(())
        },
        None => {
            m.put(handle, ctx);
            proof {
                assert(m@ =~= old(m)@);
            }
            Err(BbsFfiError::BadSecretKeyBytes)
        },
    }
}

/// Sets the public key from its serialized bytes.
pub fn bbs_sign_context_set_public_key(
    m: &mut HandleMap<SignContext>,
    handle: u64,
    value: &Vec<u8>,
) -> (r: Result<(), BbsFfiError>)
    requires
        old(m).wf(),
    ensures
        final(m).wf(),
        value@.len() == 0 ==> r == Err::<(), BbsFfiError>(BbsFfiError::EmptyPublicKey) && final(m)@
            == old(m)@,
        value@.len() > 0 && !old(m)@.contains_key(handle) ==> r == Err::<(), BbsFfiError>(
            BbsFfiError::HandleNotFound,
        ) && final(m)@ == old(m)@,
        0 < value@.len() < 4 && old(m)@.contains_key(handle) ==> r == Err::<(), BbsFfiError>(
            BbsFfiError::BadPublicKeyBytes,
        ) && final(m)@ == old(m)@,
        value@.len() >= 4 && old(m)@.contains_key(handle) ==> (match pk_from_bytes(value@) {
            Some(pk) => {
                &&& r == Ok::<(), BbsFfiError>(())
                &&& entry_updated(old(m)@, final(m)@, handle)
                &&& final(m)@[handle].public_key == Some(pk)
                &&& final(m)@[handle].messages == old(m)@[handle].messages
                &&& final(m)@[handle].secret_key == old(m)@[handle].secret_key
                &&& final(m)@[handle].signature == old(m)@[handle].signature
            },
            None => r == Err::<(), BbsFfiError>(BbsFfiError::BadPublicKeyBytes) && final(m)@ == old(
                m,
            )@,
        }),
{
    if value.len() == 0 {
        return Err(BbsFfiError::EmptyPublicKey);
    }
    let mut ctx = match m.take(handle) {
        Some(c) => c,
        None => {
            return Err(BbsFfiError::HandleNotFound);
        },
    };
    if value.len() < 4 {
        m.put(handle, ctx);
        proof {
            assert(m@ =~= old(m)@);
        }
        return Err(BbsFfiError::BadPublicKeyBytes);
    }
    match pk_parse(value) {
        Some(pk) => {
            ctx.public_key = Some(pk);
            m.put(handle, ctx);
            proof {
                assert(m@ =~= old(m)@.insert(handle, m@[handle]));
            }
            Ok(())
        },
        None => {
            m.put(handle, ctx);
            proof {
                assert(m@ =~= old(m)@);
            }
            Err(BbsFfiError::BadPublicKeyBytes)
        },
    }
}

/// The named precondition failure a signing finish reports, if any: the
/// secret key, the public key and a non-empty message vector are required,
/// in that order, and the message count must match the key.
pub open spec fn sign_checks(ctx: SignContext) -> Option<BbsFfiError> {
    if ctx.secret_key is None {
        Some(BbsFfiError::SecretKeyNotSet)
    } else if ctx.public_key is None {
        Some(BbsFfiError::PublicKeyNotSet)
    } else if ctx.messages@.len() == 0 {
        Some(BbsFfiError::NoMessages)
    } else if ctx.messages@.len() != message_count_of(ctx.public_key->Some_0) {
        Some(BbsFfiError::MessageCountMismatch)
    } else {
        None
    }
}

/// Signs the accumulated messages and retires the handle. On a precondition
/// failure the context is kept for correction. The signature carries fresh
/// randomness, so its bytes are not a function of the context, but they are
/// always the serialization of a signature that verifies over exactly the
/// accumulated messages under the stored key.
pub fn bbs_sign_context_finish(m: &mut HandleMap<SignContext>, handle: u64) -> (r: Result<
    Vec<u8>,
    BbsFfiError,
>)
    requires
        old(m).wf(),
    ensures
        final(m).wf(),
        !old(m)@.contains_key(handle) ==> r == Err::<Vec<u8>, BbsFfiError>(
            BbsFfiError::HandleNotFound,
        ) && final(m)@ == old(m)@,
        old(m)@.contains_key(handle) ==> (match sign_checks(old(m)@[handle]) {
            Some(e) => r == Err::<Vec<u8>, BbsFfiError>(e) && final(m)@ == old(m)@,
            None => {
                &&& final(m)@ == old(m)@.remove(handle)
                &&& r matches Ok(v) && v@.len() == crate::SIGNATURE_COMPRESSED_SIZE
                    && sig_from_bytes(v@) is Some && verify_outcome(
                    sig_from_bytes(v@)->Some_0,
                    old(m)@[handle].messages@,
                    old(m)@[handle].public_key->Some_0,
                )
            },
        }),
{
    let ctx = match m.take(handle) {
        Some(c) => c,
        None => {
            return Err(BbsFfiError::HandleNotFound);
        },
    };
    let sk = match &ctx.secret_key {
        Some(k) => k,
        None => {
            m.put(handle, ctx);
            proof {
                assert(m@ =~= old(m)@);
            }
            return Err(BbsFfiError::SecretKeyNotSet);
        },
    };
    let pk = match &ctx.public_key {
        Some(k) => k,
        None => {
            m.put(handle, ctx);
            proof {
                assert(m@ =~= old(m)@);
            }
            return Err(BbsFfiError::PublicKeyNotSet);
        },
    };
    if ctx.messages.len() == 0 {
        m.put(handle, ctx);
        proof {
            assert(m@ =~= old(m)@);
        }
        return Err(BbsFfiError::NoMessages);
    }
    if ctx.messages.len() != pk_message_count(pk) {
        m.put(handle, ctx);
        proof {
            assert(m@ =~= old(m)@);
        }
        return Err(BbsFfiError::MessageCountMismatch);
    }
    let sig = match sig_new(&ctx.messages, sk, pk) {
        Some(s) => s,
        None => {
            // unreachable: the count was just checked against the key
            m.put(handle, ctx);
            proof {
                assert(m@ =~= old(m)@);
            }
            return Err(BbsFfiError::MessageCountMismatch);
        },
    };
    let out = sig_to_bytes(&sig);
    proof {
        assert(sig_from_bytes(out@) == Some(sig) && verify_outcome(
            sig,
            ctx.messages@,
            ctx.public_key->Some_0,
        ));
    }
    Ok(out)
}

/// Releases a signing context without finishing it.
pub fn free_bbs_sign(m: &mut HandleMap<SignContext>, handle: u64) -> (r: Result<(), BbsFfiError>)
    requires
        old(m).wf(),
    ensures
        final(m).wf(),
        final(m)@ == old(m)@.remove(handle),
        r is Ok <==> old(m)@.contains_key(handle),
        r matches Err(e) ==> e == BbsFfiError::HandleNotFound,
{
    match m.remove(handle) {
        Some(_) => Ok(()),
        None => Err(BbsFfiError::HandleNotFound),
    }
}

// ---------------------------------------------------------------------------
// Verification shares the signing context: the same record accumulates the
// messages, the public key and the signature to check.
// ---------------------------------------------------------------------------

/// Opens a fresh verification context and returns its handle.
pub fn bbs_verify_context_init(m: &mut HandleMap<SignContext>) -> (handle: u64)
    requires
        old(m).wf(),
        old(m).can_insert(),
    ensures
        final(m).wf(),
        !old(m)@.contains_key(handle),
        entry_updated(old(m)@, final(m)@, handle),
        final(m)@[handle].messages@.len() == 0,
        final(m)@[handle].secret_key is None,
        final(m)@[handle].public_key is None,
        final(m)@[handle].signature is None,
{
    bbs_sign_context_init(m)
}

/// Appends the hash of a byte string to the verification context's messages.
pub fn bbs_verify_context_add_message_bytes(
    m: &mut HandleMap<SignContext>,
    handle: u64,
    message: &Vec<u8>,
) -> (r: Result<(), BbsFfiError>)
    requires
        old(m).wf(),
    ensures
        final(m).wf(),
        message@.len() == 0 ==> r == Err::<(), BbsFfiError>(BbsFfiError::EmptyMessage) && final(m)@
            == old(m)@,
        message@.len() > 0 && !old(m)@.contains_key(handle) ==> r == Err::<(), BbsFfiError>(
            BbsFfiError::HandleNotFound,
        ) && final(m)@ == old(m)@,
        message@.len() > 0 && old(m)@.contains_key(handle) ==> ({
            &&& r == Ok::<(), BbsFfiError>(())
            &&& entry_updated(old(m)@, final(m)@, handle)
            &&& final(m)@[handle].messages@ == old(m)@[handle].messages@.push(
                hashed_message(message@),
            )
            &&& same_but_messages(old(m)@[handle], final(m)@[handle])
        }),
{
    bbs_sign_context_add_message_bytes(m, handle, message)
}

/// Appends the hash of a string's bytes to the verification context's
/// messages.
pub fn bbs_verify_context_add_message_string(
    m: &mut HandleMap<SignContext>,
    handle: u64,
    message: &str,
) -> (r: Result<(), BbsFfiError>)
    requires
        old(m).wf(),
    ensures
        final(m).wf(),
        message.spec_bytes().len() == 0 ==> r == Err::<(), BbsFfiError>(BbsFfiError::EmptyMessage)
            && final(m)@ == old(m)@,
        message.spec_bytes().len() > 0 && !old(m)@.contains_key(handle) ==> r == Err::<
            (),
            BbsFfiError,
        >(BbsFfiError::HandleNotFound) && final(m)@ == old(m)@,
        message.spec_bytes().len() > 0 && old(m)@.contains_key(handle) ==> ({
            &&& r == Ok::<(), BbsFfiError>(())
            &&& entry_updated(old(m)@, final(m)@, handle)
            &&& final(m)@[handle].messages@ == old(m)@[handle].messages@.push(
                hashed_message(message.spec_bytes()),
            )
            &&& same_but_messages(old(m)@[handle], final(m)@[handle])
        }),
{
    bbs_sign_context_add_message_string(m, handle, message)
}

/// Appends a prehashed message to the verification context's messages.
pub fn bbs_verify_context_add_message_prehashed(
    m: &mut HandleMap<SignContext>,
    handle: u64,
    message: &Vec<u8>,
) -> (r: Result<(), BbsFfiError>)
    requires
        old(m).wf(),
    ensures
        final(m).wf(),
        message@.len() == 0 ==> r == Err::<(), BbsFfiError>(BbsFfiError::EmptyMessage) && final(m)@
            == old(m)@,
        message@.len() > 0 && !old(m)@.contains_key(handle) ==> r == Err::<(), BbsFfiError>(
            BbsFfiError::HandleNotFound,
        ) && final(m)@ == old(m)@,
        message@.len() > 0 && old(m)@.contains_key(handle) ==> (
        match message_from_bytes(message@) {
            Some(msg) => {
                &&& r == Ok::<(), BbsFfiError>(())
                &&& entry_updated(old(m)@, final(m)@, handle)
                &&& final(m)@[handle].messages@ == old(m)@[handle].messages@.push(msg)
                &&& same_but_messages(old(m)@[handle], final(m)@[handle])
            },
            None => r == Err::<(), BbsFfiError>(BbsFfiError::BadMessageBytes) && final(m)@ == old(
                m,
            )@,
        }),
{
    bbs_sign_context_add_message_prehashed(m, handle, message)
}

/// Sets the public key of the verification context.
pub fn bbs_verify_context_set_public_key(
    m: &mut HandleMap<SignContext>,
    handle: u64,
    value: &Vec<u8>,
) -> (r: Result<(), BbsFfiError>)
    requires
        old(m).wf(),
    ensures
        final(m).wf(),
        value@.len() == 0 ==> r == Err::<(), BbsFfiError>(BbsFfiError::EmptyPublicKey) && final(m)@
            == old(m)@,
        value@.len() > 0 && !old(m)@.contains_key(handle) ==> r == Err::<(), BbsFfiError>(
            BbsFfiError::HandleNotFound,
        ) && final(m)@ == old(m)@,
        0 < value@.len() < 4 && old(m)@.contains_key(handle) ==> r == Err::<(), BbsFfiError>(
            BbsFfiError::BadPublicKeyBytes,
        ) && final(m)@ == old(m)@,
        value@.len() >= 4 && old(m)@.contains_key(handle) ==> (match pk_from_bytes(value@) {
            Some(pk) => {
                &&& r == Ok::<(), BbsFfiError>(())
                &&& entry_updated(old(m)@, final(m)@, handle)
                &&& final(m)@[handle].public_key == Some(pk)
                &&& final(m)@[handle].messages == old(m)@[handle].messages
                &&& final(m)@[handle].secret_key == old(m)@[handle].secret_key
                &&& final(m)@[handle].signature == old(m)@[handle].signature
            },
            None => r == Err::<(), BbsFfiError>(BbsFfiError::BadPublicKeyBytes) && final(m)@ == old(
                m,
            )@,
        }),
{
    bbs_sign_context_set_public_key(m, handle, value)
}

/// Sets the signature to verify from its serialized bytes.
pub fn bbs_verify_context_set_signature(
    m: &mut HandleMap<SignContext>,
    handle: u64,
    value: &Vec<u8>,
) -> (r: Result<(), BbsFfiError>)
    requires
        old(m).wf(),
    ensures
        final(m).wf(),
        value@.len() == 0 ==> r == Err::<(), BbsFfiError>(BbsFfiError::EmptySignature) && final(m)@
            == old(m)@,
        value@.len() > 0 && !old(m)@.contains_key(handle) ==> r == Err::<(), BbsFfiError>(
            BbsFfiError::HandleNotFound,
        ) && final(m)@ == old(m)@,
        value@.len() > 0 && old(m)@.contains_key(handle) ==> (match sig_from_bytes(value@) {
            Some(sig) => {
                &&& r == Ok::<(), BbsFfiError>(())
                &&& entry_updated(old(m)@, final(m)@, handle)
                &&& final(m)@[handle].signature == Some(sig)
                &&& final(m)@[handle].messages == old(m)@[handle].messages
                &&& final(m)@[handle].secret_key == old(m)@[handle].secret_key
                &&& final(m)@[handle].public_key == old(m)@[handle].public_key
            },
            None => r == Err::<(), BbsFfiError>(BbsFfiError::BadSignatureBytes) && final(m)@ == old(
                m,
            )@,
        }),
{
    if value.len() == 0 {
        return Err(BbsFfiError::EmptySignature);
    }
    let mut ctx = match m.take(handle) {
        Some(c) => c,
        None => {
            return Err(BbsFfiError::HandleNotFound);
        },
    };
    match sig_parse(value) {
        Some(sig) => {
            ctx.signature = Some(sig);
            m.put(handle, ctx);
            proof {
                assert(m@ =~= old(m)@.insert(handle, m@[handle]));
            }
            Ok(())
        },
        None => {
            m.put(handle, ctx);
            proof {
                assert(m@ =~= old(m)@);
            }
            Err(BbsFfiError::BadSignatureBytes)
        },
    }
}

/// The named precondition failure a verification finish reports, if any.
pub open spec fn verify_checks(ctx: SignContext) -> Option<BbsFfiError> {
    if ctx.signature is None {
        Some(BbsFfiError::SignatureNotSet)
    } else if ctx.public_key is None {
        Some(BbsFfiError::PublicKeyNotSet)
    } else if ctx.messages@.len() == 0 {
        Some(BbsFfiError::NoMessages)
    } else if ctx.messages@.len() != message_count_of(ctx.public_key->Some_0) {
        Some(BbsFfiError::MessageCountMismatch)
    } else {
        None
    }
}

/// What a completed verification returns: the outcome of the pairing
/// equation over exactly the accumulated messages, a pure function of the
/// context.
pub open spec fn verify_finish_outcome(ctx: SignContext) -> bool {
    verify_outcome(ctx.signature->Some_0, ctx.messages@, ctx.public_key->Some_0)
}

/// Checks the signature against the accumulated messages. The handle is
/// retired whether verification runs or a precondition fails: a verification
/// context is never reused.
pub fn bbs_verify_context_finish(m: &mut HandleMap<SignContext>, handle: u64) -> (r: Result<
    bool,
    BbsFfiError,
>)
    requires
        old(m).wf(),
    ensures
        final(m).wf(),
        !old(m)@.contains_key(handle) ==> r == Err::<bool, BbsFfiError>(
            BbsFfiError::HandleNotFound,
        ) && final(m)@ == old(m)@,
        old(m)@.contains_key(handle) ==> final(m)@ == old(m)@.remove(handle) && (
        match verify_checks(old(m)@[handle]) {
            Some(e) => r == Err::<bool, BbsFfiError>(e),
            None => r == Ok::<bool, BbsFfiError>(verify_finish_outcome(old(m)@[handle])),
        }),
{
    let ctx = match m.take(handle) {
        Some(c) => c,
        None => {
            return Err(BbsFfiError::HandleNotFound);
        },
    };
    let sig = match &ctx.signature {
        Some(s) => s,
        None => {
            return Err(BbsFfiError::SignatureNotSet);
        },
    };
    let pk = match &ctx.public_key {
        Some(k) => k,
        None => {
            return Err(BbsFfiError::PublicKeyNotSet);
        },
    };
    if ctx.messages.len() == 0 {
        return Err(BbsFfiError::NoMessages);
    }
    match sig_verify(sig, &ctx.messages, pk) {
        Some(b) => Ok(b),
        None => Err(BbsFfiError::MessageCountMismatch),
    }
}

/// Two verification contexts with equal contents always finish with the same
/// outcome: verification is a pure function of its inputs, free of side
/// effects and hidden state.
pub proof fn lemma_verify_deterministic(a: SignContext, b: SignContext)
    requires
        a.signature == b.signature,
        a.public_key == b.public_key,
        a.messages@ == b.messages@,
    ensures
        verify_checks(a) == verify_checks(b),
        verify_checks(a) is None ==> verify_finish_outcome(a) == verify_finish_outcome(b),
{
}


/// The round trip from signing to verification: a verification context
/// holding a signature that verifies over its messages and key - as every
/// signature a successful signing finish hands out does, once parsed back -
/// passes its checks and finishes with a positive outcome.
pub proof fn lemma_sign_verify_round_trip(signature_bytes: Seq<u8>, ctx: SignContext)
    requires
        sig_from_bytes(signature_bytes) is Some,
        verify_outcome(
            sig_from_bytes(signature_bytes)->Some_0,
            ctx.messages@,
            ctx.public_key->Some_0,
        ),
        ctx.signature == Some(sig_from_bytes(signature_bytes)->Some_0),
        ctx.public_key is Some,
        ctx.messages@.len() > 0,
        ctx.messages@.len() == message_count_of(ctx.public_key->Some_0),
    ensures
        verify_checks(ctx) is None,
        verify_finish_outcome(ctx) == true,
{
}

} // verus!
