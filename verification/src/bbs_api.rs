//! The boundary to the `bbs` crate: its types are declared opaque, and every
//! call the library makes goes through one wrapper here, whose contract
//! states what the crate's source shows of that call. Deterministic results
//! are given names so that callers' contracts can pin outputs down; nothing
//! is named whose value depends on the randomness a call draws.

use vstd::prelude::*;
use bbs::ToVariableLengthBytes;
use bbs::HashElem;
use crate::errors::SignatureProofStatus;

verus! {

#[verifier::external_type_specification]
#[verifier::external_body]
pub struct ExSecretKey(bbs::keys::SecretKey);

#[verifier::external_type_specification]
#[verifier::external_body]
pub struct ExPublicKey(bbs::keys::PublicKey);

#[verifier::external_type_specification]
#[verifier::external_body]
pub struct ExDeterministicPublicKey(bbs::keys::DeterministicPublicKey);

#[verifier::external_type_specification]
#[verifier::external_body]
pub struct ExSignature(bbs::signature::Signature);

#[verifier::external_type_specification]
#[verifier::external_body]
pub struct ExBlindSignature(bbs::signature::BlindSignature);

#[verifier::external_type_specification]
#[verifier::external_body]
pub struct ExSignatureMessage(bbs::SignatureMessage);

#[verifier::external_type_specification]
#[verifier::external_body]
pub struct ExProofNonce(bbs::ProofNonce);

#[verifier::external_type_specification]
#[verifier::external_body]
pub struct ExProofChallenge(bbs::ProofChallenge);

#[verifier::external_type_specification]
#[verifier::external_body]
pub struct ExSignatureBlinding(bbs::SignatureBlinding);

#[verifier::external_type_specification]
#[verifier::external_body]
pub struct ExCommitment(bbs::Commitment);

#[verifier::external_type_specification]
#[verifier::external_body]
pub struct ExProofMessage(bbs::messages::ProofMessage);

#[verifier::external_type_specification]
#[verifier::external_body]
pub struct ExPoKOfSignature(bbs::pok_sig::PoKOfSignature);

#[verifier::external_type_specification]
#[verifier::external_body]
pub struct ExPoKOfSignatureProof(bbs::pok_sig::PoKOfSignatureProof);

#[verifier::external_type_specification]
#[verifier::external_body]
pub struct ExBlindSignatureContext(bbs::BlindSignatureContext);

// ---------------------------------------------------------------------------
// Deserialization: each parse is a pure function of the input bytes.
// ---------------------------------------------------------------------------

pub uninterp spec fn sk_from_bytes(b: Seq<u8>) -> Option<bbs::keys::SecretKey>;

/// Relies on `SecretKey::try_from`: deserializes one compressed scalar.
#[verifier::external_body]
pub(crate) fn sk_parse(b: &Vec<u8>) -> (r: Option<bbs::keys::SecretKey>)
    ensures
        r == sk_from_bytes(b@),
{
    bbs::keys::SecretKey::try_from(b.as_slice()).ok()
}

pub uninterp spec fn pk_from_bytes(b: Seq<u8>) -> Option<bbs::keys::PublicKey>;

/// Relies on `PublicKey::from_bytes_compressed_form`: reads a G2 point, a G1
/// point, a four-byte generator count and that many G1 points, then runs
/// `validate`; lengths under four bytes are excluded because the length
/// arithmetic in the source underflows there.
#[verifier::external_body]
pub(crate) fn pk_parse(b: &Vec<u8>) -> (r: Option<bbs::keys::PublicKey>)
    requires
        b@.len() >= 4,
    ensures
        r == pk_from_bytes(b@),
        r matches Some(pk) ==> pk_valid(pk) && b@.len() >= 148 + 48 * message_count_of(pk),
{
    bbs::keys::PublicKey::from_bytes_compressed_form(b.as_slice()).ok()
}

pub uninterp spec fn dpk_from_bytes(b: Seq<u8>) -> Option<bbs::keys::DeterministicPublicKey>;

/// Relies on `DeterministicPublicKey::try_from`: deserializes one G2 point.
#[verifier::external_body]
pub(crate) fn dpk_parse(b: &Vec<u8>) -> (r: Option<bbs::keys::DeterministicPublicKey>)
    ensures
        r == dpk_from_bytes(b@),
{
    bbs::keys::DeterministicPublicKey::try_from(b.as_slice()).ok()
}

pub uninterp spec fn sig_from_bytes(b: Seq<u8>) -> Option<bbs::signature::Signature>;

/// Relies on `Signature::try_from`: deserializes one G1 point and two
/// scalars.
#[verifier::external_body]
pub(crate) fn sig_parse(b: &Vec<u8>) -> (r: Option<bbs::signature::Signature>)
    ensures
        r == sig_from_bytes(b@),
{
    bbs::signature::Signature::try_from(b.as_slice()).ok()
}

pub uninterp spec fn blind_sig_from_bytes(b: Seq<u8>) -> Option<bbs::signature::BlindSignature>;

/// Relies on `BlindSignature::try_from`: deserializes one G1 point and two
/// scalars.
#[verifier::external_body]
pub(crate) fn blind_sig_parse(b: &Vec<u8>) -> (r: Option<bbs::signature::BlindSignature>)
    ensures
        r == blind_sig_from_bytes(b@),
{
    bbs::signature::BlindSignature::try_from(b.as_slice()).ok()
}

pub uninterp spec fn commitment_from_bytes(b: Seq<u8>) -> Option<bbs::Commitment>;

/// Relies on `Commitment::try_from`: deserializes one G1 point.
#[verifier::external_body]
pub(crate) fn commitment_parse(b: &Vec<u8>) -> (r: Option<bbs::Commitment>)
    ensures
        r == commitment_from_bytes(b@),
{
    bbs::Commitment::try_from(b.as_slice()).ok()
}

pub uninterp spec fn nonce_from_bytes(b: Seq<u8>) -> Option<bbs::ProofNonce>;

/// Relies on `ProofNonce::try_from`: deserializes one compressed scalar.
#[verifier::external_body]
pub(crate) fn nonce_parse(b: &Vec<u8>) -> (r: Option<bbs::ProofNonce>)
    ensures
        r == nonce_from_bytes(b@),
{
    bbs::ProofNonce::try_from(b.as_slice()).ok()
}

pub uninterp spec fn blinding_from_bytes(b: Seq<u8>) -> Option<bbs::SignatureBlinding>;

/// Relies on `SignatureBlinding::try_from`: deserializes one compressed
/// scalar.
#[verifier::external_body]
pub(crate) fn blinding_parse(b: &Vec<u8>) -> (r: Option<bbs::SignatureBlinding>)
    ensures
        r == blinding_from_bytes(b@),
{
    bbs::SignatureBlinding::try_from(b.as_slice()).ok()
}

pub uninterp spec fn message_from_bytes(b: Seq<u8>) -> Option<bbs::SignatureMessage>;

/// Relies on `SignatureMessage::try_from`: deserializes one compressed
/// scalar.
#[verifier::external_body]
pub(crate) fn message_parse(b: &Vec<u8>) -> (r: Option<bbs::SignatureMessage>)
    ensures
        r == message_from_bytes(b@),
{
    bbs::SignatureMessage::try_from(b.as_slice()).ok()
}

pub uninterp spec fn bsc_from_bytes(b: Seq<u8>) -> Option<bbs::BlindSignatureContext>;

/// Relies on `BlindSignatureContext::from_bytes_compressed_form`: reads a
/// commitment, a challenge scalar and a proof of hidden messages, rejecting
/// short inputs.
#[verifier::external_body]
pub(crate) fn bsc_parse(b: &Vec<u8>) -> (r: Option<bbs::BlindSignatureContext>)
    ensures
        r == bsc_from_bytes(b@),
{
    bbs::BlindSignatureContext::from_bytes_compressed_form(b.as_slice()).ok()
}

pub uninterp spec fn pok_proof_from_bytes(b: Seq<u8>) -> Option<bbs::pok_sig::PoKOfSignatureProof>;

/// Relies on `PoKOfSignatureProof::from_bytes_compressed_form`: reads three
/// G1 points, a four-byte length and two sub-proofs. The requires excludes
/// the inputs on which the source indexes past the end and panics: the
/// four-byte length sits at offset 144 and the first sub-proof must lie
/// within the input.
#[verifier::external_body]
pub(crate) fn pok_proof_parse(b: &Vec<u8>) -> (r: Option<bbs::pok_sig::PoKOfSignatureProof>)
    requires
        b@.len() >= 148,
        148 + crate::codec::be_u32_value(b@.subrange(144, 148)) <= b@.len(),
    ensures
        r == pok_proof_from_bytes(b@),
{
    bbs::pok_sig::PoKOfSignatureProof::from_bytes_compressed_form(b.as_slice()).ok()
}

// ---------------------------------------------------------------------------
// Hashing into the scalar field: pure functions of the input bytes.
// ---------------------------------------------------------------------------

pub uninterp spec fn hashed_message(b: Seq<u8>) -> bbs::SignatureMessage;

/// Relies on `SignatureMessage::hash`: hashes arbitrary bytes into a field
/// scalar, a function of the bytes alone.
#[verifier::external_body]
pub(crate) fn message_hash(b: &Vec<u8>) -> (r: bbs::SignatureMessage)
    ensures
        r == hashed_message(b@),
{
    bbs::SignatureMessage::hash(b.as_slice())
}

pub uninterp spec fn hashed_nonce(b: Seq<u8>) -> bbs::ProofNonce;

/// Relies on `ProofNonce::hash`: hashes arbitrary bytes into a field scalar,
/// a function of the bytes alone.
#[verifier::external_body]
pub(crate) fn nonce_hash(b: &Vec<u8>) -> (r: bbs::ProofNonce)
    ensures
        r == hashed_nonce(b@),
{
    bbs::ProofNonce::hash(b.as_slice())
}

pub uninterp spec fn hashed_challenge(b: Seq<u8>) -> bbs::ProofChallenge;

/// Relies on `ProofChallenge::hash`: hashes arbitrary bytes into a field
/// scalar, a function of the bytes alone.
#[verifier::external_body]
pub(crate) fn challenge_hash(b: &Vec<u8>) -> (r: bbs::ProofChallenge)
    ensures
        r == hashed_challenge(b@),
{
    bbs::ProofChallenge::hash(b.as_slice())
}

// ---------------------------------------------------------------------------
// Serialization: pure functions of the value serialized.
// ---------------------------------------------------------------------------

pub uninterp spec fn sig_bytes(s: bbs::signature::Signature) -> Seq<u8>;

/// Relies on `Signature::to_bytes_compressed_form`: a G1 point and two
/// scalars, 112 bytes; deserializing them yields the same signature again,
/// since the compressed forms round-trip and equality is field equality.
#[verifier::external_body]
pub(crate) fn sig_to_bytes(s: &bbs::signature::Signature) -> (r: Vec<u8>)
    ensures
        r@ == sig_bytes(*s),
        r@.len() == 112,
        sig_from_bytes(r@) == Some(*s),
{
    vstd::slice::slice_to_vec(&s.to_bytes_compressed_form())
}

pub uninterp spec fn blind_sig_bytes(s: bbs::signature::BlindSignature) -> Seq<u8>;

/// Relies on `BlindSignature::to_bytes_compressed_form`: a G1 point and two
/// scalars, 112 bytes; deserializing them yields the same blind signature
/// again, since the compressed forms round-trip and equality is field
/// equality.
#[verifier::external_body]
pub(crate) fn blind_sig_to_bytes(s: &bbs::signature::BlindSignature) -> (r: Vec<u8>)
    ensures
        r@ == blind_sig_bytes(*s),
        r@.len() == 112,
        blind_sig_from_bytes(r@) == Some(*s),
{
    vstd::slice::slice_to_vec(&s.to_bytes_compressed_form())
}

pub uninterp spec fn pk_bytes(pk: bbs::keys::PublicKey) -> Seq<u8>;

/// Relies on `PublicKey::to_bytes_compressed_form`: a G2 point, a G1 point,
/// a four-byte generator count and one G1 point per message generator.
#[verifier::external_body]
pub(crate) fn pk_to_bytes(pk: &bbs::keys::PublicKey) -> (r: Vec<u8>)
    ensures
        r@ == pk_bytes(*pk),
        r@.len() == 148 + 48 * message_count_of(*pk),
{
    pk.to_bytes_compressed_form()
}

pub uninterp spec fn dpk_bytes(dpk: bbs::keys::DeterministicPublicKey) -> Seq<u8>;

/// Relies on `DeterministicPublicKey::to_bytes_compressed_form`: one G2
/// point, 96 bytes; deserializing them yields the same point again, since
/// the compressed form round-trips and equality is point equality.
#[verifier::external_body]
pub(crate) fn dpk_to_bytes(dpk: &bbs::keys::DeterministicPublicKey) -> (r: Vec<u8>)
    ensures
        r@ == dpk_bytes(*dpk),
        r@.len() == 96,
        dpk_from_bytes(r@) == Some(*dpk),
{
    vstd::slice::slice_to_vec(&dpk.to_bytes_compressed_form())
}

pub uninterp spec fn nonce_bytes(n: bbs::ProofNonce) -> Seq<u8>;

/// Relies on `ProofNonce::to_bytes_compressed_form`: one compressed scalar,
/// 32 bytes.
#[verifier::external_body]
pub(crate) fn nonce_to_bytes(n: &bbs::ProofNonce) -> (r: Vec<u8>)
    ensures
        r@ == nonce_bytes(*n),
        r@.len() == 32,
{
    vstd::slice::slice_to_vec(&n.to_bytes_compressed_form())
}

pub uninterp spec fn blinding_bytes(b: bbs::SignatureBlinding) -> Seq<u8>;

/// Relies on `SignatureBlinding::to_bytes_compressed_form`: one compressed
/// scalar, 32 bytes; deserializing them yields the same scalar again.
#[verifier::external_body]
pub(crate) fn blinding_to_bytes(b: &bbs::SignatureBlinding) -> (r: Vec<u8>)
    ensures
        r@ == blinding_bytes(*b),
        r@.len() == 32,
        blinding_from_bytes(r@) == Some(*b),
{
    vstd::slice::slice_to_vec(&b.to_bytes_compressed_form())
}

pub uninterp spec fn bsc_bytes(c: bbs::BlindSignatureContext) -> Seq<u8>;

/// Relies on `BlindSignatureContext::to_bytes_compressed_form`: the
/// commitment's 48 bytes come first, then a 32-byte challenge scalar and the
/// proof of hidden messages with its own commitment and length header.
#[verifier::external_body]
pub(crate) fn bsc_to_bytes(c: &bbs::BlindSignatureContext) -> (r: Vec<u8>)
    ensures
        r@ == bsc_bytes(*c),
        r@.len() >= 132,
{
    c.to_bytes_compressed_form()
}

pub uninterp spec fn pok_proof_bytes(p: bbs::pok_sig::PoKOfSignatureProof) -> Seq<u8>;

/// Relies on `PoKOfSignatureProof::to_bytes_compressed_form`: three G1
/// points, a four-byte length and two sub-proofs.
#[verifier::external_body]
pub(crate) fn pok_proof_to_bytes(p: &bbs::pok_sig::PoKOfSignatureProof) -> (r: Vec<u8>)
    ensures
        r@ == pok_proof_bytes(*p),
        r@.len() >= 148,
{
    p.to_bytes_compressed_form()
}

// ---------------------------------------------------------------------------
// Key material.
// ---------------------------------------------------------------------------

pub uninterp spec fn message_count_of(pk: bbs::keys::PublicKey) -> usize;

/// Relies on `PublicKey::message_count`: the number of per-message
/// generators.
#[verifier::external_body]
pub(crate) fn pk_message_count(pk: &bbs::keys::PublicKey) -> (r: usize)
    ensures
        r == message_count_of(*pk),
{
    pk.message_count()
}

pub uninterp spec fn pk_valid(pk: bbs::keys::PublicKey) -> bool;

/// Relies on `PublicKey::validate`: rejects a key any of whose elements is
/// the identity.
#[verifier::external_body]
pub(crate) fn pk_validate(pk: &bbs::keys::PublicKey) -> (r: bool)
    ensures
        r == pk_valid(*pk),
{
    pk.validate().is_ok()
}

pub uninterp spec fn dpk_of(sk: bbs::keys::SecretKey) -> bbs::keys::DeterministicPublicKey;

/// Relies on `DeterministicPublicKey::new` with `FromSecretKey`: the G2
/// base point raised to the secret scalar, a function of the key alone.
#[verifier::external_body]
pub(crate) fn dpk_from_sk(sk: bbs::keys::SecretKey) -> (r: bbs::keys::DeterministicPublicKey)
    ensures
        r == dpk_of(sk),
{
    let (dpk, _) = bbs::keys::DeterministicPublicKey::new(Some(
        bbs::keys::KeyGenOption::FromSecretKey(sk),
    ));
    dpk
}

pub uninterp spec fn expanded_pk(
    dpk: bbs::keys::DeterministicPublicKey,
    message_count: usize,
) -> Option<bbs::keys::PublicKey>;

/// Relies on `DeterministicPublicKey::to_public_key`: derives one generator
/// per message by hashing to the curve, a function of the key and the count;
/// fails exactly on a zero count.
#[verifier::external_body]
pub(crate) fn dpk_expand(dpk: &bbs::keys::DeterministicPublicKey, message_count: usize) -> (r:
    Option<bbs::keys::PublicKey>)
    ensures
        r == expanded_pk(*dpk, message_count),
        r is Some <==> message_count > 0,
        r matches Some(pk) ==> message_count_of(pk) == message_count,
{
    dpk.to_public_key(message_count).ok()
}

// ---------------------------------------------------------------------------
// Signing and verification.
// ---------------------------------------------------------------------------

/// Relies on `Signature::new`: draws fresh randomness, so nothing is named
/// of the result; the source accepts exactly the message vectors no longer
/// than the key's generator count, and builds the point that the pairing
/// equation of `verify` checks, so a full-length signature verifies by
/// construction. The source inverts the sum of the secret
/// key and a fresh scalar, which fails only on a negligible-probability
/// draw that no precondition over the arguments can exclude.
#[verifier::external_body]
pub(crate) fn sig_new(
    messages: &Vec<bbs::SignatureMessage>,
    sk: &bbs::keys::SecretKey,
    pk: &bbs::keys::PublicKey,
) -> (r: Option<bbs::signature::Signature>)
    ensures
        r is Some <==> messages@.len() <= message_count_of(*pk),
        r matches Some(s) ==> (messages@.len() == message_count_of(*pk) ==> verify_outcome(
            s,
            messages@,
            *pk,
        )),
{
    bbs::signature::Signature::new(messages.as_slice(), sk, pk).ok()
}

pub uninterp spec fn verify_outcome(
    sig: bbs::signature::Signature,
    messages: Seq<bbs::SignatureMessage>,
    pk: bbs::keys::PublicKey,
) -> bool;

/// Relies on `Signature::verify`: evaluates the pairing equation, a pure
/// function of the signature, messages and key; the source rejects exactly
/// the message vectors whose length differs from the generator count.
#[verifier::external_body]
pub(crate) fn sig_verify(
    sig: &bbs::signature::Signature,
    messages: &Vec<bbs::SignatureMessage>,
    pk: &bbs::keys::PublicKey,
) -> (r: Option<bool>)
    ensures
        r is Some <==> messages@.len() == message_count_of(*pk),
        r matches Some(b) ==> b == verify_outcome(*sig, messages@, *pk),
{
    sig.verify(messages.as_slice(), pk).ok()
}

// ---------------------------------------------------------------------------
// The blind-signature protocol.
// ---------------------------------------------------------------------------

/// Relies on `Prover::new_blind_signature_context`: draws a fresh blinding
/// factor, so nothing is named of the result. Indices at or beyond the
/// generator count are excluded: on them the source fails or indexes past
/// the generator array; strictly ascending indices make the vector coincide
/// with the ordered map the source walks. The proof of hidden messages it
/// builds commits to the blinding generator and to exactly the hidden
/// positions' generators, which are the ones `BlindSignatureContext::verify`
/// reconstructs from the complementary revealed set, and the challenge is
/// recomputed over the same serialization and nonce, so that check accepts
/// by construction.
#[verifier::external_body]
pub(crate) fn blind_commit(
    pk: &bbs::keys::PublicKey,
    messages: &Vec<(usize, bbs::SignatureMessage)>,
    nonce: &bbs::ProofNonce,
) -> (r: (bbs::SignatureBlinding, bbs::BlindSignatureContext))
    requires
        forall|j: int|
            0 <= j < messages@.len() ==> (#[trigger] messages@[j]).0 < message_count_of(*pk),
        forall|a: int, b: int|
            0 <= a < b < messages@.len() ==> (#[trigger] messages@[a]).0 < (
            #[trigger] messages@[b]).0,
    ensures
        bsc_outcome(
            r.1,
            crate::index_map::complement_indices(
                message_count_of(*pk) as nat,
                messages@.map_values(|p: (usize, bbs::SignatureMessage)| p.0),
            ),
            *pk,
            *nonce,
        ) == Some(true),
{
    let map: std::collections::BTreeMap<usize, bbs::SignatureMessage> = messages
        .iter()
        .map(|p| (p.0, p.1))
        .collect();
    let (ctx, blinding) = bbs::prover::Prover::new_blind_signature_context(pk, &map, nonce)
        .unwrap();
    (blinding, ctx)
}

/// Relies on `BlindSignature::new`: draws fresh randomness, so nothing is
/// named of the result. Indices at or beyond the generator count are
/// excluded: on them the source indexes past the generator array. The source
/// inverts the sum of the secret key and a fresh scalar, which fails only on
/// a negligible-probability draw that no precondition over the arguments can
/// exclude.
#[verifier::external_body]
pub(crate) fn blind_sig_new(
    commitment: &bbs::Commitment,
    messages: &Vec<(usize, bbs::SignatureMessage)>,
    sk: &bbs::keys::SecretKey,
    pk: &bbs::keys::PublicKey,
) -> (r: Option<bbs::signature::BlindSignature>)
    requires
        forall|j: int|
            0 <= j < messages@.len() ==> (#[trigger] messages@[j]).0 < message_count_of(*pk),
    ensures
        messages@.len() <= message_count_of(*pk) ==> r is Some,
{
    let map: std::collections::BTreeMap<usize, bbs::SignatureMessage> = messages
        .iter()
        .map(|p| (p.0, p.1))
        .collect();
    bbs::signature::BlindSignature::new(commitment, &map, sk, pk).ok()
}

pub uninterp spec fn unblinded(
    bs: bbs::signature::BlindSignature,
    blinding: bbs::SignatureBlinding,
) -> bbs::signature::Signature;

/// Relies on `BlindSignature::to_unblinded`: adds the blinding factor to the
/// signature's `s` component, a function of its two arguments.
#[verifier::external_body]
pub(crate) fn unblind(
    bs: &bbs::signature::BlindSignature,
    blinding: &bbs::SignatureBlinding,
) -> (r: bbs::signature::Signature)
    ensures
        r == unblinded(*bs, *blinding),
{
    bs.to_unblinded(blinding)
}

pub uninterp spec fn bsc_outcome(
    c: bbs::BlindSignatureContext,
    revealed: Seq<usize>,
    pk: bbs::keys::PublicKey,
    nonce: bbs::ProofNonce,
) -> Option<bool>;

/// Relies on `BlindSignatureContext::verify`: recomputes the challenge over
/// the generators outside the revealed set, a pure function of its
/// arguments; the source fails exactly when the response count does not
/// match those generators.
#[verifier::external_body]
pub(crate) fn bsc_verify(
    c: &bbs::BlindSignatureContext,
    revealed: &Vec<usize>,
    pk: &bbs::keys::PublicKey,
    nonce: &bbs::ProofNonce,
) -> (r: Option<bool>)
    ensures
        r == bsc_outcome(*c, revealed@, *pk, *nonce),
{
    let set: std::collections::BTreeSet<usize> = revealed.iter().map(|i| *i).collect();
    c.verify(&set, pk, nonce).ok()
}

// ---------------------------------------------------------------------------
// The proof-of-knowledge protocol.
// ---------------------------------------------------------------------------

pub uninterp spec fn underlying_message(pm: bbs::messages::ProofMessage) -> bbs::SignatureMessage;

pub uninterp spec fn proof_msg_revealed(m: bbs::SignatureMessage) -> bbs::messages::ProofMessage;

/// Relies on `ProofMessage::Revealed`: wraps the message, whose value
/// `ProofMessage::get_message` returns unchanged.
#[verifier::external_body]
pub(crate) fn pm_revealed(m: bbs::SignatureMessage) -> (r: bbs::messages::ProofMessage)
    ensures
        r == proof_msg_revealed(m),
        underlying_message(r) == m,
{
    bbs::messages::ProofMessage::Revealed(m)
}

pub uninterp spec fn proof_msg_hidden(m: bbs::SignatureMessage) -> bbs::messages::ProofMessage;

/// Relies on `HiddenMessage::ProofSpecificBlinding`: wraps the message,
/// whose value `ProofMessage::get_message` returns unchanged.
#[verifier::external_body]
pub(crate) fn pm_hidden(m: bbs::SignatureMessage) -> (r: bbs::messages::ProofMessage)
    ensures
        r == proof_msg_hidden(m),
        underlying_message(r) == m,
{
    bbs::messages::ProofMessage::Hidden(bbs::messages::HiddenMessage::ProofSpecificBlinding(m))
}

pub uninterp spec fn proof_msg_hidden_ext(
    m: bbs::SignatureMessage,
    blinding: bbs::ProofNonce,
) -> bbs::messages::ProofMessage;

/// Relies on `HiddenMessage::ExternalBlinding`: wraps the message and the
/// caller-supplied blinding; `ProofMessage::get_message` returns the message
/// unchanged.
#[verifier::external_body]
pub(crate) fn pm_hidden_ext(m: bbs::SignatureMessage, blinding: bbs::ProofNonce) -> (r:
    bbs::messages::ProofMessage)
    ensures
        r == proof_msg_hidden_ext(m, blinding),
        underlying_message(r) == m,
{
    bbs::messages::ProofMessage::Hidden(bbs::messages::HiddenMessage::ExternalBlinding(m, blinding))
}

/// Relies on `PoKOfSignature::init`: randomizes the signature and commits to
/// every hidden message with fresh randomness, so nothing is named of the
/// result; the source succeeds exactly when the message count matches the
/// key and the signature verifies over the underlying messages. A transcript
/// it builds carries one response per committed base, so `gen_proof` on it
/// cannot hit the length mismatch that is that call's only failure.
#[verifier::external_body]
pub(crate) fn pok_init(
    sig: &bbs::signature::Signature,
    pk: &bbs::keys::PublicKey,
    messages: &Vec<bbs::messages::ProofMessage>,
) -> (r: Option<bbs::pok_sig::PoKOfSignature>)
    ensures
        r is Some <==> (messages@.len() == message_count_of(*pk) && verify_outcome(
            *sig,
            messages@.map_values(|pm: bbs::messages::ProofMessage| underlying_message(pm)),
            *pk,
        )),
        r matches Some(p) ==> forall|c: bbs::ProofChallenge| (#[trigger] pok_proof_of(p, c))
            is Some,
{
    bbs::pok_sig::PoKOfSignature::init(sig, pk, messages.as_slice()).ok()
}

pub uninterp spec fn pok_bytes(pok: bbs::pok_sig::PoKOfSignature) -> Seq<u8>;

/// Relies on `PoKOfSignature::to_bytes`: the transcript's public commitment
/// data, a function of the transcript alone.
#[verifier::external_body]
pub(crate) fn pok_to_bytes(pok: &bbs::pok_sig::PoKOfSignature) -> (r: Vec<u8>)
    ensures
        r@ == pok_bytes(*pok),
{
    pok.to_bytes()
}

pub uninterp spec fn pok_proof_of(
    pok: bbs::pok_sig::PoKOfSignature,
    challenge: bbs::ProofChallenge,
) -> Option<bbs::pok_sig::PoKOfSignatureProof>;

/// Relies on `PoKOfSignature::gen_proof`: computes the responses from the
/// stored transcript and the challenge, a function of the two.
#[verifier::external_body]
pub(crate) fn pok_gen_proof(
    pok: bbs::pok_sig::PoKOfSignature,
    challenge: &bbs::ProofChallenge,
) -> (r: Option<bbs::pok_sig::PoKOfSignatureProof>)
    ensures
        r == pok_proof_of(pok, *challenge),
{
    pok.gen_proof(challenge).ok()
}

pub uninterp spec fn challenge_input_bytes(
    proof: bbs::pok_sig::PoKOfSignatureProof,
    revealed: Seq<usize>,
    pk: bbs::keys::PublicKey,
) -> Seq<u8>;

/// Relies on `PoKOfSignatureProof::get_bytes_for_challenge`: serializes the
/// proof's public points and the generators outside the revealed set, a
/// function of its arguments.
#[verifier::external_body]
pub(crate) fn proof_challenge_input(
    proof: &bbs::pok_sig::PoKOfSignatureProof,
    revealed: &Vec<usize>,
    pk: &bbs::keys::PublicKey,
) -> (r: Vec<u8>)
    ensures
        r@ == challenge_input_bytes(*proof, revealed@, *pk),
{
    let set: std::collections::BTreeSet<usize> = revealed.iter().map(|i| *i).collect();
    proof.get_bytes_for_challenge(set, pk)
}

pub uninterp spec fn proof_status(
    proof: bbs::pok_sig::PoKOfSignatureProof,
    revealed: Seq<(usize, bbs::SignatureMessage)>,
    pk: bbs::keys::PublicKey,
    challenge: bbs::ProofChallenge,
) -> Option<SignatureProofStatus>;

/// Relies on `PoKOfSignatureProof::verify`: checks the two sub-proofs
/// against the revealed messages and challenge, a pure function of its
/// arguments. The source fails on an invalid key or a revealed index at or
/// beyond the generator count; it can also fail on a wire-decoded proof
/// whose first sub-proof carries a response count other than two, so a
/// sound key and sound indices do not promise a status.
#[verifier::external_body]
pub(crate) fn proof_verify(
    proof: &bbs::pok_sig::PoKOfSignatureProof,
    revealed: &Vec<(usize, bbs::SignatureMessage)>,
    pk: &bbs::keys::PublicKey,
    challenge: &bbs::ProofChallenge,
) -> (r: Option<SignatureProofStatus>)
    ensures
        r == proof_status(*proof, revealed@, *pk, *challenge),
        r is Some ==> pk_valid(*pk) && forall|j: int|
            0 <= j < revealed@.len() ==> (#[trigger] revealed@[j]).0 < message_count_of(*pk),
        !pk_valid(*pk) || (exists|j: int|
            0 <= j < revealed@.len() && (#[trigger] revealed@[j]).0 >= message_count_of(*pk))
            ==> r is None,
{
    let map: std::collections::BTreeMap<usize, bbs::SignatureMessage> =
        revealed.iter().map(|p| (p.0, p.1)).collect();
    match proof.verify(pk, &map, challenge).ok()? {
        bbs::pok_sig::PoKOfSignatureProofStatus::Success => Some(SignatureProofStatus::Success),
        bbs::pok_sig::PoKOfSignatureProofStatus::BadSignature =>
            Some(SignatureProofStatus::BadSignature),
        bbs::pok_sig::PoKOfSignatureProofStatus::BadHiddenMessage =>
            Some(SignatureProofStatus::BadHiddenMessage),
        bbs::pok_sig::PoKOfSignatureProofStatus::BadRevealedMessage =>
            Some(SignatureProofStatus::BadRevealedMessage),
    }
}

} // verus!
