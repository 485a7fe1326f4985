//! The error taxonomy of the library boundary: missing required fields at
//! finish time, malformed byte inputs, verification failures and handle
//! lifecycle failures are kept distinguishable.

use vstd::prelude::*;

verus! {

/// Everything that can go wrong at the context boundary.
#[derive(Clone, Copy, PartialEq, Eq, Structural, Debug)]
pub enum BbsFfiError {
    /// The handle does not (or no longer does) name a live context.
    HandleNotFound,
    /// Finish was called before the secret key was set.
    SecretKeyNotSet,
    /// Finish was called before the public key was set.
    PublicKeyNotSet,
    /// Finish was called before the signature was set.
    SignatureNotSet,
    /// Finish was called before the commitment was set.
    CommitmentNotSet,
    /// Finish was called before the nonce was set.
    NonceNotSet,
    /// Finish was called before the proof was set.
    ProofNotSet,
    /// Finish was called with no messages accumulated.
    NoMessages,
    /// Finish was called with no blinded indices accumulated.
    NoBlindedIndices,
    /// An add operation received an empty message.
    EmptyMessage,
    /// An externally blinded proof message came without a blinding factor.
    EmptyBlindingFactor,
    /// A set operation received an empty secret key.
    EmptySecretKey,
    /// A set operation received an empty public key.
    EmptyPublicKey,
    /// A set operation received an empty signature.
    EmptySignature,
    /// A set operation received an empty nonce.
    EmptyNonce,
    /// A set operation received an empty commitment.
    EmptyCommitment,
    /// A set operation received an empty proof.
    EmptyProof,
    /// The bytes do not deserialize as a secret key.
    BadSecretKeyBytes,
    /// The bytes do not deserialize as a public key.
    BadPublicKeyBytes,
    /// The bytes do not deserialize as a deterministic public key.
    BadDeterministicPublicKeyBytes,
    /// The bytes do not deserialize as a signature.
    BadSignatureBytes,
    /// The bytes do not deserialize as a blind signature.
    BadBlindSignatureBytes,
    /// The bytes do not deserialize as a commitment.
    BadCommitmentBytes,
    /// The bytes do not deserialize as a nonce scalar.
    BadNonceBytes,
    /// The bytes do not deserialize as a blinding factor scalar.
    BadBlindingFactorBytes,
    /// The bytes do not deserialize as a message scalar.
    BadMessageBytes,
    /// The bytes do not deserialize as a proof.
    BadProofBytes,
    /// The number of messages does not match the public key's generator count.
    MessageCountMismatch,
    /// A message index lies outside the public key's generator range.
    InvalidMessageIndex,
    /// A message count of zero was requested for key expansion.
    KeyGenError,
    /// The public key failed structural validation.
    InvalidPublicKey,
    /// The revealed index set of the proof differs from the verifier's.
    IndicesMismatch,
    /// The proof of hidden messages was rejected.
    BadHiddenMessagesProof,
    /// The signature and the supplied messages do not match.
    MessagesSignatureMismatch,
}

impl BbsFfiError {
    /// The diagnostic text of each error, as a mathematical value.
    pub open spec fn message_view(self) -> Seq<char> {
        match self {
            BbsFfiError::HandleNotFound => "Handle not found"@,
            BbsFfiError::SecretKeyNotSet => "Secret Key must be set"@,
            BbsFfiError::PublicKeyNotSet => "Public Key must be set"@,
            BbsFfiError::SignatureNotSet => "Signature must be set"@,
            BbsFfiError::CommitmentNotSet => "Commitment must be set"@,
            BbsFfiError::NonceNotSet => "Nonce must be set"@,
            BbsFfiError::ProofNotSet => "Proof must be set"@,
            BbsFfiError::NoMessages => "Messages cannot be empty"@,
            BbsFfiError::NoBlindedIndices => "Blinded indices cannot be empty"@,
            BbsFfiError::EmptyMessage => "Message cannot be empty"@,
            BbsFfiError::EmptyBlindingFactor => "Blinding Factor cannot be empty"@,
            BbsFfiError::EmptySecretKey => "SecretKey cannot be empty"@,
            BbsFfiError::EmptyPublicKey => "PublicKey cannot be empty"@,
            BbsFfiError::EmptySignature => "Signature cannot be empty"@,
            BbsFfiError::EmptyNonce => "ProofNonce cannot be empty"@,
            BbsFfiError::EmptyCommitment => "Commitment cannot be empty"@,
            BbsFfiError::EmptyProof => "Proof cannot be empty"@,
            BbsFfiError::BadSecretKeyBytes => "Invalid secret key bytes"@,
            BbsFfiError::BadPublicKeyBytes => "Invalid public key bytes"@,
            BbsFfiError::BadDeterministicPublicKeyBytes => "Invalid deterministic public key bytes"@,
            BbsFfiError::BadSignatureBytes => "Invalid signature bytes"@,
            BbsFfiError::BadBlindSignatureBytes => "Invalid blind signature bytes"@,
            BbsFfiError::BadCommitmentBytes => "Invalid commitment bytes"@,
            BbsFfiError::BadNonceBytes => "Invalid nonce bytes"@,
            BbsFfiError::BadBlindingFactorBytes => "Invalid blinding factor bytes"@,
            BbsFfiError::BadMessageBytes => "Invalid message bytes"@,
            BbsFfiError::BadProofBytes => "Invalid proof bytes"@,
            BbsFfiError::MessageCountMismatch => "Message count does not match public key"@,
            BbsFfiError::InvalidMessageIndex => "Message index is out of range"@,
            BbsFfiError::KeyGenError => "Key generation failed"@,
            BbsFfiError::InvalidPublicKey => "Public key failed validation"@,
            BbsFfiError::IndicesMismatch => "Indices are not equal"@,
            BbsFfiError::BadHiddenMessagesProof => "Bad hidden message in proof"@,
            BbsFfiError::MessagesSignatureMismatch => "The messages and signature do not match"@,
        }
    }

    /// The diagnostic text of each error.
    pub fn message(&self) -> (r: &'static str)
        ensures
            r@ == self.message_view(),
    {
        match self {
            BbsFfiError::HandleNotFound => "Handle not found",
            BbsFfiError::SecretKeyNotSet => "Secret Key must be set",
            BbsFfiError::PublicKeyNotSet => "Public Key must be set",
            BbsFfiError::SignatureNotSet => "Signature must be set",
            BbsFfiError::CommitmentNotSet => "Commitment must be set",
            BbsFfiError::NonceNotSet => "Nonce must be set",
            BbsFfiError::ProofNotSet => "Proof must be set",
            BbsFfiError::NoMessages => "Messages cannot be empty",
            BbsFfiError::NoBlindedIndices => "Blinded indices cannot be empty",
            BbsFfiError::EmptyMessage => "Message cannot be empty",
            BbsFfiError::EmptyBlindingFactor => "Blinding Factor cannot be empty",
            BbsFfiError::EmptySecretKey => "SecretKey cannot be empty",
            BbsFfiError::EmptyPublicKey => "PublicKey cannot be empty",
            BbsFfiError::EmptySignature => "Signature cannot be empty",
            BbsFfiError::EmptyNonce => "ProofNonce cannot be empty",
            BbsFfiError::EmptyCommitment => "Commitment cannot be empty",
            BbsFfiError::EmptyProof => "Proof cannot be empty",
            BbsFfiError::BadSecretKeyBytes => "Invalid secret key bytes",
            BbsFfiError::BadPublicKeyBytes => "Invalid public key bytes",
            BbsFfiError::BadDeterministicPublicKeyBytes => "Invalid deterministic public key bytes",
            BbsFfiError::BadSignatureBytes => "Invalid signature bytes",
            BbsFfiError::BadBlindSignatureBytes => "Invalid blind signature bytes",
            BbsFfiError::BadCommitmentBytes => "Invalid commitment bytes",
            BbsFfiError::BadNonceBytes => "Invalid nonce bytes",
            BbsFfiError::BadBlindingFactorBytes => "Invalid blinding factor bytes",
            BbsFfiError::BadMessageBytes => "Invalid message bytes",
            BbsFfiError::BadProofBytes => "Invalid proof bytes",
            BbsFfiError::MessageCountMismatch => "Message count does not match public key",
            BbsFfiError::InvalidMessageIndex => "Message index is out of range",
            BbsFfiError::KeyGenError => "Key generation failed",
            BbsFfiError::InvalidPublicKey => "Public key failed validation",
            BbsFfiError::IndicesMismatch => "Indices are not equal",
            BbsFfiError::BadHiddenMessagesProof => "Bad hidden message in proof",
            BbsFfiError::MessagesSignatureMismatch => "The messages and signature do not match",
        }
    }
}

/// The four distinguishable outcomes of selective-disclosure proof
/// verification.
#[derive(Clone, Copy, PartialEq, Eq, Structural, Debug)]
pub enum SignatureProofStatus {
    /// The proof verified.
    Success,
    /// The signature proof of knowledge failed.
    BadSignature,
    /// A hidden message was invalid when the proof was created.
    BadHiddenMessage,
    /// A revealed message was invalid.
    BadRevealedMessage,
}

impl SignatureProofStatus {
    /// Whether the status stands for a successful verification.
    pub fn is_valid(&self) -> (r: bool)
        ensures
            r == (*self == SignatureProofStatus::Success),
    {
        match self {
            SignatureProofStatus::Success => true,
            _ => false,
        }
    }
}

/// A slot holding the text of the most recent failure, for callers that
/// report errors through a side channel rather than a return value.
pub struct LastErrorSlot {
    /// The stored diagnostic text, if any failure was recorded.
    pub message: Option<String>,
}

impl LastErrorSlot {
    /// A slot with nothing recorded yet.
    pub fn new() -> (r: LastErrorSlot)
        ensures
            r.message is None,
    {
        LastErrorSlot { message: None }
    }
}

/// Records the text of the most recent failure in the given slot,
/// replacing whatever was stored before.
pub fn update_last_error(slot: &mut LastErrorSlot, message: String)
    ensures
        final(slot).message matches Some(m) && m@ == message@,
{
    slot.message = Some(message);
}

} // verus!
