//! BBS+ multi-message signatures with blind signing and selective-disclosure
//! proofs, exposed through a handle-based context protocol.
//!
//! The pairing arithmetic itself comes from the `bbs` and `pairing-plus`
//! crates; this library owns the context state machines, the byte framing of
//! keys, signatures and proofs, and the error taxonomy of the boundary.

use vstd::prelude::*;

pub mod bbs_api;
pub mod bbs_blind_commitment;
pub mod bbs_blind_sign;
pub mod bbs_create_proof;
pub mod bbs_sign;
pub mod bbs_verify_proof;
pub mod bbs_verify_sign_proof;
pub mod bls;
pub mod codec;
pub mod curve;
pub mod errors;
pub mod handles;
pub mod index_map;

verus! {

/// Number of bytes in a compressed field scalar.
pub const FR_COMPRESSED_SIZE: usize = 32;

/// Number of bytes in a compressed G1 point.
pub const G1_COMPRESSED_SIZE: usize = 48;

/// Number of bytes in a compressed G2 point.
pub const G2_COMPRESSED_SIZE: usize = 96;

/// Number of bytes in a compressed signature: one G1 point and two scalars.
pub const SIGNATURE_COMPRESSED_SIZE: usize = 112;

/// Number of bytes in a compressed deterministic public key (a G2 point).
pub const DPK_COMPRESSED_SIZE: usize = 96;

} // verus!
