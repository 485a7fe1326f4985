//! The boundary to the curve library and the key-derivation primitives used
//! by key generation: scalar derivation through HKDF-SHA256, fixed-base and
//! variable-base multiplications in the two groups, and their compressed
//! serializations. Deterministic results carry names; the random seed draw
//! promises only its length.

use vstd::prelude::*;
use pairing_plus::serdes::SerDes;
use pairing_plus::CurveProjective;
use pairing_plus::hash_to_field::BaseFromRO;
use rand::RngCore;

verus! {

#[verifier::external_type_specification]
#[verifier::external_body]
pub struct ExFr(pairing_plus::bls12_381::Fr);

#[verifier::external_type_specification]
#[verifier::external_body]
pub struct ExG1(pairing_plus::bls12_381::G1);

#[verifier::external_type_specification]
#[verifier::external_body]
pub struct ExG2(pairing_plus::bls12_381::G2);

/// Relies on `rand::thread_rng` and `RngCore::fill_bytes`: a cryptographically
/// secure draw; nothing holds of the bytes but their number.
#[verifier::external_body]
pub(crate) fn random_bytes(len: usize) -> (r: Vec<u8>)
    ensures
        r@.len() == len,
{
    let mut out = vec![0u8; len];
    rand::thread_rng().fill_bytes(out.as_mut_slice());
    out
}

pub uninterp spec fn hkdf_sha256_okm(salt: Seq<u8>, ikm: Seq<u8>, info: Seq<u8>) -> Seq<u8>;

/// Relies on `Hkdf::<Sha256>::new` and `Hkdf::expand`: 48 bytes of output
/// keying material, a function of salt, input keying material and info; a
/// 48-byte output is always within HKDF's length bound.
#[verifier::external_body]
pub(crate) fn kdf_expand(salt: &Vec<u8>, ikm: &Vec<u8>, info: &Vec<u8>) -> (r: Vec<u8>)
    ensures
        r@ == hkdf_sha256_okm(salt@, ikm@, info@),
        r@.len() == 48,
{
    let h = hkdf::Hkdf::<sha2::Sha256>::new(Some(salt.as_slice()), ikm.as_slice());
    let mut okm = [0u8; 48];
    let _ = h.expand(info.as_slice(), &mut okm);
    vstd::slice::slice_to_vec(&okm)
}

pub uninterp spec fn fr_of_okm(okm: Seq<u8>) -> pairing_plus::bls12_381::Fr;

/// Relies on `Fr::from_okm`: maps 48 bytes of keying material into the
/// scalar field, a function of the bytes alone; other lengths are excluded
/// because the fixed-size view of the slice panics on them.
#[verifier::external_body]
pub(crate) fn fr_from_okm(okm: &Vec<u8>) -> (r: pairing_plus::bls12_381::Fr)
    requires
        okm@.len() == 48,
    ensures
        r == fr_of_okm(okm@),
{
    pairing_plus::bls12_381::Fr::from_okm(
        sha2::digest::generic_array::GenericArray::<
            u8,
            sha2::digest::generic_array::typenum::U48,
        >::from_slice(okm.as_slice()),
    )
}

pub uninterp spec fn fr_bytes(s: pairing_plus::bls12_381::Fr) -> Seq<u8>;

/// Relies on `Fr::serialize` in compressed form: 32 bytes, a function of the
/// scalar; writing to a byte vector cannot fail.
#[verifier::external_body]
pub(crate) fn fr_to_bytes(s: &pairing_plus::bls12_381::Fr) -> (r: Vec<u8>)
    ensures
        r@ == fr_bytes(*s),
        r@.len() == 32,
{
    let mut out = Vec::new();
    let _ = s.serialize(&mut out, true);
    out
}

pub uninterp spec fn g1_times_base(s: pairing_plus::bls12_381::Fr) -> pairing_plus::bls12_381::G1;

/// Relies on `G1::one` and `CurveProjective::mul_assign`: the G1 base point
/// multiplied by the scalar, a function of the scalar alone.
#[verifier::external_body]
pub(crate) fn g1_base_mul(s: &pairing_plus::bls12_381::Fr) -> (r: pairing_plus::bls12_381::G1)
    ensures
        r == g1_times_base(*s),
{
    let mut p = pairing_plus::bls12_381::G1::one();
    p.mul_assign(*s);
    p
}

pub uninterp spec fn g2_times_base(s: pairing_plus::bls12_381::Fr) -> pairing_plus::bls12_381::G2;

/// Relies on `G2::one` and `CurveProjective::mul_assign`: the G2 base point
/// multiplied by the scalar, a function of the scalar alone.
#[verifier::external_body]
pub(crate) fn g2_base_mul(s: &pairing_plus::bls12_381::Fr) -> (r: pairing_plus::bls12_381::G2)
    ensures
        r == g2_times_base(*s),
{
    let mut p = pairing_plus::bls12_381::G2::one();
    p.mul_assign(*s);
    p
}

pub uninterp spec fn g1_point_scaled(
    p: pairing_plus::bls12_381::G1,
    s: pairing_plus::bls12_381::Fr,
) -> pairing_plus::bls12_381::G1;

/// Relies on `CurveProjective::mul_assign` on G1: the point multiplied by
/// the scalar, a function of the two.
#[verifier::external_body]
pub(crate) fn g1_mul_point(
    p: &pairing_plus::bls12_381::G1,
    s: &pairing_plus::bls12_381::Fr,
) -> (r: pairing_plus::bls12_381::G1)
    ensures
        r == g1_point_scaled(*p, *s),
{
    let mut q = *p;
    q.mul_assign(*s);
    q
}

pub uninterp spec fn g2_point_scaled(
    p: pairing_plus::bls12_381::G2,
    s: pairing_plus::bls12_381::Fr,
) -> pairing_plus::bls12_381::G2;

/// Relies on `CurveProjective::mul_assign` on G2: the point multiplied by
/// the scalar, a function of the two.
#[verifier::external_body]
pub(crate) fn g2_mul_point(
    p: &pairing_plus::bls12_381::G2,
    s: &pairing_plus::bls12_381::Fr,
) -> (r: pairing_plus::bls12_381::G2)
    ensures
        r == g2_point_scaled(*p, *s),
{
    let mut q = *p;
    q.mul_assign(*s);
    q
}

pub uninterp spec fn g1_point_sum(
    a: pairing_plus::bls12_381::G1,
    b: pairing_plus::bls12_381::G1,
) -> pairing_plus::bls12_381::G1;

/// Relies on `CurveProjective::add_assign` on G1: the sum of the two points.
#[verifier::external_body]
pub(crate) fn g1_add_points(
    a: &pairing_plus::bls12_381::G1,
    b: &pairing_plus::bls12_381::G1,
) -> (r: pairing_plus::bls12_381::G1)
    ensures
        r == g1_point_sum(*a, *b),
{
    let mut q = *a;
    q.add_assign(b);
    q
}

pub uninterp spec fn g2_point_sum(
    a: pairing_plus::bls12_381::G2,
    b: pairing_plus::bls12_381::G2,
) -> pairing_plus::bls12_381::G2;

/// Relies on `CurveProjective::add_assign` on G2: the sum of the two points.
#[verifier::external_body]
pub(crate) fn g2_add_points(
    a: &pairing_plus::bls12_381::G2,
    b: &pairing_plus::bls12_381::G2,
) -> (r: pairing_plus::bls12_381::G2)
    ensures
        r == g2_point_sum(*a, *b),
{
    let mut q = *a;
    q.add_assign(b);
    q
}

pub uninterp spec fn g1_from_bytes(b: Seq<u8>) -> Option<pairing_plus::bls12_381::G1>;

/// Relies on `G1::deserialize` in compressed form: a pure function of the
/// bytes, rejecting what is not a compressed G1 point.
#[verifier::external_body]
pub(crate) fn g1_parse(b: &Vec<u8>) -> (r: Option<pairing_plus::bls12_381::G1>)
    ensures
        r == g1_from_bytes(b@),
{
    pairing_plus::bls12_381::G1::deserialize(&mut b.as_slice(), true).ok()
}

pub uninterp spec fn g2_from_bytes(b: Seq<u8>) -> Option<pairing_plus::bls12_381::G2>;

/// Relies on `G2::deserialize` in compressed form: a pure function of the
/// bytes, rejecting what is not a compressed G2 point.
#[verifier::external_body]
pub(crate) fn g2_parse(b: &Vec<u8>) -> (r: Option<pairing_plus::bls12_381::G2>)
    ensures
        r == g2_from_bytes(b@),
{
    pairing_plus::bls12_381::G2::deserialize(&mut b.as_slice(), true).ok()
}

pub uninterp spec fn g1_bytes(p: pairing_plus::bls12_381::G1) -> Seq<u8>;

/// Relies on `G1::serialize` in compressed form: 48 bytes, a function of the
/// point; writing to a byte vector cannot fail.
#[verifier::external_body]
pub(crate) fn g1_to_bytes(p: &pairing_plus::bls12_381::G1) -> (r: Vec<u8>)
    ensures
        r@ == g1_bytes(*p),
        r@.len() == 48,
{
    let mut out = Vec::new();
    let _ = p.serialize(&mut out, true);
    out
}

pub uninterp spec fn g2_bytes(p: pairing_plus::bls12_381::G2) -> Seq<u8>;

/// Relies on `G2::serialize` in compressed form: 96 bytes, a function of the
/// point; writing to a byte vector cannot fail.
#[verifier::external_body]
pub(crate) fn g2_to_bytes(p: &pairing_plus::bls12_381::G2) -> (r: Vec<u8>)
    ensures
        r@ == g2_bytes(*p),
        r@.len() == 96,
{
    let mut out = Vec::new();
    let _ = p.serialize(&mut out, true);
    out
}

} // verus!
