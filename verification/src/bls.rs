//! BLS key material: deterministic derivation of the secret scalar from a
//! seed, plain and blinded key pairs in either group, and expansion of a
//! compact public key into the per-message generators of a BBS+ key.

use vstd::prelude::*;
use crate::errors::BbsFfiError;
use crate::curve::{
    fr_of_okm, hkdf_sha256_okm, fr_bytes, fr_to_bytes, fr_from_okm, kdf_expand, random_bytes,
    g1_base_mul, g2_base_mul, g1_mul_point, g2_mul_point, g1_add_points, g2_add_points, g1_parse,
    g2_parse, g1_to_bytes, g2_to_bytes, g1_times_base, g2_times_base, g1_point_scaled,
    g2_point_scaled, g1_point_sum, g2_point_sum, g1_bytes, g2_bytes, g1_from_bytes, g2_from_bytes,
};
use crate::bbs_api::{
    sk_from_bytes, sk_parse, dpk_of, dpk_from_sk, dpk_bytes, dpk_to_bytes, dpk_from_bytes,
    dpk_parse, expanded_pk, dpk_expand, pk_valid, pk_validate, pk_bytes, pk_to_bytes,
};

verus! {

/// The fixed domain-separation salt of the key-derivation function, as a mathematical value.
pub open spec fn keygen_salt_seq() -> Seq<u8> {
    seq![
        66u8, 76u8, 83u8, 45u8, 83u8, 73u8, 71u8, 45u8, 75u8, 69u8, 89u8, 71u8, 69u8, 78u8,
        45u8, 83u8, 65u8, 76u8, 84u8, 45u8,
    ]
}

/// The fixed domain-separation salt of the key-derivation function.
pub fn keygen_salt() -> (r: Vec<u8>)
    ensures
        r@ == keygen_salt_seq(),
{
    let a: [u8; 20] = [
        66u8, 76u8, 83u8, 45u8, 83u8, 73u8, 71u8, 45u8, 75u8, 69u8, 89u8, 71u8, 69u8, 78u8,
        45u8, 83u8, 65u8, 76u8, 84u8, 45u8,
    ];
    let v = vstd::slice::slice_to_vec(a.as_slice());
    proof {
        assert(v@ =~= keygen_salt_seq());
    }
    v
}

/// The info bytes of the key-derivation function: the output length 48 as two bytes, as a mathematical value.
pub open spec fn kdf_info_seq() -> Seq<u8> {
    seq![
        0u8, 48u8,
    ]
}

/// The info bytes of the key-derivation function: the output length 48 as two bytes.
pub fn kdf_info() -> (r: Vec<u8>)
    ensures
        r@ == kdf_info_seq(),
{
    let a: [u8; 2] = [
        0u8, 48u8,
    ];
    let v = vstd::slice::slice_to_vec(a.as_slice());
    proof {
        assert(v@ =~= kdf_info_seq());
    }
    v
}

/// The fixed G1 blinding base, as compressed bytes, as a mathematical value.
pub open spec fn blinding_g1_seq() -> Seq<u8> {
    seq![
        185u8, 201u8, 5u8, 142u8, 138u8, 68u8, 184u8, 112u8, 20u8, 249u8, 139u8, 228u8, 225u8,
        129u8, 141u8, 183u8, 24u8, 248u8, 178u8, 213u8, 16u8, 31u8, 200u8, 158u8, 105u8, 131u8,
        98u8, 95u8, 50u8, 31u8, 20u8, 184u8, 77u8, 124u8, 246u8, 225u8, 85u8, 0u8, 73u8, 135u8,
        162u8, 21u8, 238u8, 66u8, 109u8, 241u8, 115u8, 201u8,
    ]
}

/// The fixed G1 blinding base, as compressed bytes.
pub fn blinding_g1() -> (r: Vec<u8>)
    ensures
        r@ == blinding_g1_seq(),
{
    let a: [u8; 48] = [
        185u8, 201u8, 5u8, 142u8, 138u8, 68u8, 184u8, 112u8, 20u8, 249u8, 139u8, 228u8, 225u8,
        129u8, 141u8, 183u8, 24u8, 248u8, 178u8, 213u8, 16u8, 31u8, 200u8, 158u8, 105u8, 131u8,
        98u8, 95u8, 50u8, 31u8, 20u8, 184u8, 77u8, 124u8, 246u8, 225u8, 85u8, 0u8, 73u8, 135u8,
        162u8, 21u8, 238u8, 66u8, 109u8, 241u8, 115u8, 201u8,
    ];
    let v = vstd::slice::slice_to_vec(a.as_slice());
    proof {
        assert(v@ =~= blinding_g1_seq());
    }
    v
}

/// The fixed G2 blinding base, as compressed bytes, as a mathematical value.
pub open spec fn blinding_g2_seq() -> Seq<u8> {
    seq![
        169u8, 99u8, 222u8, 42u8, 223u8, 177u8, 22u8, 60u8, 244u8, 190u8, 210u8, 77u8, 112u8,
        140u8, 228u8, 116u8, 50u8, 116u8, 45u8, 32u8, 128u8, 178u8, 87u8, 62u8, 190u8, 46u8,
        25u8, 168u8, 105u8, 143u8, 96u8, 197u8, 65u8, 206u8, 192u8, 0u8, 252u8, 177u8, 151u8,
        131u8, 233u8, 190u8, 115u8, 52u8, 19u8, 86u8, 223u8, 95u8, 17u8, 145u8, 205u8, 222u8,
        199u8, 196u8, 118u8, 215u8, 116u8, 43u8, 204u8, 66u8, 26u8, 252u8, 93u8, 80u8, 94u8,
        99u8, 55u8, 60u8, 98u8, 126u8, 160u8, 31u8, 218u8, 4u8, 240u8, 228u8, 1u8, 89u8, 210u8,
        91u8, 221u8, 18u8, 244u8, 90u8, 1u8, 13u8, 133u8, 128u8, 167u8, 143u8, 106u8, 125u8,
        38u8, 34u8, 114u8, 243u8,
    ]
}

/// The fixed G2 blinding base, as compressed bytes.
pub fn blinding_g2() -> (r: Vec<u8>)
    ensures
        r@ == blinding_g2_seq(),
{
    let a: [u8; 96] = [
        169u8, 99u8, 222u8, 42u8, 223u8, 177u8, 22u8, 60u8, 244u8, 190u8, 210u8, 77u8, 112u8,
        140u8, 228u8, 116u8, 50u8, 116u8, 45u8, 32u8, 128u8, 178u8, 87u8, 62u8, 190u8, 46u8,
        25u8, 168u8, 105u8, 143u8, 96u8, 197u8, 65u8, 206u8, 192u8, 0u8, 252u8, 177u8, 151u8,
        131u8, 233u8, 190u8, 115u8, 52u8, 19u8, 86u8, 223u8, 95u8, 17u8, 145u8, 205u8, 222u8,
        199u8, 196u8, 118u8, 215u8, 116u8, 43u8, 204u8, 66u8, 26u8, 252u8, 93u8, 80u8, 94u8,
        99u8, 55u8, 60u8, 98u8, 126u8, 160u8, 31u8, 218u8, 4u8, 240u8, 228u8, 1u8, 89u8, 210u8,
        91u8, 221u8, 18u8, 244u8, 90u8, 1u8, 13u8, 133u8, 128u8, 167u8, 143u8, 106u8, 125u8,
        38u8, 34u8, 114u8, 243u8,
    ];
    let v = vstd::slice::slice_to_vec(a.as_slice());
    proof {
        assert(v@ =~= blinding_g2_seq());
    }
    v
}


/// The secret scalar derived from input keying material: HKDF-SHA256 over
/// the material with a zero byte appended, under the fixed salt, mapped into
/// the field.
pub open spec fn derived_scalar(ikm: Seq<u8>) -> pairing_plus::bls12_381::Fr {
    fr_of_okm(hkdf_sha256_okm(keygen_salt_seq(), ikm.push(0u8), kdf_info_seq()))
}

/// Derives the secret scalar from input keying material; the same material
/// always yields the same scalar.
pub fn gen_sk(ikm: &Vec<u8>) -> (r: pairing_plus::bls12_381::Fr)
    ensures
        r == derived_scalar(ikm@),
{
    let salt = keygen_salt();
    let info = kdf_info();
    let mut ikm_prime = crate::codec::copy_bytes_range(ikm, 0, ikm.len());
    ikm_prime.push(0u8);
    proof {
        assert(ikm_prime@ =~= ikm@.push(0u8));
    }
    let okm = kdf_expand(&salt, &ikm_prime, &info);
    fr_from_okm(&okm)
}

/// The byte length of a serialized secret key.
pub fn bls_secret_key_size() -> (r: i32)
    ensures
        r == crate::FR_COMPRESSED_SIZE,
{
    32
}

/// The byte length of a serialized G2 public key.
pub fn bls_public_key_g2_size() -> (r: i32)
    ensures
        r == crate::G2_COMPRESSED_SIZE,
{
    96
}

/// The byte length of a serialized G1 public key.
pub fn bls_public_key_g1_size() -> (r: i32)
    ensures
        r == crate::G1_COMPRESSED_SIZE,
{
    48
}

/// The byte length of a serialized key blinding factor.
pub fn blinding_factor_size() -> (r: i32)
    ensures
        r == crate::FR_COMPRESSED_SIZE,
{
    32
}

/// Generates a BLS key pair with the public key in G2, returning
/// (public key bytes, secret key bytes). With a seed the pair is a pure
/// function of the seed; without one it is derived the same way from a
/// fresh 32-byte draw.
pub fn bls_generate_g2_key(seed: Option<Vec<u8>>) -> (r: (Vec<u8>, Vec<u8>))
    ensures
        r.0@.len() == crate::G2_COMPRESSED_SIZE,
        r.1@.len() == crate::FR_COMPRESSED_SIZE,
        seed matches Some(s) ==> r.1@ == fr_bytes(derived_scalar(s@)) && r.0@ == g2_bytes(
            g2_times_base(derived_scalar(s@)),
        ),
        seed is None ==> (exists|ikm: Seq<u8>|
            ikm.len() == 32 && r.1@ == fr_bytes(#[trigger] derived_scalar(ikm)) && r.0@
                == g2_bytes(g2_times_base(derived_scalar(ikm)))),
{
    let ikm = match seed {
        Some(s) => s,
        None => random_bytes(32),
    };
    let ghost drawn = ikm@;
    let sk = gen_sk(&ikm);
    let pk = g2_base_mul(&sk);
    let out = (g2_to_bytes(&pk), fr_to_bytes(&sk));
    proof {
        assert(out.1@ == fr_bytes(derived_scalar(drawn)) && out.0@ == g2_bytes(
            g2_times_base(derived_scalar(drawn)),
        ));
    }
    out
}

/// Generates a BLS key pair with the public key in G1, returning
/// (public key bytes, secret key bytes). With a seed the pair is a pure
/// function of the seed; without one it is derived the same way from a
/// fresh 32-byte draw.
pub fn bls_generate_g1_key(seed: Option<Vec<u8>>) -> (r: (Vec<u8>, Vec<u8>))
    ensures
        r.0@.len() == crate::G1_COMPRESSED_SIZE,
        r.1@.len() == crate::FR_COMPRESSED_SIZE,
        seed matches Some(s) ==> r.1@ == fr_bytes(derived_scalar(s@)) && r.0@ == g1_bytes(
            g1_times_base(derived_scalar(s@)),
        ),
        seed is None ==> (exists|ikm: Seq<u8>|
            ikm.len() == 32 && r.1@ == fr_bytes(#[trigger] derived_scalar(ikm)) && r.0@
                == g1_bytes(g1_times_base(derived_scalar(ikm)))),
{
    let ikm = match seed {
        Some(s) => s,
        None => random_bytes(32),
    };
    let ghost drawn = ikm@;
    let sk = gen_sk(&ikm);
    let pk = g1_base_mul(&sk);
    let out = (g1_to_bytes(&pk), fr_to_bytes(&sk));
    proof {
        assert(out.1@ == fr_bytes(derived_scalar(drawn)) && out.0@ == g1_bytes(
            g1_times_base(derived_scalar(drawn)),
        ));
    }
    out
}

/// Generates a blinded BLS key pair with the public key in G2: the public
/// key carries an extra term, the fixed G2 blinding base raised to a
/// blinding factor. Returns (blinding factor bytes, public key bytes,
/// secret key bytes); fails only if the fixed base fails to deserialize.
pub fn bls_generate_blinded_g2_key(seed: Option<Vec<u8>>) -> (r: Result<
    (Vec<u8>, Vec<u8>, Vec<u8>),
    BbsFfiError,
>)
    ensures
        r is Err <==> g2_from_bytes(blinding_g2_seq()) is None,
        r matches Err(e) ==> e == BbsFfiError::KeyGenError,
        r matches Ok(t) ==> t.0@.len() == crate::FR_COMPRESSED_SIZE && t.1@.len()
            == crate::G2_COMPRESSED_SIZE && t.2@.len() == crate::FR_COMPRESSED_SIZE,
        r matches Ok(t) ==> (seed matches Some(s) ==> ({
            let sk = derived_scalar(s@);
            let bf = derived_scalar(blinding_g2_seq() + s@);
            &&& t.0@ == fr_bytes(bf)
            &&& t.1@ == g2_bytes(
                g2_point_sum(
                    g2_times_base(sk),
                    g2_point_scaled(g2_from_bytes(blinding_g2_seq())->Some_0, bf),
                ),
            )
            &&& t.2@ == fr_bytes(sk)
        })),
        r matches Ok(t) ==> (seed is None ==> (exists|ikm: Seq<u8>, entropy: Seq<u8>|
            #![trigger derived_scalar(ikm), derived_scalar(blinding_g2_seq() + entropy)]
            {
                let sk = derived_scalar(ikm);
                let bf = derived_scalar(blinding_g2_seq() + entropy);
                &&& ikm.len() == 32
                &&& entropy.len() == 32
                &&& t.0@ == fr_bytes(bf)
                &&& t.1@ == g2_bytes(
                    g2_point_sum(
                        g2_times_base(sk),
                        g2_point_scaled(g2_from_bytes(blinding_g2_seq())->Some_0, bf),
                    ),
                )
                &&& t.2@ == fr_bytes(sk)
            })),
{
    let bg_bytes = blinding_g2();
    let bg = match g2_parse(&bg_bytes) {
        Some(g) => g,
        None => {
            return Err(BbsFfiError::KeyGenError);
        },
    };
    match seed {
        Some(s) => {
            let sk = gen_sk(&s);
            let data = crate::codec::concat_bytes(&bg_bytes, &s);
            let bf = gen_sk(&data);
            let base = g2_base_mul(&sk);
            let blinded_part = g2_mul_point(&bg, &bf);
            let pk = g2_add_points(&base, &blinded_part);
            Ok((fr_to_bytes(&bf), g2_to_bytes(&pk), fr_to_bytes(&sk)))
        },
        None => {
            let ikm = random_bytes(32);
            let sk = gen_sk(&ikm);
            let entropy = random_bytes(32);
            let data = crate::codec::concat_bytes(&bg_bytes, &entropy);
            let bf = gen_sk(&data);
            let base = g2_base_mul(&sk);
            let blinded_part = g2_mul_point(&bg, &bf);
            let pk = g2_add_points(&base, &blinded_part);
            let out = (fr_to_bytes(&bf), g2_to_bytes(&pk), fr_to_bytes(&sk));
            proof {
                let sk_drawn = derived_scalar(ikm@);
                let bf_drawn = derived_scalar(blinding_g2_seq() + entropy@);
                assert(out.0@ == fr_bytes(bf_drawn) && out.2@ == fr_bytes(sk_drawn) && out.1@
                    == g2_bytes(
                    g2_point_sum(
                        g2_times_base(sk_drawn),
                        g2_point_scaled(g2_from_bytes(blinding_g2_seq())->Some_0, bf_drawn),
                    ),
                ));
            }
            Ok(out)
        },
    }
}

/// Generates a blinded BLS key pair with the public key in G1, as the G2
/// variant does but over the fixed G1 blinding base. Returns (blinding
/// factor bytes, public key bytes, secret key bytes).
pub fn bls_generate_blinded_g1_key(seed: Option<Vec<u8>>) -> (r: Result<
    (Vec<u8>, Vec<u8>, Vec<u8>),
    BbsFfiError,
>)
    ensures
        r is Err <==> g1_from_bytes(blinding_g1_seq()) is None,
        r matches Err(e) ==> e == BbsFfiError::KeyGenError,
        r matches Ok(t) ==> t.0@.len() == crate::FR_COMPRESSED_SIZE && t.1@.len()
            == crate::G1_COMPRESSED_SIZE && t.2@.len() == crate::FR_COMPRESSED_SIZE,
        r matches Ok(t) ==> (seed matches Some(s) ==> ({
            let sk = derived_scalar(s@);
            let bf = derived_scalar(blinding_g1_seq() + s@);
            &&& t.0@ == fr_bytes(bf)
            &&& t.1@ == g1_bytes(
                g1_point_sum(
                    g1_times_base(sk),
                    g1_point_scaled(g1_from_bytes(blinding_g1_seq())->Some_0, bf),
                ),
            )
            &&& t.2@ == fr_bytes(sk)
        })),
        r matches Ok(t) ==> (seed is None ==> (exists|ikm: Seq<u8>, entropy: Seq<u8>|
            #![trigger derived_scalar(ikm), derived_scalar(blinding_g1_seq() + entropy)]
            {
                let sk = derived_scalar(ikm);
                let bf = derived_scalar(blinding_g1_seq() + entropy);
                &&& ikm.len() == 32
                &&& entropy.len() == 32
                &&& t.0@ == fr_bytes(bf)
                &&& t.1@ == g1_bytes(
                    g1_point_sum(
                        g1_times_base(sk),
                        g1_point_scaled(g1_from_bytes(blinding_g1_seq())->Some_0, bf),
                    ),
                )
                &&& t.2@ == fr_bytes(sk)
            })),
{
    let bg_bytes = blinding_g1();
    let bg = match g1_parse(&bg_bytes) {
        Some(g) => g,
        None => {
            return Err(BbsFfiError::KeyGenError);
        },
    };
    match seed {
        Some(s) => {
            let sk = gen_sk(&s);
            let data = crate::codec::concat_bytes(&bg_bytes, &s);
            let bf = gen_sk(&data);
            let base = g1_base_mul(&sk);
            let blinded_part = g1_mul_point(&bg, &bf);
            let pk = g1_add_points(&base, &blinded_part);
            Ok((fr_to_bytes(&bf), g1_to_bytes(&pk), fr_to_bytes(&sk)))
        },
        None => {
            let ikm = random_bytes(32);
            let sk = gen_sk(&ikm);
            let entropy = random_bytes(32);
            let data = crate::codec::concat_bytes(&bg_bytes, &entropy);
            let bf = gen_sk(&data);
            let base = g1_base_mul(&sk);
            let blinded_part = g1_mul_point(&bg, &bf);
            let pk = g1_add_points(&base, &blinded_part);
            let out = (fr_to_bytes(&bf), g1_to_bytes(&pk), fr_to_bytes(&sk));
            proof {
                let sk_drawn = derived_scalar(ikm@);
                let bf_drawn = derived_scalar(blinding_g1_seq() + entropy@);
                assert(out.0@ == fr_bytes(bf_drawn) && out.2@ == fr_bytes(sk_drawn) && out.1@
                    == g1_bytes(
                    g1_point_sum(
                        g1_times_base(sk_drawn),
                        g1_point_scaled(g1_from_bytes(blinding_g1_seq())->Some_0, bf_drawn),
                    ),
                ));
            }
            Ok(out)
        },
    }
}

/// The compact public key of a secret key: the deterministic public key from
/// which a full BBS+ key can be expanded. The bytes parse back to the same
/// key, so re-expanding them loses nothing against expanding from the
/// secret key.
pub fn bls_get_public_key(secret_key: &Vec<u8>) -> (r: Result<Vec<u8>, BbsFfiError>)
    ensures
        r is Err <==> sk_from_bytes(secret_key@) is None,
        r matches Err(e) ==> e == BbsFfiError::BadSecretKeyBytes,
        r matches Ok(v) ==> v@ == dpk_bytes(dpk_of(sk_from_bytes(secret_key@)->Some_0))
            && v@.len() == crate::DPK_COMPRESSED_SIZE && dpk_from_bytes(v@) == Some(
            dpk_of(sk_from_bytes(secret_key@)->Some_0),
        ),
{
    let sk = match sk_parse(secret_key) {
        Some(k) => k,
        None => {
            return Err(BbsFfiError::BadSecretKeyBytes);
        },
    };
    let dpk = dpk_from_sk(sk);
    Ok(dpk_to_bytes(&dpk))
}

/// What expanding a deterministic public key to `message_count` generators
/// and serializing yields: an error on a zero count or a key that fails
/// validation, else the compressed key bytes.
pub open spec fn expanded_key_bytes(
    dpk: bbs::keys::DeterministicPublicKey,
    message_count: u32,
) -> Result<Seq<u8>, BbsFfiError> {
    if message_count == 0 {
        Err(BbsFfiError::KeyGenError)
    } else {
        let pk = expanded_pk(dpk, message_count as usize)->Some_0;
        if pk_valid(pk) {
            Ok(pk_bytes(pk))
        } else {
            Err(BbsFfiError::InvalidPublicKey)
        }
    }
}

/// Expands a secret key into a full BBS+ public key with one generator per
/// message: derives the compact public key, expands it and validates the
/// result.
pub fn bls_secret_key_to_bbs_key(secret_key: &Vec<u8>, message_count: u32) -> (r: Result<
    Vec<u8>,
    BbsFfiError,
>)
    ensures
        sk_from_bytes(secret_key@) is None ==> r == Err::<Vec<u8>, BbsFfiError>(
            BbsFfiError::BadSecretKeyBytes,
        ),
        sk_from_bytes(secret_key@) matches Some(sk) ==> (match expanded_key_bytes(
            dpk_of(sk),
            message_count,
        ) {
            Ok(bytes) => r matches Ok(v) && v@ == bytes,
            Err(e) => r == Err::<Vec<u8>, BbsFfiError>(e),
        }),
{
    let sk = match sk_parse(secret_key) {
        Some(k) => k,
        None => {
            return Err(BbsFfiError::BadSecretKeyBytes);
        },
    };
    let dpk = dpk_from_sk(sk);
    expand_dpk(&dpk, message_count)
}

/// Expands a compact (deterministic) public key into a full BBS+ public key
/// with one generator per message.
pub fn bls_public_key_to_bbs_key(d_public_key: &Vec<u8>, message_count: u32) -> (r: Result<
    Vec<u8>,
    BbsFfiError,
>)
    ensures
        dpk_from_bytes(d_public_key@) is None ==> r == Err::<Vec<u8>, BbsFfiError>(
            BbsFfiError::BadDeterministicPublicKeyBytes,
        ),
        dpk_from_bytes(d_public_key@) matches Some(dpk) ==> (match expanded_key_bytes(
            dpk,
            message_count,
        ) {
            Ok(bytes) => r matches Ok(v) && v@ == bytes,
            Err(e) => r == Err::<Vec<u8>, BbsFfiError>(e),
        }),
{
    let dpk = match dpk_parse(d_public_key) {
        Some(k) => k,
        None => {
            return Err(BbsFfiError::BadDeterministicPublicKeyBytes);
        },
    };
    expand_dpk(&dpk, message_count)
}

/// Expands and validates a deterministic public key, serializing the result.
fn expand_dpk(dpk: &bbs::keys::DeterministicPublicKey, message_count: u32) -> (r: Result<
    Vec<u8>,
    BbsFfiError,
>)
    ensures
        match expanded_key_bytes(*dpk, message_count) {
            Ok(bytes) => r matches Ok(v) && v@ == bytes,
            Err(e) => r == Err::<Vec<u8>, BbsFfiError>(e),
        },
{
    let pk = match dpk_expand(dpk, message_count as usize) {
        Some(p) => p,
        None => {
            return Err(BbsFfiError::KeyGenError);
        },
    };
    if !pk_validate(&pk) {
        return Err(BbsFfiError::InvalidPublicKey);
    }
    Ok(pk_to_bytes(&pk))
}


/// Re-expanding an exported compact key loses nothing: bytes that parse to
/// the compact key of a secret key - as the output of a successful compact
/// export does - expand to exactly what expanding from the secret key
/// yields, for every message count.
pub proof fn lemma_compact_key_reexpansion(
    compact: Seq<u8>,
    sk: bbs::keys::SecretKey,
    message_count: u32,
)
    requires
        dpk_from_bytes(compact) == Some(dpk_of(sk)),
    ensures
        expanded_key_bytes(dpk_from_bytes(compact)->Some_0, message_count) == expanded_key_bytes(
            dpk_of(sk),
            message_count,
        ),
{
}

} // verus!
