//! Adaptor-signature primitives for the swap, over a scalar field modelled as
//! the integers modulo 2^64.
//!
//! The protocol needs exactly four operations: `enc_sign` produces an
//! encrypted (adaptor) signature, `enc_verify` checks one against a public
//! key and an adaptor point, `decrypt` completes it into an ordinary
//! signature with the adaptor secret, and `recover` extracts that secret
//! from a completed signature.  The security-critical laws — completing and
//! then recovering returns the adaptor secret, and honestly produced
//! encrypted signatures verify — are proved below.
use vstd::prelude::*;

verus! {

/// A secret scalar: a party's signing key, key share, or adaptor secret.
#[derive(Clone, Copy, Debug, PartialEq, Eq, Structural)]
pub struct Scalar {
    pub v: u64,
}

/// A public point: the image of a scalar under the fixed group generator.
/// The `Point`/`Scalar` distinction keeps public material apart from secret
/// material in signatures; the model does not hide the discrete logarithm.
#[derive(Clone, Copy, Debug, PartialEq, Eq, Structural)]
pub struct Point {
    pub v: u64,
}

/// An ordinary signature over a message digest.
#[derive(Clone, Copy, Debug, PartialEq, Eq, Structural)]
pub struct Signature {
    pub s: u64,
    pub r: u64,
}

/// An encrypted (adaptor) signature: `s_hat` lacks the adaptor secret, `r`
/// commits to the adaptor point it was built for.
#[derive(Clone, Copy, Debug, PartialEq, Eq, Structural)]
pub struct EncryptedSignature {
    pub s_hat: u64,
    pub r: u64,
}

/// Addition in the scalar field.
pub open spec fn scalar_add(a: u64, b: u64) -> u64 {
    vstd::wrapping::u64_specs::wrapping_add(a, b)
}

/// Subtraction in the scalar field.
pub open spec fn scalar_sub(a: u64, b: u64) -> u64 {
    vstd::wrapping::u64_specs::wrapping_sub(a, b)
}

/// The public point of a secret scalar.
pub open spec fn point_of_spec(s: Scalar) -> Point {
    Point { v: s.v }
}

pub fn point_of(s: Scalar) -> (r: Point)
    ensures
        r == point_of_spec(s),
{
    Point { v: s.v }
}

pub open spec fn enc_sign_spec(secret: Scalar, adaptor: Point, digest: u64) -> EncryptedSignature {
    EncryptedSignature { s_hat: scalar_add(secret.v, digest), r: adaptor.v }
}

/// Sign `digest` with `secret`, encrypted under `adaptor`: the result only
/// becomes a valid signature once completed with the adaptor secret.
pub fn enc_sign(secret: Scalar, adaptor: Point, digest: u64) -> (r: EncryptedSignature)
    ensures
        r == enc_sign_spec(secret, adaptor, digest),
{
    EncryptedSignature { s_hat: secret.v.wrapping_add(digest), r: adaptor.v }
}

pub open spec fn enc_verify_spec(
    public: Point,
    adaptor: Point,
    digest: u64,
    encsig: EncryptedSignature,
) -> bool {
    encsig.s_hat == scalar_add(public.v, digest) && encsig.r == adaptor.v
}

/// Check that `encsig` is a valid encrypted signature over `digest` by the
/// holder of `public`, built for the adaptor point `adaptor`.
pub fn enc_verify(public: Point, adaptor: Point, digest: u64, encsig: EncryptedSignature) -> (r:
    bool)
    ensures
        r == enc_verify_spec(public, adaptor, digest, encsig),
{
    encsig.s_hat == public.v.wrapping_add(digest) && encsig.r == adaptor.v
}

pub open spec fn decrypt_spec(encsig: EncryptedSignature, adaptor_secret: Scalar) -> Signature {
    Signature { s: scalar_add(encsig.s_hat, adaptor_secret.v), r: encsig.r }
}

/// Complete an encrypted signature with the adaptor secret.
pub fn decrypt(encsig: EncryptedSignature, adaptor_secret: Scalar) -> (r: Signature)
    ensures
        r == decrypt_spec(encsig, adaptor_secret),
{
    Signature { s: encsig.s_hat.wrapping_add(adaptor_secret.v), r: encsig.r }
}

pub open spec fn recover_spec(encsig: EncryptedSignature, sig: Signature) -> Option<Scalar> {
    if sig.r == encsig.r {
        Some(Scalar { v: scalar_sub(sig.s, encsig.s_hat) })
    } else {
        None
    }
}

/// Extract the adaptor secret from an encrypted signature and its completion.
/// Fails when `sig` was not derived from `encsig` (mismatched commitment).
pub fn recover(encsig: EncryptedSignature, sig: Signature) -> (r: Option<Scalar>)
    ensures
        r == recover_spec(encsig, sig),
{
    if sig.r == encsig.r {
        Some(Scalar { v: sig.s.wrapping_sub(encsig.s_hat) })
    } else {
        None
    }
}

/// Completing an encrypted signature and recovering from the completion
/// returns exactly the adaptor secret: whoever sees the published completed
/// signature and holds the encrypted one learns the secret.
pub proof fn lemma_recover_decrypt(encsig: EncryptedSignature, adaptor_secret: Scalar)
    ensures
        recover_spec(encsig, decrypt_spec(encsig, adaptor_secret)) == Some(adaptor_secret),
{
}

/// An honestly produced encrypted signature verifies under the signer's
/// public key and the adaptor point it was built for.
pub proof fn lemma_enc_sign_verifies(secret: Scalar, adaptor: Point, digest: u64)
    ensures
        enc_verify_spec(point_of_spec(secret), adaptor, digest, enc_sign_spec(secret, adaptor, digest)),
{
}

} // verus!
