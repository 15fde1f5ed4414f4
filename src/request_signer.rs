use vstd::prelude::*;

use crate::did_verification::{jwk_text_valid, parse_jwk};

verus! {

/// Why a signer could not be built.
#[derive(Debug, Clone, Copy, PartialEq, Eq)]
pub enum SignerError {
    /// The bytes are not a P-256 secret scalar.
    InvalidKey,
    /// The public key's JWK text did not read as a JWK.
    InvalidJwk,
}

/// Whether the bytes are a P-256 secret scalar.
pub uninterp spec fn p256_secret_valid(b: Seq<u8>) -> bool;

/// The JWK text of the public key of a P-256 secret scalar.
pub uninterp spec fn p256_public_jwk(secret: Seq<u8>) -> Seq<char>;

/// The `ES256` signature (deterministic nonce, `r` then `s`) of a payload under a
/// P-256 secret scalar.
pub uninterp spec fn es256_signature(secret: Seq<u8>, payload: Seq<u8>) -> Seq<u8>;

/// Relies on `p256::ecdsa::SigningKey::from_slice`, then `to_jwk_string` of its
/// public key: the JWK text of the public key of a secret scalar, where the bytes
/// are one.
#[verifier::external_body]
fn public_jwk_text(secret: &[u8]) -> (r: Option<String>)
    ensures
        r is Some <==> p256_secret_valid(secret@),
        r matches Some(t) ==> t@ == p256_public_jwk(secret@),
{
    p256::ecdsa::SigningKey::from_slice(secret).ok().map(
        |k| p256::PublicKey::from(k.verifying_key()).to_jwk_string(),
    )
}

/// Relies on `p256::ecdsa::SigningKey::from_slice` and its `sign` (ECDSA over
/// SHA-256, deterministic nonces): the signature of the payload as its 64 bytes,
/// `r` then `s`.
#[verifier::external_body]
fn sign_es256(secret: &[u8], payload: &[u8]) -> (r: Vec<u8>)
    requires
        p256_secret_valid(secret@),
    ensures
        r@ == es256_signature(secret@, payload@),
        r@.len() == 64,
{
    let key = p256::ecdsa::SigningKey::from_slice(secret).unwrap();
    let sig: p256::ecdsa::Signature = p256::ecdsa::signature::Signer::sign(&key, payload);
    sig.to_vec()
}

/// Signs authorization requests with a P-256 key, as `ES256`.
#[derive(Debug)]
pub struct P256Signer {
    secret: Vec<u8>,
    jwk: ssi_jwk::JWK,
}

impl P256Signer {
    #[verifier::type_invariant]
    spec fn inv(&self) -> bool {
        p256_secret_valid(self.secret@)
    }

    /// The secret scalar of the signer.
    pub closed spec fn spec_secret(&self) -> Seq<u8> {
        self.secret@
    }

    /// A signer for the secret scalar `secret` (its big-endian bytes; shorter
    /// ones are read as padded on the left), which publishes the public key as a
    /// JWK.
    pub fn new(secret: Vec<u8>) -> (r: Result<P256Signer, SignerError>)
        ensures
            !p256_secret_valid(secret@) ==> r == Err::<P256Signer, SignerError>(
                SignerError::InvalidKey,
            ),
            p256_secret_valid(secret@) && !jwk_text_valid(p256_public_jwk(secret@)) ==> r == Err::<
                P256Signer,
                SignerError,
            >(SignerError::InvalidJwk),
            p256_secret_valid(secret@) && jwk_text_valid(p256_public_jwk(secret@)) ==> (r matches Ok(
                s,
            ) && s.spec_secret() == secret@),
    {
        let text = match public_jwk_text(secret.as_slice()) {
            Some(t) => t,
            None => return Err(SignerError::InvalidKey),
        };
        match parse_jwk(text.as_str()) {
            Some(jwk) => Ok(P256Signer { secret, jwk }),
            None => Err(SignerError::InvalidJwk),
        }
    }

    /// The algorithm that the signer signs with.
    pub fn alg(&self) -> (r: &str)
        ensures
            r@ == "ES256"@,
    {
        "ES256"
    }

    /// The public JWK of the signer.
    pub fn jwk(&self) -> (r: &ssi_jwk::JWK) {
        &self.jwk
    }

    /// The `ES256` signature of `payload`, as 64 bytes.
    pub fn sign(&self, payload: &[u8]) -> (r: Vec<u8>)
        ensures
            r@ == es256_signature(self.spec_secret(), payload@),
            r@.len() == 64,
    {
        proof {
            use_type_invariant(self);
        }
        sign_es256(self.secret.as_slice(), payload)
    }
}

} // verus!
