//! Verification of RS256 signatures.
use vstd::prelude::*;

verus! {

/// A backend that checks RSASSA-PKCS1-v1_5 signatures over SHA-256.
pub trait SignatureVerifier {
    type Error;

    /// Whether the backend accepts `signature` over `message` for the public
    /// key with modulus `n` and exponent `e`. A backend that accepts anything
    /// must say what; one that does not say is taken to accept nothing.
    open spec fn accepts(&self, n: Seq<u8>, e: Seq<u8>, signature: Seq<u8>, message: Seq<u8>) -> bool {
        false
    }

    fn verify_rs256(
        &self,
        pubkey_n: &[u8],
        pubkey_e: &[u8],
        signature: &[u8],
        message: &[u8],
    ) -> (r: Result<(), Self::Error>)
        ensures
            r is Ok <==> self.accepts(pubkey_n@, pubkey_e@, signature@, message@),
    ;
}

#[verifier::external_type_specification]
#[verifier::external_body]
pub struct ExUnspecified(ring::error::Unspecified);

/// Whether ring's RSA PKCS#1 2048-8192-bit SHA-256 check accepts `signature`
/// over `message` for the public key `(n, e)`.
pub uninterp spec fn ring_rs256_accepts(
    n: Seq<u8>,
    e: Seq<u8>,
    signature: Seq<u8>,
    message: Seq<u8>,
) -> bool;

/// Relies on `ring::signature::RsaPublicKeyComponents::verify` with
/// `RSA_PKCS1_2048_8192_SHA256`: its answer depends on the four byte strings
/// alone.
#[verifier::external_body]
fn ring_verify(n: &[u8], e: &[u8], signature: &[u8], message: &[u8]) -> (r: Result<
    (),
    ring::error::Unspecified,
>)
    ensures
        r is Ok <==> ring_rs256_accepts(n@, e@, signature@, message@),
{
    ring::signature::RsaPublicKeyComponents { n, e }.verify(
        &ring::signature::RSA_PKCS1_2048_8192_SHA256,
        message,
        signature,
    )
}

/// The native backend, built on ring.
pub struct RingSignatureVerifier;

impl SignatureVerifier for RingSignatureVerifier {
    type Error = ring::error::Unspecified;

    open spec fn accepts(&self, n: Seq<u8>, e: Seq<u8>, signature: Seq<u8>, message: Seq<u8>) -> bool {
        ring_rs256_accepts(n, e, signature, message)
    }

    fn verify_rs256(
        &self,
        pubkey_n: &[u8],
        pubkey_e: &[u8],
        signature: &[u8],
        message: &[u8],
    ) -> (r: Result<(), Self::Error>) {
        ring_verify(pubkey_n, pubkey_e, signature, message)
    }
}

} // verus!
