//! The key set that tokens are verified against.
use vstd::prelude::*;
use crate::codec::{base64url_decoded, Base64String};

verus! {

/// The key material of a key. Only RSA public keys are modelled: the
/// modulus `n` and the exponent `e`, each as base64url text.
pub enum JWKContent {
    RSA { n: Base64String, e: Base64String },
}

/// The bytes that base64url text holds, if it is such text.
pub open spec fn decoded(s: Base64String) -> Option<Seq<u8>> {
    base64url_decoded(vstd::utf8::encode_utf8(s.0@))
}

/// The RSA public components `(n, e)` of `c`, or `None` where one of them is
/// not base64url text.
pub open spec fn rsa_components(c: JWKContent) -> Option<(Seq<u8>, Seq<u8>)> {
    match c {
        JWKContent::RSA { n, e } => match (decoded(n), decoded(e)) {
            (Some(nb), Some(eb)) => Some((nb, eb)),
            _ => None,
        },
    }
}

impl JWKContent {
    /// The RSA public components `(n, e)`; `None` for a key of another type.
    pub fn try_generate_rsa_pubkey(&self) -> (r: Result<Option<(Vec<u8>, Vec<u8>)>, base64::DecodeError>)
        ensures
            r is Ok <==> rsa_components(*self) is Some,
            r is Ok ==> r->Ok_0 is Some && (r->Ok_0->Some_0.0@, r->Ok_0->Some_0.1@) == rsa_components(
                *self,
            )->Some_0,
    {
        match self {
            JWKContent::RSA { n, e } => {
                let nb = n.decode()?;
                let eb = e.decode()?;
                Ok(Some((nb, eb)))
            },
        }
    }
}

/// One key of a key set.
pub struct JWK {
    pub content: JWKContent,
    /// What the key is for; `"sig"` for signature verification.
    pub usage: String,
    /// The one algorithm that the key may be used with, if it is restricted.
    pub alg: Option<String>,
    pub kid: Option<String>,
}

/// A key set, in the order in which it was published.
pub struct JWKs {
    pub keys: Vec<JWK>,
}

} // verus!
