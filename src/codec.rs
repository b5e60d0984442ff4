//! Unpadded URL-safe base64 and UTF-8 decoding of token segments.
use vstd::prelude::*;

verus! {

#[verifier::external_type_specification]
#[verifier::external_body]
pub struct ExDecodeError(base64::DecodeError);

#[verifier::external_type_specification]
#[verifier::external_body]
pub struct ExUtf8Error(std::str::Utf8Error);

/// What unpadded URL-safe base64 decoding yields for the given text, or
/// `None` where the text is not such an encoding.
pub uninterp spec fn base64url_decoded(text: Seq<u8>) -> Option<Seq<u8>>;

/// The unpadded URL-safe base64 text of the given bytes.
pub uninterp spec fn base64url_encoded(bytes: Seq<u8>) -> Seq<char>;

/// Relies on `base64::Engine::decode` with `URL_SAFE_NO_PAD`: decoding is a
/// function of the input text alone; it fails with a `DecodeError` exactly
/// where that function has no value.
#[verifier::external_body]
pub(crate) fn b64url_decode(text: &[u8]) -> (r: Result<Vec<u8>, base64::DecodeError>)
    ensures
        r is Ok <==> base64url_decoded(text@) is Some,
        r is Ok ==> r->Ok_0@ == base64url_decoded(text@)->Some_0,
{
    base64::Engine::decode(&base64::engine::general_purpose::URL_SAFE_NO_PAD, text)
}

/// Relies on `base64::Engine::encode` with `URL_SAFE_NO_PAD`: the text depends
/// on the bytes alone, and is four characters for every three bytes, rounded
/// up, as there is no padding.
#[verifier::external_body]
fn b64url_encode(bytes: &[u8]) -> (r: String)
    ensures
        r@ == base64url_encoded(bytes@),
        r@.len() == (4 * bytes@.len() + 2) / 3,
{
    base64::Engine::encode(&base64::engine::general_purpose::URL_SAFE_NO_PAD, bytes)
}

/// Relies on `std::str::from_utf8`: it accepts exactly the well-formed UTF-8
/// byte sequences and returns the text they encode.
#[verifier::external_body]
pub(crate) fn utf8_text(bytes: &[u8]) -> (r: Result<&str, std::str::Utf8Error>)
    ensures
        r is Ok <==> vstd::utf8::valid_utf8(bytes@),
        r is Ok ==> r->Ok_0@ == vstd::utf8::decode_utf8(bytes@),
{
    std::str::from_utf8(bytes)
}

/// Text in the unpadded URL-safe base64 alphabet, such as one segment of a
/// token or one component of a key.
pub struct Base64String(pub String);

impl Base64String {
    /// The bytes that the text encodes.
    pub fn decode(&self) -> (r: Result<Vec<u8>, base64::DecodeError>)
        ensures
            r is Ok <==> base64url_decoded(vstd::utf8::encode_utf8(self.0@)) is Some,
            r is Ok ==> r->Ok_0@ == base64url_decoded(vstd::utf8::encode_utf8(self.0@))->Some_0,
    {
        b64url_decode(self.0.as_str().as_bytes())
    }

    /// The text that encodes `input`.
    pub fn encode(input: &[u8]) -> (r: Self)
        ensures
            r.0@ == base64url_encoded(input@),
            r.0@.len() == (4 * input@.len() + 2) / 3,
    {
        Base64String(b64url_encode(input))
    }
}

} // verus!
