//! Reversible obfuscation of public content ids under a master key.
use vstd::prelude::*;
use vstd::string::StringSliceAdditionalSpecFns;

verus! {

#[verifier::external_type_specification]
#[verifier::external_body]
pub struct ExFromHexError(hex::FromHexError);

/// The value of one hexadecimal digit, either case.
pub open spec fn hex_digit(b: u8) -> Option<nat> {
    if 0x30 <= b <= 0x39 {
        Some((b - 0x30) as nat)
    } else if 0x61 <= b <= 0x66 {
        Some((b - 0x61 + 10) as nat)
    } else if 0x41 <= b <= 0x46 {
        Some((b - 0x41 + 10) as nat)
    } else {
        None
    }
}

/// The ten bytes that twenty hexadecimal digits spell, two digits to a byte,
/// the high digit first.
pub open spec fn hex_key(data: Seq<u8>) -> Option<Seq<u8>> {
    if data.len() == 20 && forall|i: int| 0 <= i < 20 ==> (#[trigger] hex_digit(data[i])) is Some {
        Some(
            Seq::new(
                10,
                |i: int| (hex_digit(data[2 * i])->Some_0 * 16 + hex_digit(data[2 * i + 1])->Some_0) as u8,
            ),
        )
    } else {
        None
    }
}

/// Relies on `hex::decode_to_slice` into ten bytes: it succeeds exactly on
/// twenty hexadecimal digits and writes the bytes that they spell.
#[verifier::external_body]
fn decode_hex_key(data: &[u8]) -> (r: Result<[u8; 10], hex::FromHexError>)
    ensures
        r is Ok <==> hex_key(data@) is Some,
        r is Ok ==> r->Ok_0@ == hex_key(data@)->Some_0,
{
    let mut sink = [0u8; 10];
    hex::decode_to_slice(data, &mut sink)?;
    Ok(sink)
}

/// The Skip32 encryption of `x` under `key`.
pub uninterp spec fn skip32_encoded(key: Seq<u8>, x: u32) -> u32;

/// The Skip32 decryption of `x` under `key`.
pub uninterp spec fn skip32_decoded(key: Seq<u8>, x: u32) -> u32;

/// Relies on `skip32::encode`: the result depends on the key and the input
/// alone.
#[verifier::external_body]
fn skip32_encode(key: &[u8; 10], x: u32) -> (r: u32)
    ensures
        r == skip32_encoded(key@, x),
{
    skip32::encode(key, x)
}

/// Relies on `skip32::decode`: the result depends on the key and the input
/// alone.
#[verifier::external_body]
fn skip32_decode(key: &[u8; 10], x: u32) -> (r: u32)
    ensures
        r == skip32_decoded(key@, x),
{
    skip32::decode(key, x)
}

/// Turns internal content ids into public ones and back, under a ten-byte
/// master key.
pub struct ContentIDObfuscator(pub [u8; 10]);

impl ContentIDObfuscator {
    /// The obfuscator under the key that `master_key` spells in hexadecimal.
    pub fn from_hex_string(master_key: &str) -> (r: Result<Self, hex::FromHexError>)
        ensures
            r is Ok <==> hex_key(master_key.spec_bytes()) is Some,
            r is Ok ==> r->Ok_0.0@ == hex_key(master_key.spec_bytes())->Some_0,
    {
        let sink = decode_hex_key(master_key.as_bytes())?;
        Ok(Self::new(sink))
    }

    pub fn new(master_key: [u8; 10]) -> (r: Self)
        ensures
            r.0 == master_key,
    {
        ContentIDObfuscator(master_key)
    }

    /// The public id of the internal id `id`.
    pub fn obfuscate(&self, id: u32) -> (r: u32)
        ensures
            r == skip32_encoded(self.0@, id),
    {
        skip32_encode(&self.0, id)
    }

    /// The internal id of the public id `id`.
    pub fn deobfuscate(&self, id: u32) -> (r: u32)
        ensures
            r == skip32_decoded(self.0@, id),
    {
        skip32_decode(&self.0, id)
    }
}

} // verus!
