//! Classification of a compact serialization by its dot-separated segments.
use vstd::prelude::*;
use vstd::string::StringSliceAdditionalSpecFns;

verus! {

/// The byte that separates the segments of a compact serialization.
pub const DOT: u8 = 0x2e;

/// The dot-separated segments of `b`, in order; empty segments included.
pub open spec fn segments(b: Seq<u8>) -> Seq<Seq<u8>>
    decreases b.len(),
{
    if b.len() == 0 {
        seq![Seq::<u8>::empty()]
    } else {
        let prev = segments(b.drop_last());
        if b.last() == DOT {
            prev.push(Seq::<u8>::empty())
        } else {
            prev.update(prev.len() - 1, prev.last().push(b.last()))
        }
    }
}

/// The shape of a token: three segments for a signed token, five for an
/// encrypted one.
pub enum TokenType {
    JWS { header: Vec<u8>, claim: Vec<u8>, signature: Vec<u8> },
    JWE {
        header: Vec<u8>,
        encrypted_key: Vec<u8>,
        initialization_vector: Vec<u8>,
        ciphertext: Vec<u8>,
        authentication_tag: Vec<u8>,
    },
}

impl TokenType {
    /// The segments that this shape holds, in order.
    pub open spec fn parts(&self) -> Seq<Seq<u8>> {
        match self {
            TokenType::JWS { header, claim, signature } => seq![header@, claim@, signature@],
            TokenType::JWE {
                header,
                encrypted_key,
                initialization_vector,
                ciphertext,
                authentication_tag,
            } => seq![
                header@,
                encrypted_key@,
                initialization_vector@,
                ciphertext@,
                authentication_tag@,
            ],
        }
    }
}

/// Splits `token` on `.`: three segments make a signed token, five an
/// encrypted one, any other count nothing.
pub fn split(token: &str) -> (r: Option<TokenType>)
    ensures
        ({
            let segs = segments(token.spec_bytes());
            match r {
                None => segs.len() != 3 && segs.len() != 5,
                Some(t) => t.parts() == segs && (t is JWS <==> segs.len() == 3),
            }
        }),
{
    let bytes = token.as_bytes();
    let mut done: Vec<Vec<u8>> = Vec::new();
    let mut current: Vec<u8> = Vec::new();
    let mut i: usize = 0;
    while i < bytes.len()
        invariant
            0 <= i <= bytes@.len(),
            bytes@ == token.spec_bytes(),
            done@.map_values(|v: Vec<u8>| v@).push(current@) == segments(bytes@.subrange(0, i as int)),
        decreases bytes@.len() - i,
    {
        let ghost before = bytes@.subrange(0, i as int);
        assert(bytes@.subrange(0, i + 1).drop_last() == before);
        let c = bytes[i];
        if c == DOT {
            let finished = current;
            done.push(finished);
            current = Vec::new();
            assert(done@.map_values(|v: Vec<u8>| v@).push(current@) =~= segments(before).push(
                Seq::<u8>::empty(),
            ));
        } else {
            current.push(c);
            assert(done@.map_values(|v: Vec<u8>| v@).push(current@) =~= segments(before).update(
                segments(before).len() - 1,
                segments(before).last().push(c),
            ));
        }
        i = i + 1;
    }
    assert(bytes@.subrange(0, i as int) == bytes@);
    let ghost segs = segments(bytes@);
    let n = done.len();
    if n == 2 {
        let signature = current;
        let claim = done.pop().unwrap();
        let header = done.pop().unwrap();
        let r = TokenType::JWS { header, claim, signature };
        assert(r.parts() =~= segs);
        Some(r)
    } else if n == 4 {
        let authentication_tag = current;
        let ciphertext = done.pop().unwrap();
        let initialization_vector = done.pop().unwrap();
        let encrypted_key = done.pop().unwrap();
        let header = done.pop().unwrap();
        let r = TokenType::JWE {
            header,
            encrypted_key,
            initialization_vector,
            ciphertext,
            authentication_tag,
        };
        assert(r.parts() =~= segs);
        Some(r)
    } else {
        None
    }
}

} // verus!
