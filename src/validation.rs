//! The validation of a signed token: splitting, decoding, key selection,
//! signature verification and claim policy, in that order.
use vstd::prelude::*;
use vstd::string::StringSliceAdditionalSpecFns;
use crate::claim_validator::ClaimValidator;
use crate::claims::{claim_of, header_of, opt_view, Claim, ClaimModel, HeaderModel, JOSEHeader};
use crate::codec::{b64url_decode, base64url_decoded, utf8_text};
use crate::json::{json_object_members, members_view, parse_object, str_eq, JsonItem, Members};
use crate::keys::{rsa_components, JWK, JWKs};
use crate::signature::SignatureVerifier;
use crate::token::{segments, split, TokenType, DOT};

verus! {

/// Why a JSON segment was refused.
#[derive(Debug)]
pub enum JsonError {
    /// The text is not one JSON object.
    Syntax(serde_json::Error),
    /// A member is missing or of the wrong type.
    Shape,
}

/// Why a token was rejected.
#[derive(Debug)]
pub enum ValidationError<JWKsLoaderError, ClaimValidatorError, CipherError> {
    /// Neither three nor five segments.
    Illformed,
    Base64(base64::DecodeError),
    StrEncoding(std::str::Utf8Error),
    Json(JsonError),
    /// An encrypted token, or one that declares a nested token.
    UnsupportedTokenType,
    JWKsLoader(JWKsLoaderError),
    KeyNotFound,
    InvalidKeyAlgorithm,
    InvalidKeyUsage,
    InvalidKeyType,
    Cipher(CipherError),
    ClaimValidation(ClaimValidatorError),
}

/// The kinds of [`ValidationError`], without what they carry.
#[derive(PartialEq, Eq, Structural)]
pub enum Rejection {
    Illformed,
    Base64,
    StrEncoding,
    Json,
    UnsupportedTokenType,
    JWKsLoader,
    KeyNotFound,
    InvalidKeyAlgorithm,
    InvalidKeyUsage,
    InvalidKeyType,
    Cipher,
    ClaimValidation,
}

impl<L, C, S> ValidationError<L, C, S> {
    pub open spec fn kind(&self) -> Rejection {
        match self {
            ValidationError::Illformed => Rejection::Illformed,
            ValidationError::Base64(_) => Rejection::Base64,
            ValidationError::StrEncoding(_) => Rejection::StrEncoding,
            ValidationError::Json(_) => Rejection::Json,
            ValidationError::UnsupportedTokenType => Rejection::UnsupportedTokenType,
            ValidationError::JWKsLoader(_) => Rejection::JWKsLoader,
            ValidationError::KeyNotFound => Rejection::KeyNotFound,
            ValidationError::InvalidKeyAlgorithm => Rejection::InvalidKeyAlgorithm,
            ValidationError::InvalidKeyUsage => Rejection::InvalidKeyUsage,
            ValidationError::InvalidKeyType => Rejection::InvalidKeyType,
            ValidationError::Cipher(_) => Rejection::Cipher,
            ValidationError::ClaimValidation(_) => Rejection::ClaimValidation,
        }
    }
}

/// Whether `r` succeeds where `s` does and fails with the kind that `s` gives.
pub open spec fn agrees<T, L, C, S>(r: Result<T, ValidationError<L, C, S>>, s: Result<(), Rejection>) -> bool {
    match (r, s) {
        (Ok(_), Ok(_)) => true,
        (Err(e), Err(k)) => e.kind() == k,
        _ => false,
    }
}

/// The members of the JSON object in a base64url segment.
pub open spec fn json_segment(seg: Seq<u8>) -> Result<Members, Rejection> {
    match base64url_decoded(seg) {
        None => Err(Rejection::Base64),
        Some(b) => if !vstd::utf8::valid_utf8(b) {
            Err(Rejection::StrEncoding)
        } else {
            match json_object_members(vstd::utf8::decode_utf8(b)) {
                None => Err(Rejection::Json),
                Some(m) => Ok(m),
            }
        },
    }
}

/// What the decoding steps make of a token.
pub struct PreparedModel {
    pub header: HeaderModel,
    pub claim: ClaimModel,
    pub signature: Seq<u8>,
    pub message: Seq<u8>,
}

/// The bytes that the signature of a token covers: its first two segments
/// with the dot between them.
pub open spec fn signing_input(header: Seq<u8>, claim: Seq<u8>) -> Seq<u8> {
    header + seq![DOT] + claim
}

/// The decoding steps of validation, on the UTF-8 bytes `t` of a token:
/// split, header, the policy on token types, claims, signature.
pub open spec fn prepared_of(t: Seq<u8>) -> Result<PreparedModel, Rejection> {
    let segs = segments(t);
    if segs.len() != 3 && segs.len() != 5 {
        Err(Rejection::Illformed)
    } else if segs.len() == 5 {
        Err(Rejection::UnsupportedTokenType)
    } else {
        match json_segment(segs[0]) {
            Err(k) => Err(k),
            Ok(hm) => match header_of(hm) {
                None => Err(Rejection::Json),
                Some(h) => if h.cty == Some("JWT"@) {
                    Err(Rejection::UnsupportedTokenType)
                } else {
                    match json_segment(segs[1]) {
                        Err(k) => Err(k),
                        Ok(cm) => match claim_of(cm) {
                            None => Err(Rejection::Json),
                            Some(c) => match base64url_decoded(segs[2]) {
                                None => Err(Rejection::Base64),
                                Some(sig) => Ok(
                                    PreparedModel {
                                        header: h,
                                        claim: c,
                                        signature: sig,
                                        message: signing_input(segs[0], segs[1]),
                                    },
                                ),
                            },
                        },
                    }
                },
            },
        }
    }
}

/// A token that has passed the decoding steps of validation.
pub struct PreparedToken {
    pub header: JOSEHeader,
    pub claim: Claim,
    pub signature: Vec<u8>,
    /// The bytes that the signature covers.
    pub message: Vec<u8>,
}

impl View for PreparedToken {
    type V = PreparedModel;

    open spec fn view(&self) -> PreparedModel {
        PreparedModel {
            header: self.header@,
            claim: self.claim@,
            signature: self.signature@,
            message: self.message@,
        }
    }
}

fn decode_json_segment<L, C, S>(seg: &[u8]) -> (r: Result<
    Vec<(String, JsonItem)>,
    ValidationError<L, C, S>,
>)
    ensures
        match (r, json_segment(seg@)) {
            (Ok(m), Ok(mm)) => members_view(m@) == mm,
            (Err(e), Err(k)) => e.kind() == k,
            _ => false,
        },
{
    let bytes = match b64url_decode(seg) {
        Ok(b) => b,
        Err(e) => return Err(ValidationError::Base64(e)),
    };
    let text = match utf8_text(bytes.as_slice()) {
        Ok(t) => t,
        Err(e) => return Err(ValidationError::StrEncoding(e)),
    };
    match parse_object(text) {
        Ok(m) => Ok(m),
        Err(e) => Err(ValidationError::Json(JsonError::Syntax(e))),
    }
}

fn join_signing_input(header: &Vec<u8>, claim: &Vec<u8>) -> (r: Vec<u8>)
    ensures
        r@ == signing_input(header@, claim@),
{
    let mut out: Vec<u8> = Vec::new();
    let mut i: usize = 0;
    while i < header.len()
        invariant
            i <= header@.len(),
            out@ == header@.subrange(0, i as int),
        decreases header@.len() - i,
    {
        out.push(header[i]);
        i = i + 1;
        assert(out@ =~= header@.subrange(0, i as int));
    }
    out.push(DOT);
    let mut j: usize = 0;
    while j < claim.len()
        invariant
            j <= claim@.len(),
            out@ == header@ + seq![DOT] + claim@.subrange(0, j as int),
        decreases claim@.len() - j,
    {
        out.push(claim[j]);
        j = j + 1;
        assert(out@ =~= header@ + seq![DOT] + claim@.subrange(0, j as int));
    }
    assert(claim@.subrange(0, j as int) =~= claim@);
    out
}

/// Runs the decoding steps of validation on `token`: split, decode the
/// header, refuse encrypted and nested tokens, decode the claims and the
/// signature.
pub fn prepare<L, C, S>(token: &str) -> (r: Result<PreparedToken, ValidationError<L, C, S>>)
    ensures
        agrees(r, match prepared_of(token.spec_bytes()) {
            Ok(_) => Ok(()),
            Err(k) => Err(k),
        }),
        r is Ok ==> prepared_of(token.spec_bytes()) == Ok::<PreparedModel, Rejection>(r->Ok_0@),
{
    let (header_seg, claim_seg, signature_seg) = match split(token) {
        None => return Err(ValidationError::Illformed),
        Some(TokenType::JWE { .. }) => return Err(ValidationError::UnsupportedTokenType),
        Some(TokenType::JWS { header, claim, signature }) => (header, claim, signature),
    };
    let header_members = decode_json_segment(header_seg.as_slice())?;
    let header = match JOSEHeader::from_members(&header_members) {
        Some(h) => h,
        None => return Err(ValidationError::Json(JsonError::Shape)),
    };
    let nested = match &header.cty {
        Some(c) => str_eq(c.as_str(), "JWT"),
        None => false,
    };
    if nested {
        return Err(ValidationError::UnsupportedTokenType);
    }
    let claim_members = decode_json_segment(claim_seg.as_slice())?;
    let claim = match Claim::from_members(&claim_members) {
        Some(c) => c,
        None => return Err(ValidationError::Json(JsonError::Shape)),
    };
    let signature = match b64url_decode(signature_seg.as_slice()) {
        Ok(s) => s,
        Err(e) => return Err(ValidationError::Base64(e)),
    };
    let message = join_signing_input(&header_seg, &claim_seg);
    Ok(PreparedToken { header, claim, signature, message })
}

/// Whether `k` may verify a token whose header names the algorithm `alg`:
/// a key with no declared algorithm suits every one.
pub open spec fn alg_compatible(k: JWK, alg: Seq<char>) -> bool {
    k.alg is None || k.alg->Some_0@ == alg
}

/// Whether `k` is tried when the header names no key: a signing key that
/// suits the header's algorithm.
pub open spec fn is_candidate(k: JWK, alg: Seq<char>) -> bool {
    k.usage@ == "sig"@ && alg_compatible(k, alg)
}

/// The first key of `keys` whose id is `kid`.
pub open spec fn key_with_id(keys: Seq<JWK>, kid: Seq<char>) -> Option<JWK>
    decreases keys.len(),
{
    if keys.len() == 0 {
        None
    } else if opt_view(keys[0].kid) == Some(kid) {
        Some(keys[0])
    } else {
        key_with_id(keys.drop_first(), kid)
    }
}

/// Trial of the candidate keys among `keys`, in order: the first that
/// verifies ends it with success; a candidate whose components are not
/// base64url text ends it with that error; no candidate left, no key found.
pub open spec fn trial<V: SignatureVerifier>(
    v: V,
    keys: Seq<JWK>,
    alg: Seq<char>,
    signature: Seq<u8>,
    message: Seq<u8>,
) -> Result<(), Rejection>
    decreases keys.len(),
{
    if keys.len() == 0 {
        Err(Rejection::KeyNotFound)
    } else if !is_candidate(keys[0], alg) {
        trial(v, keys.drop_first(), alg, signature, message)
    } else {
        match rsa_components(keys[0].content) {
            None => Err(Rejection::Base64),
            Some((n, e)) => if v.accepts(n, e, signature, message) {
                Ok(())
            } else {
                trial(v, keys.drop_first(), alg, signature, message)
            },
        }
    }
}

/// The public components of the key that the key id `kid` pins, for a
/// header naming the algorithm `alg`: the key must exist, be a signing key,
/// suit the algorithm, and have decodable components.
pub open spec fn pinned(keys: Seq<JWK>, kid: Seq<char>, alg: Seq<char>) -> Result<
    (Seq<u8>, Seq<u8>),
    Rejection,
> {
    match key_with_id(keys, kid) {
        None => Err(Rejection::KeyNotFound),
        Some(k) => if k.usage@ != "sig"@ {
            Err(Rejection::InvalidKeyUsage)
        } else if !alg_compatible(k, alg) {
            Err(Rejection::InvalidKeyAlgorithm)
        } else {
            match rsa_components(k.content) {
                None => Err(Rejection::Base64),
                Some(c) => Ok(c),
            }
        },
    }
}

/// Key selection and signature verification. A key id in the header pins
/// exactly one key, which must verify; without one, the candidates are tried
/// in order.
pub open spec fn selection<V: SignatureVerifier>(
    v: V,
    keys: Seq<JWK>,
    header: HeaderModel,
    signature: Seq<u8>,
    message: Seq<u8>,
) -> Result<(), Rejection> {
    match header.kid {
        Some(kid) => match pinned(keys, kid, header.alg) {
            Err(k) => Err(k),
            Ok((n, e)) => if v.accepts(n, e, signature, message) {
                Ok(())
            } else {
                Err(Rejection::Cipher)
            },
        },
        None => trial(v, keys, header.alg, signature, message),
    }
}

fn alg_suits(k: &JWK, alg: &str) -> (r: bool)
    ensures
        r == alg_compatible(*k, alg@),
{
    match &k.alg {
        Some(a) => str_eq(a.as_str(), alg),
        None => true,
    }
}

fn find_key(keys: &Vec<JWK>, kid: &str) -> (r: Option<usize>)
    ensures
        match r {
            None => key_with_id(keys@, kid@) is None,
            Some(i) => i < keys@.len() && key_with_id(keys@, kid@) == Some(keys@[i as int]),
        },
{
    let mut i: usize = 0;
    assert(keys@.subrange(0, keys@.len() as int) =~= keys@);
    while i < keys.len()
        invariant
            i <= keys@.len(),
            key_with_id(keys@, kid@) == key_with_id(keys@.subrange(i as int, keys@.len() as int), kid@),
        decreases keys@.len() - i,
    {
        let ghost rest = keys@.subrange(i as int, keys@.len() as int);
        assert(rest.drop_first() =~= keys@.subrange(i + 1, keys@.len() as int));
        let found = match &keys[i].kid {
            Some(x) => str_eq(x.as_str(), kid),
            None => false,
        };
        if found {
            return Some(i);
        }
        i = i + 1;
    }
    None
}

/// The position of the key that `kid` pins, for a header naming the
/// algorithm `alg`, with its public components `(n, e)`.
pub fn pinned_key<L, C, S>(key_set: &JWKs, kid: &str, alg: &str) -> (r: Result<
    (usize, Vec<u8>, Vec<u8>),
    ValidationError<L, C, S>,
>)
    ensures
        agrees(r, match pinned(key_set.keys@, kid@, alg@) {
            Ok(_) => Ok(()),
            Err(k) => Err(k),
        }),
        r is Ok ==> r->Ok_0.0 < key_set.keys@.len() && pinned(key_set.keys@, kid@, alg@) == Ok::<
            (Seq<u8>, Seq<u8>),
            Rejection,
        >((r->Ok_0.1@, r->Ok_0.2@)),
{
    let keys = &key_set.keys;
    let i = match find_key(keys, kid) {
        Some(i) => i,
        None => return Err(ValidationError::KeyNotFound),
    };
    let key = &keys[i];
    if !str_eq(key.usage.as_str(), "sig") {
        return Err(ValidationError::InvalidKeyUsage);
    }
    if !alg_suits(key, alg) {
        return Err(ValidationError::InvalidKeyAlgorithm);
    }
    match key.content.try_generate_rsa_pubkey() {
        Ok(Some((n, e))) => Ok((i, n, e)),
        Ok(None) => Err(ValidationError::InvalidKeyType),
        Err(err) => Err(ValidationError::Base64(err)),
    }
}

/// Whether no key of `keys` from position `from` up to `to` is a candidate.
pub open spec fn no_candidate_between(keys: Seq<JWK>, alg: Seq<char>, from: int, to: int) -> bool {
    forall|j: int| from <= j < to ==> !is_candidate(#[trigger] keys[j], alg)
}

/// The next candidate key at or after position `start`, with its public
/// components: `None` where no candidate is left, an error where the next
/// candidate's components are not base64url text.
pub fn next_candidate(key_set: &JWKs, alg: &str, start: usize) -> (r: Result<
    Option<(usize, Vec<u8>, Vec<u8>)>,
    base64::DecodeError,
>)
    requires
        start <= key_set.keys@.len(),
    ensures
        match r {
            Ok(None) => no_candidate_between(key_set.keys@, alg@, start as int, key_set.keys@.len() as int),
            Ok(Some((i, n, e))) => {
                &&& start <= i < key_set.keys@.len()
                &&& no_candidate_between(key_set.keys@, alg@, start as int, i as int)
                &&& is_candidate(key_set.keys@[i as int], alg@)
                &&& rsa_components(key_set.keys@[i as int].content) == Some((n@, e@))
            },
            Err(_) => exists|i: int|
                start <= i < key_set.keys@.len() && no_candidate_between(key_set.keys@, alg@, start as int, i)
                    && is_candidate(#[trigger] key_set.keys@[i], alg@) && rsa_components(
                    key_set.keys@[i].content,
                ) is None,
        },
{
    let keys = &key_set.keys;
    let mut i: usize = start;
    while i < keys.len()
        invariant
            start <= i <= keys@.len(),
            keys@ == key_set.keys@,
            no_candidate_between(keys@, alg@, start as int, i as int),
        decreases keys@.len() - i,
    {
        let key = &keys[i];
        if str_eq(key.usage.as_str(), "sig") && alg_suits(key, alg) {
            match key.content.try_generate_rsa_pubkey() {
                Ok(Some((n, e))) => return Ok(Some((i, n, e))),
                Ok(None) => {},
                Err(err) => {
                    assert(is_candidate(keys@[i as int], alg@));
                    return Err(err);
                },
            }
        }
        i = i + 1;
    }
    Ok(None)
}

/// Trial from position `from` is trial from position `to` where no key in
/// between is a candidate.
proof fn lemma_trial_skips<V: SignatureVerifier>(
    v: V,
    keys: Seq<JWK>,
    alg: Seq<char>,
    signature: Seq<u8>,
    message: Seq<u8>,
    from: int,
    to: int,
)
    requires
        0 <= from <= to <= keys.len(),
        no_candidate_between(keys, alg, from, to),
    ensures
        trial(v, keys.subrange(from, keys.len() as int), alg, signature, message) == trial(
            v,
            keys.subrange(to, keys.len() as int),
            alg,
            signature,
            message,
        ),
    decreases to - from,
{
    if from < to {
        let rest = keys.subrange(from, keys.len() as int);
        assert(rest.drop_first() =~= keys.subrange(from + 1, keys.len() as int));
        assert(rest[0] == keys[from]);
        lemma_trial_skips(v, keys, alg, signature, message, from + 1, to);
    }
}

/// What key selection asks for next.
pub enum SelectionStep {
    /// Verify the signature with the public key `(n, e)` of the key at
    /// `index`, then report the answer.
    Verify { index: usize, n: Vec<u8>, e: Vec<u8> },
    /// The signature is verified.
    Accept,
}

/// The position from which candidates are sought after the attempt `last`.
pub open spec fn resume_from<S>(last: Option<(usize, Result<(), S>)>) -> int {
    match last {
        None => 0,
        Some((i, _)) => i + 1,
    }
}

/// One decision of key selection, given the answer to the last attempt
/// (`None` before any). A verified attempt ends it. A key id pins one key:
/// its first attempt is the only one, and its failure is a cipher error.
/// Without one, the next candidate after the last attempt is asked for; none
/// left is `KeyNotFound`, one whose components are not base64url text a
/// decoding error.
pub fn selection_step<L, C, S>(
    key_set: &JWKs,
    header: &JOSEHeader,
    last: Option<(usize, Result<(), S>)>,
) -> (r: Result<SelectionStep, ValidationError<L, C, S>>)
    requires
        last is Some ==> last->Some_0.0 < key_set.keys@.len(),
    ensures
        (last is Some && last->Some_0.1 is Ok) ==> r matches Ok(SelectionStep::Accept),
        (header.kid is Some && last is None) ==> match (
            r,
            pinned(key_set.keys@, header@.kid->Some_0, header.alg@),
        ) {
            (Ok(SelectionStep::Verify { index, n, e }), Ok((pn, pe))) => index
                < key_set.keys@.len() && n@ == pn && e@ == pe,
            (Err(x), Err(k)) => x.kind() == k,
            _ => false,
        },
        (header.kid is Some && last is Some && last->Some_0.1 is Err) ==> (r matches Err(
            ValidationError::Cipher(x),
        ) && x == last->Some_0.1->Err_0),
        (header.kid is None && !(last is Some && last->Some_0.1 is Ok)) ==> match r {
            Ok(SelectionStep::Accept) => false,
            Ok(SelectionStep::Verify { index, n, e }) => {
                &&& resume_from(last) <= index < key_set.keys@.len()
                &&& no_candidate_between(key_set.keys@, header.alg@, resume_from(last), index as int)
                &&& is_candidate(key_set.keys@[index as int], header.alg@)
                &&& rsa_components(key_set.keys@[index as int].content) == Some((n@, e@))
            },
            Err(x) => (x.kind() == Rejection::KeyNotFound && no_candidate_between(
                key_set.keys@,
                header.alg@,
                resume_from(last),
                key_set.keys@.len() as int,
            )) || (x.kind() == Rejection::Base64 && exists|i: int|
                resume_from(last) <= i < key_set.keys@.len() && no_candidate_between(
                    key_set.keys@,
                    header.alg@,
                    resume_from(last),
                    i,
                ) && is_candidate(#[trigger] key_set.keys@[i], header.alg@) && rsa_components(
                    key_set.keys@[i].content,
                ) is None),
        },
{
    let count = key_set.keys.len();
    let start: usize = match last {
        Some((_, Ok(()))) => return Ok(SelectionStep::Accept),
        Some((i, Err(e))) => {
            if header.kid.is_some() {
                return Err(ValidationError::Cipher(e));
            }
            i + 1
        },
        None => 0,
    };
    match &header.kid {
        Some(kid) => {
            let (index, n, e) = pinned_key(key_set, kid.as_str(), header.alg.as_str())?;
            Ok(SelectionStep::Verify { index, n, e })
        },
        None => match next_candidate(key_set, header.alg.as_str(), start) {
            Ok(None) => Err(ValidationError::KeyNotFound),
            Ok(Some((index, n, e))) => Ok(SelectionStep::Verify { index, n, e }),
            Err(err) => Err(ValidationError::Base64(err)),
        },
    }
}

/// Selects the key or keys to try for `header` and verifies `signature`
/// over `message` with `verifier`, one step of [`selection_step`] at a time.
pub fn select_and_verify<L, C, V: SignatureVerifier>(
    verifier: &V,
    key_set: &JWKs,
    header: &JOSEHeader,
    signature: &[u8],
    message: &[u8],
) -> (r: Result<(), ValidationError<L, C, V::Error>>)
    ensures
        agrees(r, selection(*verifier, key_set.keys@, header@, signature@, message@)),
{
    let ghost keys = key_set.keys@;
    let ghost alg = header.alg@;
    let ghost len = keys.len() as int;
    let ghost target = selection(*verifier, keys, header@, signature@, message@);
    let mut last: Option<(usize, Result<(), V::Error>)> = None;
    assert(keys.subrange(0, len) =~= keys);
    loop
        invariant
            keys == key_set.keys@,
            len == keys.len(),
            alg == header.alg@,
            target == selection(*verifier, keys, header@, signature@, message@),
            last is Some ==> last->Some_0.0 < len && last->Some_0.1 is Err,
            header.kid is Some && last is Some ==> !verifier.accepts(
                pinned(keys, header@.kid->Some_0, alg)->Ok_0.0,
                pinned(keys, header@.kid->Some_0, alg)->Ok_0.1,
                signature@,
                message@,
            ) && pinned(keys, header@.kid->Some_0, alg) is Ok,
            header.kid is None ==> resume_from(last) <= len && target == trial(
                *verifier,
                keys.subrange(resume_from(last), len),
                alg,
                signature@,
                message@,
            ),
        decreases len + 1 - resume_from(last),
    {
        let ghost start = resume_from(last);
        let step = match selection_step(key_set, header, last) {
            Ok(step) => step,
            Err(x) => {
                proof {
                    if header.kid is None {
                        if x.kind() == Rejection::KeyNotFound {
                            lemma_trial_skips(*verifier, keys, alg, signature@, message@, start, len);
                            assert(keys.subrange(len, len) =~= Seq::<JWK>::empty());
                        } else {
                            let i = choose|i: int|
                                start <= i < len && no_candidate_between(keys, alg, start, i)
                                    && is_candidate(#[trigger] keys[i], alg) && rsa_components(
                                    keys[i].content,
                                ) is None;
                            lemma_trial_skips(*verifier, keys, alg, signature@, message@, start, i);
                            assert(keys.subrange(i, len)[0] == keys[i]);
                        }
                    }
                }
                return Err(x);
            },
        };
        match step {
            SelectionStep::Accept => {
                return Ok(());
            },
            SelectionStep::Verify { index, n, e } => {
                proof {
                    if header.kid is None {
                        lemma_trial_skips(*verifier, keys, alg, signature@, message@, start, index as int);
                        let rest = keys.subrange(index as int, len);
                        assert(rest[0] == keys[index as int]);
                        assert(rest.drop_first() =~= keys.subrange(index + 1, len));
                    }
                }
                let answer = verifier.verify_rs256(n.as_slice(), e.as_slice(), signature, message);
                if answer.is_ok() {
                    return Ok(());
                }
                last = Some((index, answer));
            },
        }
    }
}

/// The steps after decoding: key selection and verification, then the claim
/// policy.
pub open spec fn verdict<V: SignatureVerifier, CV: ClaimValidator>(
    p: PreparedModel,
    keys: Seq<JWK>,
    v: V,
    cv: CV,
) -> Result<(), Rejection> {
    match selection(v, keys, p.header, p.signature, p.message) {
        Err(k) => Err(k),
        Ok(_) => if cv.admits(p.claim) {
            Ok(())
        } else {
            Err(Rejection::ClaimValidation)
        },
    }
}

/// The outcome of validating the token with UTF-8 bytes `t`, where loading
/// the key set gave `keys` (`None` for a failure).
pub open spec fn outcome<V: SignatureVerifier, CV: ClaimValidator>(
    t: Seq<u8>,
    keys: Option<Seq<JWK>>,
    v: V,
    cv: CV,
) -> Result<(), Rejection> {
    match prepared_of(t) {
        Err(k) => Err(k),
        Ok(p) => match keys {
            None => Err(Rejection::JWKsLoader),
            Some(ks) => verdict(p, ks, v, cv),
        },
    }
}

/// Verifies a decoded token against a loaded key set, then applies the
/// claim policy.
pub fn verify_prepared<L, V: SignatureVerifier, CV: ClaimValidator>(
    prepared: &PreparedToken,
    key_set: &JWKs,
    verifier: &V,
    claim_validator: &CV,
) -> (r: Result<(), ValidationError<L, CV::Error, V::Error>>)
    ensures
        agrees(r, verdict(prepared@, key_set.keys@, *verifier, *claim_validator)),
{
    select_and_verify(
        verifier,
        key_set,
        &prepared.header,
        prepared.signature.as_slice(),
        prepared.message.as_slice(),
    )?;
    apply_claim_policy(prepared, claim_validator)
}

/// Applies `claim_validator` to the claims of a token whose signature is
/// verified.
pub fn apply_claim_policy<L, S, CV: ClaimValidator>(
    prepared: &PreparedToken,
    claim_validator: &CV,
) -> (r: Result<(), ValidationError<L, CV::Error, S>>)
    ensures
        r is Ok <==> claim_validator.admits(prepared@.claim),
        r is Err ==> r->Err_0 is ClaimValidation,
{
    match claim_validator.validate(&prepared.claim) {
        Ok(()) => Ok(()),
        Err(e) => Err(ValidationError::ClaimValidation(e)),
    }
}

/// The key sets that a loader outcome stands for.
pub open spec fn loaded_keys<L>(key_set: Result<JWKs, L>) -> Option<Seq<JWK>> {
    match key_set {
        Ok(ks) => Some(ks.keys@),
        Err(_) => None,
    }
}

/// Validates `token`: decodes it, then takes the outcome of loading the key
/// set, selects the key and verifies the signature with `verifier`, and
/// applies `claim_validator` to the claims. A loader failure is reported only
/// for tokens that decode.
pub fn validate<L, V: SignatureVerifier, CV: ClaimValidator>(
    token: &str,
    key_set: Result<JWKs, L>,
    verifier: &V,
    claim_validator: &CV,
) -> (r: Result<(), ValidationError<L, CV::Error, V::Error>>)
    ensures
        agrees(r, outcome(token.spec_bytes(), loaded_keys(key_set), *verifier, *claim_validator)),
        prepared_of(token.spec_bytes()) is Ok && key_set is Err ==> (r matches Err(
            ValidationError::JWKsLoader(e),
        ) && e == key_set->Err_0),
{
    let prepared = prepare(token)?;
    let keys = match key_set {
        Ok(k) => k,
        Err(e) => return Err(ValidationError::JWKsLoader(e)),
    };
    verify_prepared(&prepared, &keys, verifier, claim_validator)
}

/// A token that does not have three or five segments is rejected as
/// ill-formed, whatever the key set, verifier and claim policy.
pub proof fn lemma_segment_count_decides_form<V: SignatureVerifier, CV: ClaimValidator>(
    t: Seq<u8>,
    keys: Option<Seq<JWK>>,
    v: V,
    cv: CV,
)
    requires
        segments(t).len() != 3,
        segments(t).len() != 5,
    ensures
        outcome(t, keys, v, cv) == Err::<(), Rejection>(Rejection::Illformed),
{
}

proof fn lemma_no_key_with_id(keys: Seq<JWK>, kid: Seq<char>)
    requires
        forall|i: int| 0 <= i < keys.len() ==> opt_view(#[trigger] keys[i].kid) != Some(kid),
    ensures
        key_with_id(keys, kid) is None,
    decreases keys.len(),
{
    if keys.len() > 0 {
        assert forall|i: int| 0 <= i < keys.drop_first().len() implies opt_view(
            #[trigger] keys.drop_first()[i].kid,
        ) != Some(kid) by {
            assert(keys.drop_first()[i] == keys[i + 1]);
        }
        lemma_no_key_with_id(keys.drop_first(), kid);
    }
}

/// A well-formed signed token whose header names a key id that no key of the
/// key set has is rejected with `KeyNotFound`.
pub proof fn lemma_unknown_kid_is_not_found<V: SignatureVerifier, CV: ClaimValidator>(
    t: Seq<u8>,
    keys: Seq<JWK>,
    v: V,
    cv: CV,
)
    requires
        prepared_of(t) is Ok,
        prepared_of(t)->Ok_0.header.kid is Some,
        forall|i: int|
            0 <= i < keys.len() ==> opt_view(#[trigger] keys[i].kid) != prepared_of(
                t,
            )->Ok_0.header.kid,
    ensures
        outcome(t, Some(keys), v, cv) == Err::<(), Rejection>(Rejection::KeyNotFound),
{
    lemma_no_key_with_id(keys, prepared_of(t)->Ok_0.header.kid->Some_0);
}

proof fn lemma_no_candidate_trial<V: SignatureVerifier>(
    v: V,
    keys: Seq<JWK>,
    alg: Seq<char>,
    signature: Seq<u8>,
    message: Seq<u8>,
)
    requires
        forall|i: int| 0 <= i < keys.len() ==> !is_candidate(#[trigger] keys[i], alg),
    ensures
        trial(v, keys, alg, signature, message) == Err::<(), Rejection>(Rejection::KeyNotFound),
    decreases keys.len(),
{
    if keys.len() > 0 {
        assert forall|i: int| 0 <= i < keys.drop_first().len() implies !is_candidate(
            #[trigger] keys.drop_first()[i],
            alg,
        ) by {
            assert(keys.drop_first()[i] == keys[i + 1]);
        }
        lemma_no_candidate_trial(v, keys.drop_first(), alg, signature, message);
    }
}

/// A well-formed signed token without a key id, where no key of the key set
/// is a signing key for the header's algorithm, is rejected with
/// `KeyNotFound`; the verifier is never consulted, so the outcome is the
/// same for every verifier.
pub proof fn lemma_no_candidate_is_not_found<V: SignatureVerifier, W: SignatureVerifier, CV: ClaimValidator>(
    t: Seq<u8>,
    keys: Seq<JWK>,
    v: V,
    w: W,
    cv: CV,
)
    requires
        prepared_of(t) is Ok,
        prepared_of(t)->Ok_0.header.kid is None,
        forall|i: int|
            0 <= i < keys.len() ==> !is_candidate(#[trigger] keys[i], prepared_of(t)->Ok_0.header.alg),
    ensures
        outcome(t, Some(keys), v, cv) == Err::<(), Rejection>(Rejection::KeyNotFound),
        outcome(t, Some(keys), v, cv) == outcome(t, Some(keys), w, cv),
{
    let p = prepared_of(t)->Ok_0;
    lemma_no_candidate_trial(v, keys, p.header.alg, p.signature, p.message);
    lemma_no_candidate_trial(w, keys, p.header.alg, p.signature, p.message);
}

/// Candidates are tried in key-set order and the first that verifies wins:
/// where every candidate before position `i` has decodable components that
/// do not verify and the candidate at `i` verifies, trial succeeds, and the
/// keys after `i` play no part.
pub proof fn lemma_first_verifying_candidate_wins<V: SignatureVerifier>(
    v: V,
    keys: Seq<JWK>,
    alg: Seq<char>,
    signature: Seq<u8>,
    message: Seq<u8>,
    i: int,
)
    requires
        0 <= i < keys.len(),
        is_candidate(keys[i], alg),
        rsa_components(keys[i].content) is Some,
        v.accepts(
            rsa_components(keys[i].content)->Some_0.0,
            rsa_components(keys[i].content)->Some_0.1,
            signature,
            message,
        ),
        forall|j: int|
            0 <= j < i && is_candidate(#[trigger] keys[j], alg) ==> rsa_components(keys[j].content) is Some
                && !v.accepts(
                rsa_components(keys[j].content)->Some_0.0,
                rsa_components(keys[j].content)->Some_0.1,
                signature,
                message,
            ),
    ensures
        trial(v, keys, alg, signature, message) == Ok::<(), Rejection>(()),
        trial(v, keys, alg, signature, message) == trial(v, keys.subrange(0, i + 1), alg, signature, message),
    decreases i,
{
    let prefix = keys.subrange(0, i + 1);
    if i > 0 {
        let rest = keys.drop_first();
        assert forall|j: int|
            0 <= j < i - 1 && is_candidate(#[trigger] rest[j], alg) implies rsa_components(rest[j].content) is Some
                && !v.accepts(
                rsa_components(rest[j].content)->Some_0.0,
                rsa_components(rest[j].content)->Some_0.1,
                signature,
                message,
            ) by {
            assert(rest[j] == keys[j + 1]);
        }
        assert(rest[i - 1] == keys[i]);
        lemma_first_verifying_candidate_wins(v, rest, alg, signature, message, i - 1);
        assert(prefix.drop_first() =~= rest.subrange(0, i));
        assert(prefix[0] == keys[0]);
    } else {
        assert(prefix[0] == keys[0]);
    }
}

/// With two candidate keys where only the second verifies, a well-formed
/// token without a key id whose claims the policy admits is accepted: the
/// first key is tried, fails, and the second is tried next.
pub proof fn lemma_second_candidate_verifies<V: SignatureVerifier, CV: ClaimValidator>(
    t: Seq<u8>,
    first: JWK,
    second: JWK,
    v: V,
    cv: CV,
)
    requires
        prepared_of(t) is Ok,
        prepared_of(t)->Ok_0.header.kid is None,
        cv.admits(prepared_of(t)->Ok_0.claim),
        is_candidate(first, prepared_of(t)->Ok_0.header.alg),
        is_candidate(second, prepared_of(t)->Ok_0.header.alg),
        rsa_components(first.content) is Some,
        rsa_components(second.content) is Some,
        !v.accepts(
            rsa_components(first.content)->Some_0.0,
            rsa_components(first.content)->Some_0.1,
            prepared_of(t)->Ok_0.signature,
            prepared_of(t)->Ok_0.message,
        ),
        v.accepts(
            rsa_components(second.content)->Some_0.0,
            rsa_components(second.content)->Some_0.1,
            prepared_of(t)->Ok_0.signature,
            prepared_of(t)->Ok_0.message,
        ),
    ensures
        outcome(t, Some(seq![first, second]), v, cv) == Ok::<(), Rejection>(()),
{
    let p = prepared_of(t)->Ok_0;
    let keys = seq![first, second];
    assert(keys.drop_first() =~= seq![second]);
    assert(keys.drop_first().drop_first() =~= Seq::<JWK>::empty());
    assert(trial(v, keys.drop_first(), p.header.alg, p.signature, p.message) == Ok::<(), Rejection>(()));
}

proof fn lemma_all_rejected_trial<V: SignatureVerifier>(
    v: V,
    keys: Seq<JWK>,
    alg: Seq<char>,
    signature: Seq<u8>,
    message: Seq<u8>,
)
    requires
        forall|i: int|
            0 <= i < keys.len() && is_candidate(#[trigger] keys[i], alg) ==> rsa_components(keys[i].content) is Some
                && !v.accepts(
                rsa_components(keys[i].content)->Some_0.0,
                rsa_components(keys[i].content)->Some_0.1,
                signature,
                message,
            ),
    ensures
        trial(v, keys, alg, signature, message) == Err::<(), Rejection>(Rejection::KeyNotFound),
    decreases keys.len(),
{
    if keys.len() > 0 {
        let rest = keys.drop_first();
        assert forall|i: int|
            0 <= i < rest.len() && is_candidate(#[trigger] rest[i], alg) implies rsa_components(rest[i].content) is Some
                && !v.accepts(
                rsa_components(rest[i].content)->Some_0.0,
                rsa_components(rest[i].content)->Some_0.1,
                signature,
                message,
            ) by {
            assert(rest[i] == keys[i + 1]);
        }
        lemma_all_rejected_trial(v, rest, alg, signature, message);
    }
}

/// A signature that the verifier rejects under the pinned key gives a
/// cipher error, never `KeyNotFound`.
pub proof fn lemma_rejected_pinned_signature<V: SignatureVerifier, CV: ClaimValidator>(
    t: Seq<u8>,
    keys: Seq<JWK>,
    v: V,
    cv: CV,
)
    requires
        prepared_of(t) is Ok,
        prepared_of(t)->Ok_0.header.kid is Some,
        pinned(keys, prepared_of(t)->Ok_0.header.kid->Some_0, prepared_of(t)->Ok_0.header.alg) is Ok,
        !v.accepts(
            pinned(keys, prepared_of(t)->Ok_0.header.kid->Some_0, prepared_of(t)->Ok_0.header.alg)->Ok_0.0,
            pinned(keys, prepared_of(t)->Ok_0.header.kid->Some_0, prepared_of(t)->Ok_0.header.alg)->Ok_0.1,
            prepared_of(t)->Ok_0.signature,
            prepared_of(t)->Ok_0.message,
        ),
    ensures
        outcome(t, Some(keys), v, cv) == Err::<(), Rejection>(Rejection::Cipher),
{
}

/// Without a key id, a signature that the verifier rejects under every
/// candidate (all of them decodable) gives `KeyNotFound`, not a cipher
/// error.
pub proof fn lemma_rejected_signature_without_kid<V: SignatureVerifier, CV: ClaimValidator>(
    t: Seq<u8>,
    keys: Seq<JWK>,
    v: V,
    cv: CV,
)
    requires
        prepared_of(t) is Ok,
        prepared_of(t)->Ok_0.header.kid is None,
        forall|i: int|
            0 <= i < keys.len() && is_candidate(#[trigger] keys[i], prepared_of(t)->Ok_0.header.alg)
                ==> rsa_components(keys[i].content) is Some && !v.accepts(
                rsa_components(keys[i].content)->Some_0.0,
                rsa_components(keys[i].content)->Some_0.1,
                prepared_of(t)->Ok_0.signature,
                prepared_of(t)->Ok_0.message,
            ),
    ensures
        outcome(t, Some(keys), v, cv) == Err::<(), Rejection>(Rejection::KeyNotFound),
{
    let p = prepared_of(t)->Ok_0;
    lemma_all_rejected_trial(v, keys, p.header.alg, p.signature, p.message);
}

} // verus!
