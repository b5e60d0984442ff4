//! The decoded header and claim set of a token.
use vstd::prelude::*;
use crate::json::{
    members_view, optional_string, optional_u64, read_optional_string, read_optional_u64,
    read_required_string, required_string, str_eq, JsonItem, Members,
};

verus! {

/// The header of a signed token.
pub struct JOSEHeader {
    pub alg: String,
    pub typ: String,
    pub kid: Option<String>,
    pub cty: Option<String>,
}

pub struct HeaderModel {
    pub alg: Seq<char>,
    pub typ: Seq<char>,
    pub kid: Option<Seq<char>>,
    pub cty: Option<Seq<char>>,
}

pub open spec fn opt_view(o: Option<String>) -> Option<Seq<char>> {
    match o {
        Some(s) => Some(s@),
        None => None,
    }
}

impl View for JOSEHeader {
    type V = HeaderModel;

    open spec fn view(&self) -> HeaderModel {
        HeaderModel {
            alg: self.alg@,
            typ: self.typ@,
            kid: opt_view(self.kid),
            cty: opt_view(self.cty),
        }
    }
}

/// The header that the members of a JSON object describe: `alg` and `typ`
/// are required strings, `kid` and `cty` optional ones.
pub open spec fn header_of(m: Members) -> Option<HeaderModel> {
    match (
        required_string(m, "alg"@),
        required_string(m, "typ"@),
        optional_string(m, "kid"@),
        optional_string(m, "cty"@),
    ) {
        (Some(alg), Some(typ), Some(kid), Some(cty)) => Some(HeaderModel { alg, typ, kid, cty }),
        _ => None,
    }
}

impl JOSEHeader {
    /// Reads a header from the members of a JSON object.
    pub fn from_members(m: &Vec<(String, JsonItem)>) -> (r: Option<JOSEHeader>)
        ensures
            match r {
                None => header_of(members_view(m@)) is None,
                Some(h) => header_of(members_view(m@)) == Some(h@),
            },
    {
        let alg = read_required_string(m, "alg")?;
        let typ = read_required_string(m, "typ")?;
        let kid = read_optional_string(m, "kid")?;
        let cty = read_optional_string(m, "cty")?;
        Some(JOSEHeader { alg, typ, kid, cty })
    }
}

/// A claim set: the registered claims, and every other member as it came.
#[derive(Debug)]
pub struct Claim {
    pub iss: Option<String>,
    pub sub: Option<String>,
    pub aud: Option<String>,
    pub exp: Option<u64>,
    pub nbf: Option<u64>,
    pub iat: Option<u64>,
    pub jti: Option<String>,
    pub extras: Vec<(String, JsonItem)>,
}

pub struct ClaimModel {
    pub iss: Option<Seq<char>>,
    pub sub: Option<Seq<char>>,
    pub aud: Option<Seq<char>>,
    pub exp: Option<u64>,
    pub nbf: Option<u64>,
    pub iat: Option<u64>,
    pub jti: Option<Seq<char>>,
    pub extras: Members,
}

impl View for Claim {
    type V = ClaimModel;

    open spec fn view(&self) -> ClaimModel {
        ClaimModel {
            iss: opt_view(self.iss),
            sub: opt_view(self.sub),
            aud: opt_view(self.aud),
            exp: self.exp,
            nbf: self.nbf,
            iat: self.iat,
            jti: opt_view(self.jti),
            extras: members_view(self.extras@),
        }
    }
}

/// The names of the registered claims.
pub open spec fn is_registered_claim(name: Seq<char>) -> bool {
    name == "iss"@ || name == "sub"@ || name == "aud"@ || name == "exp"@ || name == "nbf"@
        || name == "iat"@ || name == "jti"@
}

/// The members of `m` that are no registered claim, in order.
pub open spec fn extra_members(m: Members) -> Members
    decreases m.len(),
{
    if m.len() == 0 {
        m
    } else if is_registered_claim(m.last().0) {
        extra_members(m.drop_last())
    } else {
        extra_members(m.drop_last()).push(m.last())
    }
}

pub proof fn lemma_extra_members_unregistered(m: Members)
    ensures
        forall|i: int|
            0 <= i < extra_members(m).len() ==> !is_registered_claim(
                #[trigger] extra_members(m)[i].0,
            ),
    decreases m.len(),
{
    if m.len() > 0 {
        lemma_extra_members_unregistered(m.drop_last());
        let p = extra_members(m.drop_last());
        if !is_registered_claim(m.last().0) {
            assert forall|i: int| 0 <= i < extra_members(m).len() implies !is_registered_claim(
                #[trigger] extra_members(m)[i].0,
            ) by {
                if i < p.len() {
                    assert(extra_members(m)[i] == p[i]);
                }
            }
        }
    }
}

/// The claim set that the members of a JSON object describe.
pub open spec fn claim_of(m: Members) -> Option<ClaimModel> {
    match (
        optional_string(m, "iss"@),
        optional_string(m, "sub"@),
        optional_string(m, "aud"@),
        optional_u64(m, "exp"@),
        optional_u64(m, "nbf"@),
        optional_u64(m, "iat"@),
        optional_string(m, "jti"@),
    ) {
        (Some(iss), Some(sub), Some(aud), Some(exp), Some(nbf), Some(iat), Some(jti)) => Some(
            ClaimModel { iss, sub, aud, exp, nbf, iat, jti, extras: extra_members(m) },
        ),
        _ => None,
    }
}

/// Whether `name` is a registered claim.
fn registered(name: &str) -> (r: bool)
    ensures
        r == is_registered_claim(name@),
{
    str_eq(name, "iss") || str_eq(name, "sub") || str_eq(name, "aud") || str_eq(name, "exp")
        || str_eq(name, "nbf") || str_eq(name, "iat") || str_eq(name, "jti")
}

impl Claim {
    /// Reads a claim set from the members of a JSON object.
    pub fn from_members(m: &Vec<(String, JsonItem)>) -> (r: Option<Claim>)
        ensures
            match r {
                None => claim_of(members_view(m@)) is None,
                Some(c) => claim_of(members_view(m@)) == Some(c@),
            },
            r is Some ==> forall|i: int|
                0 <= i < r->Some_0@.extras.len() ==> !is_registered_claim(
                    #[trigger] r->Some_0@.extras[i].0,
                ),
    {
        let ghost mv = members_view(m@);
        let iss = read_optional_string(m, "iss")?;
        let sub = read_optional_string(m, "sub")?;
        let aud = read_optional_string(m, "aud")?;
        let exp = read_optional_u64(m, "exp")?;
        let nbf = read_optional_u64(m, "nbf")?;
        let iat = read_optional_u64(m, "iat")?;
        let jti = read_optional_string(m, "jti")?;
        let mut extras: Vec<(String, JsonItem)> = Vec::new();
        let mut i: usize = 0;
        while i < m.len()
            invariant
                i <= m@.len(),
                mv == members_view(m@),
                members_view(extras@) == extra_members(mv.subrange(0, i as int)),
            decreases m@.len() - i,
        {
            assert(mv.subrange(0, i + 1).drop_last() =~= mv.subrange(0, i as int));
            let ghost e0 = members_view(extras@);
            if !registered(m[i].0.as_str()) {
                extras.push((m[i].0.clone(), m[i].1.copy()));
                assert(members_view(extras@) =~= e0.push(mv[i as int]));
            }
            i = i + 1;
        }
        let ghost n = m@.len();
        proof {
            lemma_extra_members_unregistered(mv);
        }
        assert(mv.subrange(0, n as int) =~= mv);
        Some(Claim { iss, sub, aud, exp, nbf, iat, jti, extras })
    }

    /// Whether the claim set is usable at `nowtime`: issued no later than it,
    /// and expiring after it. `nbf` plays no part here.
    pub fn is_available(&self, nowtime: u64) -> (r: bool)
        ensures
            r == available(self@, nowtime),
    {
        let issued = match self.iat {
            Some(x) => x <= nowtime,
            None => true,
        };
        let unexpired = match self.exp {
            Some(x) => nowtime < x,
            None => true,
        };
        issued && unexpired
    }

    /// Whether the claim set's not-before time, if any, has been reached at
    /// `nowtime`.
    pub fn is_started(&self, nowtime: u64) -> (r: bool)
        ensures
            r == started(self@, nowtime),
    {
        match self.nbf {
            Some(x) => x <= nowtime,
            None => true,
        }
    }
}

/// Availability at time `t`: `iat` absent or at most `t`, and `exp` absent
/// or after `t`.
pub open spec fn available(c: ClaimModel, t: u64) -> bool {
    (c.iat is None || c.iat->Some_0 <= t) && (c.exp is None || t < c.exp->Some_0)
}

/// `nbf` absent or at most `t`.
pub open spec fn started(c: ClaimModel, t: u64) -> bool {
    c.nbf is None || c.nbf->Some_0 <= t
}

} // verus!
