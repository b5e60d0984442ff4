//! The issuer and audience policies of an identity tenancy.
use vstd::prelude::*;
use crate::claim_validator::ClaimValidator;
use crate::claims::{Claim, ClaimModel};
use crate::json::str_eq;

verus! {

#[verifier::external_type_specification]
#[verifier::external_body]
pub struct ExParseError(url::ParseError);

/// The serialization of the URL that `text` parses to, or `None` where it
/// is no absolute URL.
pub uninterp spec fn url_serialization(text: Seq<char>) -> Option<Seq<char>>;

/// Relies on `url::Url::parse`, and the URL's serialization as a `String`:
/// both depend on the text alone.
#[verifier::external_body]
fn parse_url(text: &str) -> (r: Result<String, url::ParseError>)
    ensures
        r is Ok <==> url_serialization(text@) is Some,
        r is Ok ==> r->Ok_0@ == url_serialization(text@)->Some_0,
{
    url::Url::parse(text).map(String::from)
}

/// The text that a tenancy on `domain` is parsed from.
pub open spec fn tenancy_url_text(domain: Seq<char>) -> Seq<char> {
    "https://"@ + domain + "/"@
}

/// A tenancy of the identity provider, known by the URL of its issuer.
pub struct Tenancy {
    issuer: String,
}

impl Tenancy {
    pub closed spec fn issuer(&self) -> Seq<char> {
        self.issuer@
    }

    /// The tenancy at `https://{domain}/`.
    pub fn from_domain(domain: &str) -> (r: Result<Tenancy, url::ParseError>)
        ensures
            r is Ok <==> url_serialization(tenancy_url_text(domain@)) is Some,
            r is Ok ==> r->Ok_0.issuer() == url_serialization(tenancy_url_text(domain@))->Some_0,
    {
        let mut text = String::from_str("https://");
        text.append(domain);
        text.append("/");
        let issuer = parse_url(text.as_str())?;
        Ok(Tenancy { issuer })
    }

    /// The issuer name that tokens of this tenancy carry in `iss`.
    pub fn issuer_name(&self) -> (r: &str)
        ensures
            r@ == self.issuer(),
    {
        self.issuer.as_str()
    }
}

/// The refusal of a claim set by a tenancy.
#[derive(Debug)]
pub enum TenancyClaimValidationError {
    InvalidIssuer,
}

impl TenancyClaimValidationError {
    pub fn message(&self) -> (r: String)
        ensures
            r@ == "invalid issuer"@,
    {
        String::from_str("invalid issuer")
    }
}

/// A claim set's issuer is acceptable if absent or equal to `issuer`.
pub open spec fn issuer_acceptable(c: ClaimModel, issuer: Seq<char>) -> bool {
    c.iss is None || c.iss->Some_0 == issuer
}

/// A claim set's audience is acceptable only if present and equal to
/// `audience`.
pub open spec fn audience_acceptable(c: ClaimModel, audience: Seq<char>) -> bool {
    c.aud == Some(audience)
}

fn issuer_matches(claim: &Claim, issuer: &str) -> (r: bool)
    ensures
        r == issuer_acceptable(claim@, issuer@),
{
    match &claim.iss {
        Some(x) => str_eq(x.as_str(), issuer),
        None => true,
    }
}

fn audience_matches(claim: &Claim, audience: &str) -> (r: bool)
    ensures
        r == audience_acceptable(claim@, audience@),
{
    match &claim.aud {
        Some(x) => str_eq(x.as_str(), audience),
        None => false,
    }
}

impl ClaimValidator for Tenancy {
    type Error = TenancyClaimValidationError;

    open spec fn admits(&self, claim: ClaimModel) -> bool {
        issuer_acceptable(claim, self.issuer())
    }

    fn validate(&self, claim: &Claim) -> (r: Result<(), Self::Error>)
        ensures
            r is Err ==> r->Err_0 is InvalidIssuer,
    {
        if !issuer_matches(claim, self.issuer_name()) {
            return Err(TenancyClaimValidationError::InvalidIssuer);
        }
        Ok(())
    }
}

/// The refusal of a claim set by an API.
#[derive(Debug, PartialEq, Eq, Structural)]
pub enum APIClaimValidationError {
    InvalidIssuer,
    InvalidAudience,
}

impl APIClaimValidationError {
    pub fn message(&self) -> (r: String)
        ensures
            r@ == match self {
                APIClaimValidationError::InvalidIssuer => "invalid issuer"@,
                APIClaimValidationError::InvalidAudience => "invalid audience"@,
            },
    {
        match self {
            APIClaimValidationError::InvalidIssuer => String::from_str("invalid issuer"),
            APIClaimValidationError::InvalidAudience => String::from_str("invalid audience"),
        }
    }
}

/// Admits the claim sets meant for `audience`; one without an audience is
/// refused.
pub struct AudienceValidator<'s> {
    pub audience: &'s str,
}

impl<'s> ClaimValidator for AudienceValidator<'s> {
    type Error = APIClaimValidationError;

    open spec fn admits(&self, claim: ClaimModel) -> bool {
        audience_acceptable(claim, self.audience@)
    }

    fn validate(&self, claim: &Claim) -> (r: Result<(), Self::Error>)
        ensures
            r is Err ==> r->Err_0 == APIClaimValidationError::InvalidAudience,
    {
        if audience_matches(claim, self.audience) {
            Ok(())
        } else {
            Err(APIClaimValidationError::InvalidAudience)
        }
    }
}

/// Checks issuer and audience together; an issuer refusal is reported
/// before an audience refusal.
fn check_api_claim(claim: &Claim, issuer: &str, audience: &str) -> (r: Result<
    (),
    APIClaimValidationError,
>)
    ensures
        r is Ok <==> issuer_acceptable(claim@, issuer@) && audience_acceptable(claim@, audience@),
        !issuer_acceptable(claim@, issuer@) ==> r == Err::<(), APIClaimValidationError>(
            APIClaimValidationError::InvalidIssuer,
        ),
        issuer_acceptable(claim@, issuer@) && !audience_acceptable(claim@, audience@) ==> r == Err::<
            (),
            APIClaimValidationError,
        >(APIClaimValidationError::InvalidAudience),
{
    let iss_ok = issuer_matches(claim, issuer);
    let aud_ok = audience_matches(claim, audience);
    if !iss_ok {
        Err(APIClaimValidationError::InvalidIssuer)
    } else if !aud_ok {
        Err(APIClaimValidationError::InvalidAudience)
    } else {
        Ok(())
    }
}

/// An API served under a tenancy: tokens must come from the tenancy and be
/// meant for `audience`.
pub struct APIServerApplication<'t, 's> {
    pub tenancy: &'t Tenancy,
    pub audience: &'s str,
}

impl<'t, 's> ClaimValidator for APIServerApplication<'t, 's> {
    type Error = APIClaimValidationError;

    open spec fn admits(&self, claim: ClaimModel) -> bool {
        issuer_acceptable(claim, self.tenancy.issuer()) && audience_acceptable(claim, self.audience@)
    }

    fn validate(&self, claim: &Claim) -> (r: Result<(), Self::Error>)
        ensures
            !issuer_acceptable(claim@, self.tenancy.issuer()) ==> r == Err::<
                (),
                APIClaimValidationError,
            >(APIClaimValidationError::InvalidIssuer),
            issuer_acceptable(claim@, self.tenancy.issuer()) && !audience_acceptable(
                claim@,
                self.audience@,
            ) ==> r == Err::<(), APIClaimValidationError>(APIClaimValidationError::InvalidAudience),
    {
        check_api_claim(claim, self.tenancy.issuer_name(), self.audience)
    }
}

/// The form of a client-credentials token request.
pub struct TokenRequestParams<'s> {
    pub grant_type: &'s str,
    pub client_id: &'s str,
    pub client_secret: &'s str,
    pub audience: &'s str,
}

/// The answer to a token request.
pub struct TokenResponse {
    pub access_token: String,
    pub token_type: String,
    pub expires_in: u32,
}

/// A client of an API under a tenancy, with its credentials.
pub struct APIClientApplication<'t, 's> {
    pub tenancy: &'t Tenancy,
    pub client_id: &'s str,
    pub client_secret: &'s str,
    pub audience: &'s str,
}

impl<'t, 's> APIClientApplication<'t, 's> {
    /// The form that requests a token for this client.
    pub fn token_request_params(&self) -> (r: TokenRequestParams<'s>)
        ensures
            r.grant_type@ == "client_credentials"@,
            r.client_id == self.client_id,
            r.client_secret == self.client_secret,
            r.audience == self.audience,
    {
        TokenRequestParams {
            grant_type: "client_credentials",
            client_id: self.client_id,
            client_secret: self.client_secret,
            audience: self.audience,
        }
    }
}

impl<'t, 's> ClaimValidator for APIClientApplication<'t, 's> {
    type Error = APIClaimValidationError;

    open spec fn admits(&self, claim: ClaimModel) -> bool {
        issuer_acceptable(claim, self.tenancy.issuer()) && audience_acceptable(claim, self.audience@)
    }

    fn validate(&self, claim: &Claim) -> (r: Result<(), Self::Error>)
        ensures
            !issuer_acceptable(claim@, self.tenancy.issuer()) ==> r == Err::<
                (),
                APIClaimValidationError,
            >(APIClaimValidationError::InvalidIssuer),
            issuer_acceptable(claim@, self.tenancy.issuer()) && !audience_acceptable(
                claim@,
                self.audience@,
            ) ==> r == Err::<(), APIClaimValidationError>(APIClaimValidationError::InvalidAudience),
    {
        check_api_claim(claim, self.tenancy.issuer_name(), self.audience)
    }
}

} // verus!
