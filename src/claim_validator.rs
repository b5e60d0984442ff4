//! Claim policies and their conjunction.
use vstd::prelude::*;
use crate::claims::{available, started, Claim, ClaimModel};

verus! {

/// Turns a truth value into a `Result`.
pub trait ErrorableExtension: Sized {
    /// The truth that `self` stands for.
    spec fn holds(&self) -> bool;

    /// `Ok(())` where `self` holds, else `Err(err)`.
    fn or_err<E>(self, err: E) -> (r: Result<(), E>)
        ensures
            r is Ok <==> self.holds(),
            r is Err ==> r->Err_0 == err,
    ;
}

impl ErrorableExtension for bool {
    open spec fn holds(&self) -> bool {
        *self
    }

    fn or_err<E>(self, err: E) -> (r: Result<(), E>) {
        if !self {
            Err(err)
        } else {
            Ok(())
        }
    }
}

/// A policy that a decoded claim set must meet.
pub trait ClaimValidator {
    type Error;

    /// The claim sets that the policy admits. A policy that refuses any must
    /// say which; one that does not say is taken to admit every claim set.
    open spec fn admits(&self, claim: ClaimModel) -> bool {
        true
    }

    fn validate(&self, claim: &Claim) -> (r: Result<(), Self::Error>)
        ensures
            r is Ok <==> self.admits(claim@),
    ;

    /// The policy that admits what both `self` and `other` admit.
    fn and<B>(self, other: B) -> (r: ChainedClaimValidator<Self, B>) where Self: Sized
        ensures
            r.0 == self && r.1 == other,
    {
        ChainedClaimValidator(self, other)
    }
}

/// Which side of a conjunction refused: the first alone, the second alone,
/// or both, with each refusal.
#[derive(Debug)]
pub enum ChainedClaimValidatorError<A, B> {
    CaseA(A),
    CaseB(B),
    Both(A, B),
}

impl<A, B> ChainedClaimValidatorError<A, B> {
    /// The first side's refusal, where it refused.
    pub fn first(&self) -> (r: Option<&A>)
        ensures
            r is Some <==> !(self is CaseB),
            self matches ChainedClaimValidatorError::CaseA(a) ==> r == Some(a),
            self matches ChainedClaimValidatorError::Both(a, _) ==> r == Some(a),
    {
        match self {
            ChainedClaimValidatorError::CaseA(a) => Some(a),
            ChainedClaimValidatorError::CaseB(_) => None,
            ChainedClaimValidatorError::Both(a, _) => Some(a),
        }
    }
}

/// The conjunction of two policies. Both are always consulted.
pub struct ChainedClaimValidator<A, B>(pub A, pub B);

impl<A: ClaimValidator, B: ClaimValidator> ChainedClaimValidator<A, B> {
    /// Consults both policies, the first first, and reports each refusal.
    pub fn validate_both(&self, claim: &Claim) -> (r: Result<
        (),
        ChainedClaimValidatorError<A::Error, B::Error>,
    >)
        ensures
            r is Ok <==> self.0.admits(claim@) && self.1.admits(claim@),
            !self.0.admits(claim@) && self.1.admits(claim@) ==> r is Err && r->Err_0 is CaseA,
            self.0.admits(claim@) && !self.1.admits(claim@) ==> r is Err && r->Err_0 is CaseB,
            !self.0.admits(claim@) && !self.1.admits(claim@) ==> r is Err && r->Err_0 is Both,
    {
        let first = self.0.validate(claim);
        let second = self.1.validate(claim);
        match (first, second) {
            (Err(a), Err(b)) => Err(ChainedClaimValidatorError::Both(a, b)),
            (Err(a), Ok(())) => Err(ChainedClaimValidatorError::CaseA(a)),
            (Ok(()), Err(b)) => Err(ChainedClaimValidatorError::CaseB(b)),
            (Ok(()), Ok(())) => Ok(()),
        }
    }
}

impl<A: ClaimValidator, B: ClaimValidator> ClaimValidator for ChainedClaimValidator<A, B> {
    type Error = ChainedClaimValidatorError<A::Error, B::Error>;

    open spec fn admits(&self, claim: ClaimModel) -> bool {
        self.0.admits(claim) && self.1.admits(claim)
    }

    fn validate(&self, claim: &Claim) -> (r: Result<(), Self::Error>)
        ensures
            !self.0.admits(claim@) && self.1.admits(claim@) ==> r is Err && r->Err_0 is CaseA,
            self.0.admits(claim@) && !self.1.admits(claim@) ==> r is Err && r->Err_0 is CaseB,
            !self.0.admits(claim@) && !self.1.admits(claim@) ==> r is Err && r->Err_0 is Both,
    {
        self.validate_both(claim)
    }
}

/// The refusal of a claim set that is not available at the reference time.
#[derive(Debug)]
pub struct OutOfDateError;

impl OutOfDateError {
    pub fn message(&self) -> (r: String)
        ensures
            r@ == "token is out of date"@,
    {
        String::from_str("token is out of date")
    }
}

/// Admits the claim sets that are available at a reference time fixed when
/// the policy is made; optionally, also requires `nbf` to have passed.
pub struct TimeAvailabilityValidator {
    pub now: u64,
    pub enforce_nbf: bool,
}

/// Relies on `time::OffsetDateTime::now_utc` and `unix_timestamp`: the
/// current time in seconds since the Unix epoch, of which nothing is
/// promised here. With the crate's `wasm-bindgen` feature the clock of a
/// browser worker is read through `js_sys::Date`, so no target panics.
#[verifier::external_body]
fn unix_time_now() -> (r: i64) {
    time::OffsetDateTime::now_utc().unix_timestamp()
}

impl TimeAvailabilityValidator {
    /// The policy at time `now`, with `nbf` not enforced.
    pub fn new(now: u64) -> (r: Self)
        ensures
            r.now == now && !r.enforce_nbf,
    {
        TimeAvailabilityValidator { now, enforce_nbf: false }
    }

    /// The policy at the current time, with `nbf` not enforced.
    pub fn for_now() -> (r: Self)
        ensures
            !r.enforce_nbf,
    {
        Self::new(unix_time_now() as u64)
    }

    /// The same policy, with `nbf` enforced or not.
    pub fn with_nbf(self, enforce_nbf: bool) -> (r: Self)
        ensures
            r.now == self.now && r.enforce_nbf == enforce_nbf,
    {
        TimeAvailabilityValidator { now: self.now, enforce_nbf }
    }
}

impl ClaimValidator for TimeAvailabilityValidator {
    type Error = OutOfDateError;

    open spec fn admits(&self, claim: ClaimModel) -> bool {
        available(claim, self.now) && (!self.enforce_nbf || started(claim, self.now))
    }

    fn validate(&self, claim: &Claim) -> (r: Result<(), Self::Error>) {
        let ok = claim.is_available(self.now) && (!self.enforce_nbf || claim.is_started(self.now));
        ok.or_err(OutOfDateError)
    }
}

} // verus!
