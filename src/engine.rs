use vstd::prelude::*;
use crate::error::CeremonyError;
use crate::group::{G1, G2};
use core::marker::PhantomData;

verus! {

/// A cryptographic backend: one check per method, each returning `Ok(())`
/// when the points pass it. Backends are provided by users of the library;
/// each check is a function of its arguments, named by a spec function that
/// the method's result equals.
pub trait Engine {
    /// The verdict of `validate_g1` on `points`.
    spec fn spec_validate_g1(points: Vec<G1>) -> Result<(), CeremonyError>;

    /// The verdict of `validate_g2` on `points`.
    spec fn spec_validate_g2(points: Vec<G2>) -> Result<(), CeremonyError>;

    /// The verdict of `validate_pubkey` on `pubkey`.
    spec fn spec_validate_pubkey(pubkey: G2) -> Result<(), CeremonyError>;

    /// The verdict of `verify_pubkey` on its arguments.
    spec fn spec_verify_pubkey(tau: G1, previous: G1, pubkey: G2) -> Result<(), CeremonyError>;

    /// The verdict of `verify_g1` on its arguments.
    spec fn spec_verify_g1(powers: Vec<G1>, tau: G2) -> Result<(), CeremonyError>;

    /// The verdict of `verify_g2` on its arguments.
    spec fn spec_verify_g2(g1_powers: Vec<G1>, g2_powers: Vec<G2>) -> Result<(), CeremonyError>;

    /// Every point is a valid encoding of a point of the first group.
    fn validate_g1(points: &Vec<G1>) -> (r: Result<(), CeremonyError>)
        ensures
            r == Self::spec_validate_g1(*points),
    ;

    /// Every point is a valid encoding of a point of the second group.
    fn validate_g2(points: &Vec<G2>) -> (r: Result<(), CeremonyError>)
        ensures
            r == Self::spec_validate_g2(*points),
    ;

    /// `pubkey` is a valid encoding of a point of the second group.
    fn validate_pubkey(pubkey: G2) -> (r: Result<(), CeremonyError>)
        ensures
            r == Self::spec_validate_pubkey(pubkey),
    ;

    /// `pubkey` proves knowledge of the secret that turned `previous` into `tau`.
    fn verify_pubkey(tau: G1, previous: G1, pubkey: G2) -> (r: Result<(), CeremonyError>)
        ensures
            r == Self::spec_verify_pubkey(tau, previous, pubkey),
    ;

    /// The G1 powers are successive powers of the secret whose G2 image is `tau`.
    fn verify_g1(powers: &Vec<G1>, tau: G2) -> (r: Result<(), CeremonyError>)
        ensures
            r == Self::spec_verify_g1(*powers, tau),
    ;

    /// The G2 powers agree with the G1 powers of the same exponents.
    fn verify_g2(g1_powers: &Vec<G1>, g2_powers: &Vec<G2>) -> (r: Result<(), CeremonyError>)
        ensures
            r == Self::spec_verify_g2(*g1_powers, *g2_powers),
    ;
}

/// The verdict of two backends on one check: accepted only when both accept,
/// the first backend's reason when both reject, and a backend fault when they
/// disagree.
pub open spec fn spec_agree(
    a: Result<(), CeremonyError>,
    b: Result<(), CeremonyError>,
) -> Result<(), CeremonyError> {
    match (a, b) {
        (Ok(()), Ok(())) => Ok(()),
        (Err(e), Err(_)) => Err(e),
        _ => Err(CeremonyError::BackendDisagreement),
    }
}

/// Combines the verdicts of two backends on the same check.
pub fn agree(a: Result<(), CeremonyError>, b: Result<(), CeremonyError>) -> (r: Result<
    (),
    CeremonyError,
>)
    ensures
        r == spec_agree(a, b),
{
    match (a, b) {
        (Ok(()), Ok(())) => Ok(()),
        (Err(e), Err(_)) => Err(e),
        _ => Err(CeremonyError::BackendDisagreement),
    }
}

/// A backend that runs two backends on every check and accepts only when both
/// accept; a disagreement is reported as `BackendDisagreement`.
pub struct Both<A, B> {
    first: PhantomData<A>,
    second: PhantomData<B>,
}

impl<A: Engine, B: Engine> Engine for Both<A, B> {
    open spec fn spec_validate_g1(points: Vec<G1>) -> Result<(), CeremonyError> {
        spec_agree(A::spec_validate_g1(points), B::spec_validate_g1(points))
    }

    open spec fn spec_validate_g2(points: Vec<G2>) -> Result<(), CeremonyError> {
        spec_agree(A::spec_validate_g2(points), B::spec_validate_g2(points))
    }

    open spec fn spec_validate_pubkey(pubkey: G2) -> Result<(), CeremonyError> {
        spec_agree(A::spec_validate_pubkey(pubkey), B::spec_validate_pubkey(pubkey))
    }

    open spec fn spec_verify_pubkey(tau: G1, previous: G1, pubkey: G2) -> Result<(), CeremonyError> {
        spec_agree(
            A::spec_verify_pubkey(tau, previous, pubkey),
            B::spec_verify_pubkey(tau, previous, pubkey),
        )
    }

    open spec fn spec_verify_g1(powers: Vec<G1>, tau: G2) -> Result<(), CeremonyError> {
        spec_agree(A::spec_verify_g1(powers, tau), B::spec_verify_g1(powers, tau))
    }

    open spec fn spec_verify_g2(g1_powers: Vec<G1>, g2_powers: Vec<G2>) -> Result<(), CeremonyError> {
        spec_agree(A::spec_verify_g2(g1_powers, g2_powers), B::spec_verify_g2(g1_powers, g2_powers))
    }

    fn validate_g1(points: &Vec<G1>) -> (r: Result<(), CeremonyError>) {
        agree(A::validate_g1(points), B::validate_g1(points))
    }

    fn validate_g2(points: &Vec<G2>) -> (r: Result<(), CeremonyError>) {
        agree(A::validate_g2(points), B::validate_g2(points))
    }

    fn validate_pubkey(pubkey: G2) -> (r: Result<(), CeremonyError>) {
        agree(A::validate_pubkey(pubkey), B::validate_pubkey(pubkey))
    }

    fn verify_pubkey(tau: G1, previous: G1, pubkey: G2) -> (r: Result<(), CeremonyError>) {
        agree(A::verify_pubkey(tau, previous, pubkey), B::verify_pubkey(tau, previous, pubkey))
    }

    fn verify_g1(powers: &Vec<G1>, tau: G2) -> (r: Result<(), CeremonyError>) {
        agree(A::verify_g1(powers, tau), B::verify_g1(powers, tau))
    }

    fn verify_g2(g1_powers: &Vec<G1>, g2_powers: &Vec<G2>) -> (r: Result<(), CeremonyError>) {
        agree(A::verify_g2(g1_powers, g2_powers), B::verify_g2(g1_powers, g2_powers))
    }
}

} // verus!
