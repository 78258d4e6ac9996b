use vstd::prelude::*;

verus! {

/// Why a single transcript slot rejected a contribution.
#[derive(Clone, Copy, PartialEq, Eq, Debug)]
pub enum CeremonyError {
    /// The contribution carries a different number of G1 powers (expected, actual).
    UnexpectedNumG1Powers(usize, usize),
    /// The contribution carries a different number of G2 powers (expected, actual).
    UnexpectedNumG2Powers(usize, usize),
    /// The G1 power at this index is not a valid encoded point.
    InvalidG1Power(usize),
    /// The G2 power at this index is not a valid encoded point.
    InvalidG2Power(usize),
    /// The public key is not a valid encoded point.
    InvalidPubKey,
    /// The public key is the point at infinity: the contribution adds no secret.
    ZeroPubkey,
    /// The public key does not prove knowledge of the secret applied.
    PubKeyPairingFailed,
    /// The G1 powers are not successive powers of one secret.
    G1PairingFailed,
    /// The G2 powers do not agree with the G1 powers.
    G2PairingFailed,
    /// Two composed backends reached different verdicts on the same check.
    /// This signals a faulty backend, not a faulty contribution.
    BackendDisagreement,
}

/// Why a batch contribution was rejected as a whole.
#[derive(Clone, Copy, PartialEq, Eq, Debug)]
pub enum CeremoniesError {
    /// The batch does not hold one contribution per slot (expected, actual).
    UnexpectedNumContributions(usize, usize),
    /// The slot at this index rejected its contribution, for the given reason.
    InvalidCeremony(usize, CeremonyError),
}

impl CeremonyError {
    /// Whether this error reports a backend fault rather than a bad contribution.
    pub open spec fn spec_is_backend_fault(self) -> bool {
        self is BackendDisagreement
    }

    /// Whether this error reports a backend fault rather than a bad contribution;
    /// such a fault should halt the ceremony instead of rejecting one participant.
    pub fn is_backend_fault(&self) -> (r: bool)
        ensures
            r == self.spec_is_backend_fault(),
    {
        matches!(self, CeremonyError::BackendDisagreement)
    }
}

} // verus!
