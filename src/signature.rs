use vstd::prelude::*;

verus! {

/// Who authored a round. `Nobody` marks the genesis entry, before any participant.
#[derive(Clone, PartialEq, Eq, Debug)]
pub enum Identity {
    Nobody,
    Ethereum { address: [u8; 20] },
    Github { id: u64, username: String },
}

/// A participant's ECDSA signature over a batch contribution, or the empty
/// sentinel that stands for the genesis round and for an unsigned contribution.
#[derive(Clone, PartialEq, Eq, Debug)]
pub enum EcdsaSignature {
    Empty,
    Signed { bytes: Vec<u8> },
}

impl EcdsaSignature {
    /// The empty sentinel.
    pub fn empty() -> (r: EcdsaSignature)
        ensures
            r == EcdsaSignature::Empty,
    {
        EcdsaSignature::Empty
    }

    /// The signature recorded for a contribution that carries `s`.
    pub open spec fn spec_recorded(s: Option<EcdsaSignature>) -> EcdsaSignature {
        match s {
            Some(sig) => sig,
            None => EcdsaSignature::Empty,
        }
    }

    /// The signature to record for a contribution that carries `s`: the
    /// signature itself, or the empty sentinel when it carries none.
    pub fn recorded(s: Option<EcdsaSignature>) -> (r: EcdsaSignature)
        ensures
            r == EcdsaSignature::spec_recorded(s),
    {
        match s {
            Some(sig) => sig,
            None => EcdsaSignature::empty(),
        }
    }
}

} // verus!
