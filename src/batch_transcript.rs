use vstd::prelude::*;
use crate::engine::Engine;
use crate::error::{CeremoniesError, CeremonyError};
use crate::signature::{EcdsaSignature, Identity};
use crate::group::{lemma_generator_not_infinity, lemma_generator_unique};
use crate::transcript::{Contribution, Transcript};

verus! {

/// A participant's proposed update of every slot, with an optional signature
/// over the whole bundle.
#[derive(Clone, PartialEq, Eq, Debug)]
pub struct BatchContribution {
    pub contributions: Vec<Contribution>,
    pub ecdsa_signature: Option<EcdsaSignature>,
}

/// The ceremony's durable state: one transcript per parameter set, and the
/// append-only history of who contributed each round and their signature.
#[derive(Clone, PartialEq, Eq, Debug)]
pub struct BatchTranscript {
    pub transcripts: Vec<Transcript>,
    pub participant_ids: Vec<Identity>,
    pub participant_ecdsa_signatures: Vec<EcdsaSignature>,
}

impl BatchTranscript {
    /// Every slot is well formed, and the two histories have one entry per
    /// round, the genesis sentinels first.
    pub open spec fn wf(self) -> bool {
        &&& forall|i: int| 0 <= i < self.transcripts@.len() ==> (#[trigger] self.transcripts@[i]).wf()
        &&& self.participant_ids@.len() >= 1
        &&& self.participant_ids@.len() == self.participant_ecdsa_signatures@.len()
        &&& self.participant_ids@[0] == Identity::Nobody
        &&& self.participant_ecdsa_signatures@[0] == EcdsaSignature::Empty
    }

    pub open spec fn num_slots(self) -> nat {
        self.transcripts@.len()
    }

    /// The backend-free checks of slot `i` on its part of `c`.
    pub open spec fn slot_precheck(self, c: BatchContribution, i: int) -> Result<(), CeremonyError> {
        self.transcripts@[i].spec_precheck(c.contributions@[i])
    }

    /// The bundle has one contribution per slot, and each passes the
    /// backend-free checks of its slot.
    pub open spec fn prechecks_pass(self, c: BatchContribution) -> bool {
        &&& c.contributions@.len() == self.num_slots()
        &&& forall|i: int| 0 <= i < self.num_slots() ==> (#[trigger] self.slot_precheck(c, i)) is Ok
    }

    /// `c` is the template that this state hands out: one slot template per
    /// slot, and no signature.
    pub open spec fn is_template(self, c: BatchContribution) -> bool {
        &&& c.contributions@.len() == self.num_slots()
        &&& forall|i: int|
            0 <= i < self.num_slots() ==> (#[trigger] self.transcripts@[i]).is_template(c.contributions@[i])
        &&& c.ecdsa_signature is None
    }

    /// `new` is `old` after the round `c` by `id`: every slot has its
    /// contribution folded in, and each history has grown by one entry.
    pub open spec fn spec_committed(
        old: BatchTranscript,
        new: BatchTranscript,
        c: BatchContribution,
        id: Identity,
    ) -> bool {
        &&& new.num_slots() == old.num_slots()
        &&& forall|i: int|
            0 <= i < old.num_slots() ==> Transcript::spec_added(
                old.transcripts@[i],
                #[trigger] new.transcripts@[i],
                c.contributions@[i],
            )
        &&& new.participant_ids@ == old.participant_ids@.push(id)
        &&& new.participant_ecdsa_signatures@ == old.participant_ecdsa_signatures@.push(
            EcdsaSignature::spec_recorded(c.ecdsa_signature),
        )
    }

    /// A ceremony in genesis state with one slot per `(num_g1, num_g2)` pair.
    pub fn new(params: &[(usize, usize)]) -> (r: BatchTranscript)
        requires
            forall|i: int| 0 <= i < params@.len() ==> (#[trigger] params@[i]).0 >= 2 && params@[i].1 >= 2,
        ensures
            r.wf(),
            r.num_slots() == params@.len(),
            forall|i: int|
                0 <= i < params@.len() ==> (#[trigger] r.transcripts@[i]).is_genesis(
                    params@[i].0 as nat,
                    params@[i].1 as nat,
                ),
            r.participant_ids@ == seq![Identity::Nobody],
            r.participant_ecdsa_signatures@ == seq![EcdsaSignature::Empty],
    {
        let mut transcripts: Vec<Transcript> = Vec::new();
        let mut i: usize = 0;
        while i < params.len()
            invariant
                i <= params@.len(),
                transcripts@.len() == i,
                forall|j: int| 0 <= j < params@.len() ==> (#[trigger] params@[j]).0 >= 2 && params@[j].1 >= 2,
                forall|j: int|
                    0 <= j < i ==> (#[trigger] transcripts@[j]).wf() && transcripts@[j].is_genesis(
                        params@[j].0 as nat,
                        params@[j].1 as nat,
                    ),
            decreases params@.len() - i,
        {
            let (num_g1, num_g2) = params[i];
            transcripts.push(Transcript::new(num_g1, num_g2));
            i = i + 1;
        }
        let r = BatchTranscript {
            transcripts,
            participant_ids: vec![Identity::Nobody],
            participant_ecdsa_signatures: vec![EcdsaSignature::empty()],
        };
        assert(r.participant_ids@ =~= seq![Identity::Nobody]);
        assert(r.participant_ecdsa_signatures@ =~= seq![EcdsaSignature::Empty]);
        r
    }

    /// The template of the next round: each slot's template, and no signature.
    /// Reads the state only.
    pub fn contribution(&self) -> (r: BatchContribution)
        ensures
            self.is_template(r),
    {
        let mut contributions: Vec<Contribution> = Vec::new();
        let mut i: usize = 0;
        while i < self.transcripts.len()
            invariant
                i <= self.num_slots(),
                contributions@.len() == i,
                forall|j: int|
                    0 <= j < i ==> (#[trigger] self.transcripts@[j]).is_template(contributions@[j]),
            decreases self.num_slots() - i,
        {
            contributions.push(self.transcripts[i].contribution());
            i = i + 1;
        }
        BatchContribution { contributions, ecdsa_signature: None }
    }

    /// Folds a bundle that passed every check into the state and records the round.
    fn commit(&mut self, c: BatchContribution, id: Identity)
        requires
            old(self).wf(),
            old(self).prechecks_pass(c),
        ensures
            final(self).wf(),
            BatchTranscript::spec_committed(*old(self), *final(self), c, id),
    {
        let ghost c0 = c;
        let mut cs = c.contributions;
        let signature = c.ecdsa_signature;
        let n = self.transcripts.len();
        let mut i: usize = n;
        while i > 0
            invariant
                i <= n,
                n == old(self).num_slots(),
                self.num_slots() == n,
                old(self).wf(),
                old(self).prechecks_pass(c0),
                cs@ == c0.contributions@.subrange(0, i as int),
                forall|j: int| 0 <= j < i ==> self.transcripts@[j] == old(self).transcripts@[j],
                forall|j: int|
                    i <= j < n ==> (#[trigger] self.transcripts@[j]).wf() && Transcript::spec_added(
                        old(self).transcripts@[j],
                        self.transcripts@[j],
                        c0.contributions@[j],
                    ),
                self.participant_ids == old(self).participant_ids,
                self.participant_ecdsa_signatures == old(self).participant_ecdsa_signatures,
            decreases i,
        {
            let ci = cs.pop().unwrap();
            i = i - 1;
            assert(old(self).slot_precheck(c0, i as int) is Ok);
            assert(old(self).transcripts@[i as int].wf());
            self.transcripts[i].add(ci);
        }
        self.participant_ids.push(id);
        self.participant_ecdsa_signatures.push(EcdsaSignature::recorded(signature));
    }

    /// The verdict that `apply_verdicts` gives slot `i`: the backend-free
    /// checks first, then the verdict handed in for that slot.
    pub open spec fn effective_verdict(
        self,
        c: BatchContribution,
        verdicts: Seq<Result<(), CeremonyError>>,
        i: int,
    ) -> Result<(), CeremonyError> {
        if self.slot_precheck(c, i) is Err {
            self.slot_precheck(c, i)
        } else {
            verdicts[i]
        }
    }

    /// The verdict of `Transcript::verify` under `E` for slot `i` and its part of `c`.
    pub open spec fn slot_verdict<E: Engine>(self, c: BatchContribution, i: int) -> Result<(), CeremonyError> {
        self.transcripts@[i].spec_verify::<E>(c.contributions@[i])
    }

    /// Verifies every slot of `contribution` against `E` and, only if all of
    /// them are accepted, commits the round of `identity`.
    ///
    /// A bundle of the wrong length is refused with
    /// `UnexpectedNumContributions(slots, contributions)`; otherwise the
    /// lowest slot that rejects its part is reported as
    /// `InvalidCeremony(index, reason)`, with the slot's own reason. On every
    /// error the state is left exactly as it was.
    pub fn verify_add<E: Engine>(&mut self, contribution: BatchContribution, identity: Identity) -> (r:
        Result<(), CeremoniesError>)
        requires
            old(self).wf(),
        ensures
            final(self).wf(),
            (old(self).num_slots() != contribution.contributions@.len()) <==> r == Err::<
                (),
                CeremoniesError,
            >(
                CeremoniesError::UnexpectedNumContributions(
                    old(self).num_slots() as usize,
                    contribution.contributions@.len() as usize,
                ),
            ),
            r matches Err(CeremoniesError::UnexpectedNumContributions(_, _)) ==> old(self).num_slots()
                != contribution.contributions@.len(),
            r is Err ==> *final(self) == *old(self),
            r is Ok <==> contribution.contributions@.len() == old(self).num_slots() && forall|i: int|
                0 <= i < old(self).num_slots() ==> (#[trigger] old(self).slot_verdict::<E>(
                    contribution,
                    i,
                )) is Ok,
            r is Ok ==> BatchTranscript::spec_committed(*old(self), *final(self), contribution, identity),
            r matches Err(CeremoniesError::InvalidCeremony(i, e)) ==> {
                &&& i < old(self).num_slots()
                &&& old(self).slot_verdict::<E>(contribution, i as int) == Err::<(), CeremonyError>(e)
                &&& forall|j: int|
                    0 <= j < i ==> (#[trigger] old(self).slot_verdict::<E>(contribution, j)) is Ok
            },
    {
        let n = self.transcripts.len();
        if n != contribution.contributions.len() {
            return Err(CeremoniesError::UnexpectedNumContributions(n, contribution.contributions.len()));
        }
        let mut i: usize = 0;
        while i < n
            invariant
                i <= n,
                n == self.num_slots(),
                n == contribution.contributions@.len(),
                self.wf(),
                forall|j: int| 0 <= j < i ==> (#[trigger] self.slot_verdict::<E>(contribution, j)) is Ok,
            decreases n - i,
        {
            assert(self.transcripts@[i as int].wf());
            match self.transcripts[i].verify::<E>(&contribution.contributions[i]) {
                Err(e) => {
                    return Err(CeremoniesError::InvalidCeremony(i, e));
                },
                Ok(()) => {},
            }
            i = i + 1;
        }
        assert forall|j: int| 0 <= j < n implies #[trigger] self.slot_precheck(contribution, j) is Ok by {
            assert(self.slot_verdict::<E>(contribution, j) is Ok);
        }
        self.commit(contribution, identity);
        Ok(())
    }

    /// Commits the round of `identity` given a verdict for each slot, as
    /// `Transcript::verify` returns them (the slots may have been checked
    /// concurrently). The backend-free checks are made again here, so a
    /// bundle of the wrong shape is never committed.
    ///
    /// A bundle of the wrong length is refused with
    /// `UnexpectedNumContributions(slots, contributions)`; otherwise the
    /// lowest slot whose verdict is a rejection is reported as
    /// `InvalidCeremony(index, reason)`. On every error the state is left
    /// exactly as it was.
    pub fn apply_verdicts(
        &mut self,
        contribution: BatchContribution,
        identity: Identity,
        verdicts: Vec<Result<(), CeremonyError>>,
    ) -> (r: Result<(), CeremoniesError>)
        requires
            old(self).wf(),
            contribution.contributions@.len() == old(self).num_slots() ==> verdicts@.len()
                == old(self).num_slots(),
        ensures
            final(self).wf(),
            (old(self).num_slots() != contribution.contributions@.len()) <==> r == Err::<
                (),
                CeremoniesError,
            >(
                CeremoniesError::UnexpectedNumContributions(
                    old(self).num_slots() as usize,
                    contribution.contributions@.len() as usize,
                ),
            ),
            r matches Err(CeremoniesError::UnexpectedNumContributions(_, _)) ==> old(self).num_slots()
                != contribution.contributions@.len(),
            r is Err ==> *final(self) == *old(self),
            r is Ok <==> contribution.contributions@.len() == old(self).num_slots() && forall|i: int|
                0 <= i < old(self).num_slots() ==> (#[trigger] old(self).effective_verdict(
                    contribution,
                    verdicts@,
                    i,
                )) is Ok,
            r is Ok ==> BatchTranscript::spec_committed(*old(self), *final(self), contribution, identity),
            r matches Err(CeremoniesError::InvalidCeremony(i, e)) ==> {
                &&& i < old(self).num_slots()
                &&& old(self).effective_verdict(contribution, verdicts@, i as int) == Err::<
                    (),
                    CeremonyError,
                >(e)
                &&& forall|j: int|
                    0 <= j < i ==> (#[trigger] old(self).effective_verdict(
                        contribution,
                        verdicts@,
                        j,
                    )) is Ok
            },
    {
        let n = self.transcripts.len();
        if n != contribution.contributions.len() {
            return Err(CeremoniesError::UnexpectedNumContributions(n, contribution.contributions.len()));
        }
        let mut i: usize = 0;
        while i < n
            invariant
                i <= n,
                n == self.num_slots(),
                n == contribution.contributions@.len(),
                n == verdicts@.len(),
                self.wf(),
                forall|j: int| 0 <= j < i ==> (#[trigger] self.effective_verdict(contribution, verdicts@, j)) is Ok,
            decreases n - i,
        {
            match self.transcripts[i].precheck(&contribution.contributions[i]) {
                Err(e) => {
                    return Err(CeremoniesError::InvalidCeremony(i, e));
                },
                Ok(()) => {},
            }
            match &verdicts[i] {
                Err(e) => {
                    return Err(CeremoniesError::InvalidCeremony(i, *e));
                },
                Ok(()) => {},
            }
            i = i + 1;
        }
        assert forall|j: int| 0 <= j < n implies #[trigger] self.slot_precheck(contribution, j) is Ok by {
            assert(self.effective_verdict(contribution, verdicts@, j) is Ok);
        }
        self.commit(contribution, identity);
        Ok(())
    }
}


/// Handing out templates only reads the state: any two templates of one
/// state hold the same slot contents, and each passes the backend-free checks
/// of every slot.
pub proof fn lemma_templates_agree(bt: BatchTranscript, c1: BatchContribution, c2: BatchContribution)
    requires
        bt.is_template(c1),
        bt.is_template(c2),
    ensures
        c1.contributions@.len() == c2.contributions@.len(),
        forall|i: int|
            0 <= i < c1.contributions@.len() ==> {
                &&& (#[trigger] c1.contributions@[i]).powers.g1@ == c2.contributions@[i].powers.g1@
                &&& c1.contributions@[i].powers.g2@ == c2.contributions@[i].powers.g2@
                &&& c1.contributions@[i].pot_pubkey == c2.contributions@[i].pot_pubkey
            },
        c1.ecdsa_signature == c2.ecdsa_signature,
        bt.prechecks_pass(c1),
{
    assert forall|i: int| 0 <= i < c1.contributions@.len() implies {
        &&& (#[trigger] c1.contributions@[i]).powers.g1@ == c2.contributions@[i].powers.g1@
        &&& c1.contributions@[i].powers.g2@ == c2.contributions@[i].powers.g2@
        &&& c1.contributions@[i].pot_pubkey == c2.contributions@[i].pot_pubkey
    } by {
        assert(bt.transcripts@[i].is_template(c1.contributions@[i]));
        assert(bt.transcripts@[i].is_template(c2.contributions@[i]));
        lemma_generator_unique(c1.contributions@[i].pot_pubkey, c2.contributions@[i].pot_pubkey);
    }
    assert forall|i: int| 0 <= i < bt.num_slots() implies (#[trigger] bt.slot_precheck(c1, i)) is Ok by {
        assert(bt.transcripts@[i].is_template(c1.contributions@[i]));
        lemma_generator_not_infinity(c1.contributions@[i].pot_pubkey);
    }
}

} // verus!
