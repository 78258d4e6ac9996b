use vstd::prelude::*;
use crate::engine::Engine;
use crate::error::CeremonyError;
use crate::group::{G1, G2};

verus! {

/// Successive powers of the accumulated secret in both groups.
#[derive(Clone, PartialEq, Eq, Debug)]
pub struct Powers {
    pub g1: Vec<G1>,
    pub g2: Vec<G2>,
}

/// The audit trail of one slot: for each round, the first G1 power it left
/// behind and the public key of its secret (the genesis entry holds generators).
#[derive(Clone, PartialEq, Eq, Debug)]
pub struct Witness {
    pub products: Vec<G1>,
    pub pubkeys: Vec<G2>,
}

/// The accumulated state of one parameter set.
#[derive(Clone, PartialEq, Eq, Debug)]
pub struct Transcript {
    pub powers: Powers,
    pub witness: Witness,
}

/// A proposed update of one slot: the new powers and the public key of the
/// secret folded into them.
#[derive(Clone, PartialEq, Eq, Debug)]
pub struct Contribution {
    pub powers: Powers,
    pub pot_pubkey: G2,
}

/// Copies a vector of points element by element.
fn copy_points<T: Copy>(v: &Vec<T>) -> (r: Vec<T>)
    ensures
        r@ == v@,
{
    let mut r: Vec<T> = Vec::new();
    let mut i: usize = 0;
    while i < v.len()
        invariant
            i <= v@.len(),
            r@ == v@.subrange(0, i as int),
        decreases v@.len() - i,
    {
        r.push(v[i]);
        i = i + 1;
    }
    assert(r@ =~= v@);
    r
}

/// A vector of `n` copies of `p`.
fn repeat_point<T: Copy>(p: T, n: usize) -> (r: Vec<T>)
    ensures
        r@.len() == n,
        forall|i: int| 0 <= i < n ==> r@[i] == p,
{
    let mut r: Vec<T> = Vec::new();
    let mut i: usize = 0;
    while i < n
        invariant
            i <= n,
            r@.len() == i,
            forall|j: int| 0 <= j < i ==> r@[j] == p,
        decreases n - i,
    {
        r.push(p);
        i = i + 1;
    }
    r
}

impl Powers {
    pub open spec fn same_shape(self, other: Powers) -> bool {
        &&& self.g1@.len() == other.g1@.len()
        &&& self.g2@.len() == other.g2@.len()
    }
}

impl Transcript {
    /// Both power sequences are long enough to hold the first power of the secret.
    pub open spec fn wf(self) -> bool {
        &&& self.powers.g1@.len() >= 2
        &&& self.powers.g2@.len() >= 2
    }

    /// The state of a fresh slot with `num_g1` and `num_g2` powers.
    pub open spec fn is_genesis(self, num_g1: nat, num_g2: nat) -> bool {
        &&& self.powers.g1@.len() == num_g1
        &&& self.powers.g2@.len() == num_g2
        &&& forall|i: int| 0 <= i < num_g1 ==> (#[trigger] self.powers.g1@[i]).spec_is_generator()
        &&& forall|i: int| 0 <= i < num_g2 ==> (#[trigger] self.powers.g2@[i]).spec_is_generator()
        &&& self.witness.products@.len() == 1
        &&& self.witness.products@[0].spec_is_generator()
        &&& self.witness.pubkeys@.len() == 1
        &&& self.witness.pubkeys@[0].spec_is_generator()
    }

    /// The checks that need no backend: the powers have this slot's shape and
    /// the public key is not the point at infinity.
    pub open spec fn spec_precheck(self, c: Contribution) -> Result<(), CeremonyError> {
        if self.powers.g1@.len() != c.powers.g1@.len() {
            Err(CeremonyError::UnexpectedNumG1Powers(self.powers.g1@.len() as usize, c.powers.g1@.len() as usize))
        } else if self.powers.g2@.len() != c.powers.g2@.len() {
            Err(CeremonyError::UnexpectedNumG2Powers(self.powers.g2@.len() as usize, c.powers.g2@.len() as usize))
        } else if c.pot_pubkey.spec_is_infinity() {
            Err(CeremonyError::ZeroPubkey)
        } else {
            Ok(())
        }
    }

    /// `c` is the template that this state hands out: its powers are the
    /// current ones and its public key is the generator (no secret yet).
    pub open spec fn is_template(self, c: Contribution) -> bool {
        &&& c.powers.g1@ == self.powers.g1@
        &&& c.powers.g2@ == self.powers.g2@
        &&& c.pot_pubkey.spec_is_generator()
    }

    /// `new` is `old` with `c` folded in: the powers replaced by the
    /// contribution's, and the witness extended by one entry.
    pub open spec fn spec_added(old: Transcript, new: Transcript, c: Contribution) -> bool {
        &&& new.powers.g1@ == c.powers.g1@
        &&& new.powers.g2@ == c.powers.g2@
        &&& new.witness.products@ == old.witness.products@.push(c.powers.g1@[1])
        &&& new.witness.pubkeys@ == old.witness.pubkeys@.push(c.pot_pubkey)
    }

    /// The verdict of `verify` under backend `E`: the backend-free checks,
    /// then point validity of the G1 powers, the G2 powers and the public key,
    /// then the public-key, G1 and G2 pairing checks; the first rejection wins.
    pub open spec fn spec_verify<E: Engine>(self, c: Contribution) -> Result<(), CeremonyError> {
        if self.spec_precheck(c) is Err {
            self.spec_precheck(c)
        } else if E::spec_validate_g1(c.powers.g1) is Err {
            E::spec_validate_g1(c.powers.g1)
        } else if E::spec_validate_g2(c.powers.g2) is Err {
            E::spec_validate_g2(c.powers.g2)
        } else if E::spec_validate_pubkey(c.pot_pubkey) is Err {
            E::spec_validate_pubkey(c.pot_pubkey)
        } else if E::spec_verify_pubkey(c.powers.g1@[1], self.powers.g1@[1], c.pot_pubkey) is Err {
            E::spec_verify_pubkey(c.powers.g1@[1], self.powers.g1@[1], c.pot_pubkey)
        } else if E::spec_verify_g1(c.powers.g1, c.powers.g2@[1]) is Err {
            E::spec_verify_g1(c.powers.g1, c.powers.g2@[1])
        } else {
            E::spec_verify_g2(c.powers.g1, c.powers.g2)
        }
    }

    /// A slot in genesis state, every power the generator of its group.
    pub fn new(num_g1: usize, num_g2: usize) -> (r: Transcript)
        requires
            num_g1 >= 2,
            num_g2 >= 2,
        ensures
            r.wf(),
            r.is_genesis(num_g1 as nat, num_g2 as nat),
    {
        let g1 = G1::generator();
        let g2 = G2::generator();
        Transcript {
            powers: Powers { g1: repeat_point(g1, num_g1), g2: repeat_point(g2, num_g2) },
            witness: Witness { products: vec![g1], pubkeys: vec![g2] },
        }
    }

    /// The template of a contribution against the current state.
    pub fn contribution(&self) -> (r: Contribution)
        ensures
            self.is_template(r),
    {
        Contribution {
            powers: Powers { g1: copy_points(&self.powers.g1), g2: copy_points(&self.powers.g2) },
            pot_pubkey: G2::generator(),
        }
    }

    /// The checks of `verify` that need no backend.
    pub fn precheck(&self, c: &Contribution) -> (r: Result<(), CeremonyError>)
        ensures
            r == self.spec_precheck(*c),
    {
        if self.powers.g1.len() != c.powers.g1.len() {
            Err(CeremonyError::UnexpectedNumG1Powers(self.powers.g1.len(), c.powers.g1.len()))
        } else if self.powers.g2.len() != c.powers.g2.len() {
            Err(CeremonyError::UnexpectedNumG2Powers(self.powers.g2.len(), c.powers.g2.len()))
        } else if c.pot_pubkey.is_infinity() {
            Err(CeremonyError::ZeroPubkey)
        } else {
            Ok(())
        }
    }

    /// Checks `c` against the current state, as `spec_verify` describes.
    /// Never changes the state.
    pub fn verify<E: Engine>(&self, c: &Contribution) -> (r: Result<(), CeremonyError>)
        requires
            self.wf(),
        ensures
            r == self.spec_verify::<E>(*c),
    {
        let pre = self.precheck(c);
        if pre.is_err() {
            return pre;
        }
        let checked = E::validate_g1(&c.powers.g1);
        if checked.is_err() {
            return checked;
        }
        let checked = E::validate_g2(&c.powers.g2);
        if checked.is_err() {
            return checked;
        }
        let checked = E::validate_pubkey(c.pot_pubkey);
        if checked.is_err() {
            return checked;
        }
        let checked = E::verify_pubkey(c.powers.g1[1], self.powers.g1[1], c.pot_pubkey);
        if checked.is_err() {
            return checked;
        }
        let checked = E::verify_g1(&c.powers.g1, c.powers.g2[1]);
        if checked.is_err() {
            return checked;
        }
        E::verify_g2(&c.powers.g1, &c.powers.g2)
    }

    /// Folds a contribution of this slot's shape into the state.
    pub fn add(&mut self, c: Contribution)
        requires
            old(self).wf(),
            old(self).powers.same_shape(c.powers),
        ensures
            final(self).wf(),
            Transcript::spec_added(*old(self), *final(self), c),
    {
        let tau = c.powers.g1[1];
        let pubkey = c.pot_pubkey;
        self.powers = c.powers;
        self.witness.products.push(tau);
        self.witness.pubkeys.push(pubkey);
    }
}

} // verus!
