use kzg_ceremony_crypto::{
    agree, BatchContribution, BatchTranscript, Both, CeremoniesError, CeremonyError, Contribution,
    EcdsaSignature, Engine, Identity, Transcript, G1, G2,
};

/// A toy backend: a public key is a 48-byte mask in the first half of a G2
/// encoding, and a contribution is accepted when its first G1 power is the
/// previous one xor that mask.
struct XorEngine;

impl Engine for XorEngine {
    fn spec_validate_g1(points: Vec<G1>) -> Result<(), CeremonyError> {
        Self::validate_g1(&points)
    }

    fn spec_validate_g2(points: Vec<G2>) -> Result<(), CeremonyError> {
        Self::validate_g2(&points)
    }

    fn spec_validate_pubkey(pubkey: G2) -> Result<(), CeremonyError> {
        Self::validate_pubkey(pubkey)
    }

    fn spec_verify_pubkey(tau: G1, previous: G1, pubkey: G2) -> Result<(), CeremonyError> {
        Self::verify_pubkey(tau, previous, pubkey)
    }

    fn spec_verify_g1(powers: Vec<G1>, tau: G2) -> Result<(), CeremonyError> {
        Self::verify_g1(&powers, tau)
    }

    fn spec_verify_g2(g1: Vec<G1>, g2: Vec<G2>) -> Result<(), CeremonyError> {
        Self::verify_g2(&g1, &g2)
    }

    fn validate_pubkey(_pubkey: G2) -> Result<(), CeremonyError> {
        Ok(())
    }

    fn validate_g1(_points: &Vec<G1>) -> Result<(), CeremonyError> {
        Ok(())
    }

    fn validate_g2(_points: &Vec<G2>) -> Result<(), CeremonyError> {
        Ok(())
    }

    fn verify_pubkey(tau: G1, previous: G1, pubkey: G2) -> Result<(), CeremonyError> {
        for k in 0..48 {
            if tau.0[k] != previous.0[k] ^ pubkey.0[k] {
                return Err(CeremonyError::PubKeyPairingFailed);
            }
        }
        Ok(())
    }

    fn verify_g1(_powers: &Vec<G1>, _tau: G2) -> Result<(), CeremonyError> {
        Ok(())
    }

    fn verify_g2(_g1: &Vec<G1>, _g2: &Vec<G2>) -> Result<(), CeremonyError> {
        Ok(())
    }
}

/// A backend that accepts everything.
struct AcceptAll;

impl Engine for AcceptAll {
    fn spec_validate_g1(points: Vec<G1>) -> Result<(), CeremonyError> {
        Self::validate_g1(&points)
    }

    fn spec_validate_g2(points: Vec<G2>) -> Result<(), CeremonyError> {
        Self::validate_g2(&points)
    }

    fn spec_validate_pubkey(pubkey: G2) -> Result<(), CeremonyError> {
        Self::validate_pubkey(pubkey)
    }

    fn spec_verify_pubkey(tau: G1, previous: G1, pubkey: G2) -> Result<(), CeremonyError> {
        Self::verify_pubkey(tau, previous, pubkey)
    }

    fn spec_verify_g1(powers: Vec<G1>, tau: G2) -> Result<(), CeremonyError> {
        Self::verify_g1(&powers, tau)
    }

    fn spec_verify_g2(g1: Vec<G1>, g2: Vec<G2>) -> Result<(), CeremonyError> {
        Self::verify_g2(&g1, &g2)
    }

    fn validate_pubkey(_pubkey: G2) -> Result<(), CeremonyError> {
        Ok(())
    }

    fn validate_g1(_points: &Vec<G1>) -> Result<(), CeremonyError> {
        Ok(())
    }

    fn validate_g2(_points: &Vec<G2>) -> Result<(), CeremonyError> {
        Ok(())
    }

    fn verify_pubkey(_tau: G1, _previous: G1, _pubkey: G2) -> Result<(), CeremonyError> {
        Ok(())
    }

    fn verify_g1(_powers: &Vec<G1>, _tau: G2) -> Result<(), CeremonyError> {
        Ok(())
    }

    fn verify_g2(_g1: &Vec<G1>, _g2: &Vec<G2>) -> Result<(), CeremonyError> {
        Ok(())
    }
}

/// A backend that rejects every G1 encoding.
struct RejectG1;

impl Engine for RejectG1 {
    fn spec_validate_g1(points: Vec<G1>) -> Result<(), CeremonyError> {
        Self::validate_g1(&points)
    }

    fn spec_validate_g2(points: Vec<G2>) -> Result<(), CeremonyError> {
        Self::validate_g2(&points)
    }

    fn spec_validate_pubkey(pubkey: G2) -> Result<(), CeremonyError> {
        Self::validate_pubkey(pubkey)
    }

    fn spec_verify_pubkey(tau: G1, previous: G1, pubkey: G2) -> Result<(), CeremonyError> {
        Self::verify_pubkey(tau, previous, pubkey)
    }

    fn spec_verify_g1(powers: Vec<G1>, tau: G2) -> Result<(), CeremonyError> {
        Self::verify_g1(&powers, tau)
    }

    fn spec_verify_g2(g1: Vec<G1>, g2: Vec<G2>) -> Result<(), CeremonyError> {
        Self::verify_g2(&g1, &g2)
    }

    fn validate_pubkey(_pubkey: G2) -> Result<(), CeremonyError> {
        Ok(())
    }

    fn validate_g1(_points: &Vec<G1>) -> Result<(), CeremonyError> {
        Err(CeremonyError::InvalidG1Power(0))
    }

    fn validate_g2(_points: &Vec<G2>) -> Result<(), CeremonyError> {
        Ok(())
    }

    fn verify_pubkey(_tau: G1, _previous: G1, _pubkey: G2) -> Result<(), CeremonyError> {
        Ok(())
    }

    fn verify_g1(_powers: &Vec<G1>, _tau: G2) -> Result<(), CeremonyError> {
        Ok(())
    }

    fn verify_g2(_g1: &Vec<G1>, _g2: &Vec<G2>) -> Result<(), CeremonyError> {
        Ok(())
    }
}

const SIZES: [(usize, usize); 2] = [(4, 2), (8, 4)];

fn mask_pubkey(seed: u8) -> G2 {
    let mut bytes = [0u8; 96];
    for (k, b) in bytes.iter_mut().take(48).enumerate() {
        *b = seed.wrapping_add(k as u8) | 1;
    }
    G2(bytes)
}

fn infinity() -> G2 {
    let mut bytes = [0u8; 96];
    bytes[0] = 0xc0;
    G2(bytes)
}

/// Applies the toy secret `seed` to every slot of a template.
fn add_randomness(c: &mut BatchContribution, seed: u8) {
    for (slot, sub) in c.contributions.iter_mut().enumerate() {
        let pubkey = mask_pubkey(seed.wrapping_add(slot as u8));
        for p in sub.powers.g1.iter_mut().skip(1) {
            for k in 0..48 {
                p.0[k] ^= pubkey.0[k];
            }
        }
        sub.pot_pubkey = pubkey;
    }
}

fn github(id: u64, name: &str) -> Identity {
    Identity::Github { id, username: name.to_string() }
}

fn after_round_one() -> BatchTranscript {
    let mut bt = BatchTranscript::new(&SIZES);
    let mut c = bt.contribution();
    add_randomness(&mut c, 7);
    assert_eq!(bt.verify_add::<XorEngine>(c, github(1, "alice")), Ok(()));
    bt
}

#[test]
fn scenario_a_genesis_and_template() {
    let bt = BatchTranscript::new(&SIZES);
    assert_eq!(bt.participant_ids, vec![Identity::Nobody]);
    assert_eq!(bt.participant_ecdsa_signatures, vec![EcdsaSignature::Empty]);
    let c = bt.contribution();
    assert_eq!(c.contributions.len(), 2);
    assert_eq!(c.ecdsa_signature, None);
    let g1 = G1::generator();
    let g2 = G2::generator();
    for (sub, &(n1, n2)) in c.contributions.iter().zip(SIZES.iter()) {
        assert_eq!(sub.powers.g1, vec![g1; n1]);
        assert_eq!(sub.powers.g2, vec![g2; n2]);
        assert_eq!(sub.pot_pubkey, g2);
    }
}

#[test]
fn scenario_b_valid_round_commits() {
    let mut bt = BatchTranscript::new(&SIZES);
    let mut c = bt.contribution();
    add_randomness(&mut c, 7);
    let expected = c.clone();
    assert_eq!(bt.verify_add::<XorEngine>(c, github(1, "alice")), Ok(()));
    assert_eq!(bt.participant_ids, vec![Identity::Nobody, github(1, "alice")]);
    assert_eq!(bt.participant_ecdsa_signatures, vec![EcdsaSignature::Empty, EcdsaSignature::Empty]);
    for (t, sub) in bt.transcripts.iter().zip(expected.contributions.iter()) {
        assert_eq!(t.powers, sub.powers);
        assert_eq!(t.witness.products, vec![G1::generator(), sub.powers.g1[1]]);
        assert_eq!(t.witness.pubkeys, vec![G2::generator(), sub.pot_pubkey]);
    }
}

#[test]
fn scenario_c_wrong_number_of_contributions() {
    let mut bt = BatchTranscript::new(&SIZES);
    let before = bt.clone();
    let mut c = bt.contribution();
    c.contributions.pop();
    assert_eq!(
        bt.verify_add::<XorEngine>(c, github(1, "alice")),
        Err(CeremoniesError::UnexpectedNumContributions(2, 1))
    );
    assert_eq!(bt.participant_ids, vec![Identity::Nobody]);
    assert_eq!(bt, before);
}

#[test]
fn scenario_d_corrupt_second_slot_is_atomic() {
    let mut bt = after_round_one();
    let before = bt.clone();
    let mut c = bt.contribution();
    add_randomness(&mut c, 40);
    for p in c.contributions[1].powers.g1.iter_mut() {
        *p = G1([0u8; 48]);
    }
    c.contributions[1].pot_pubkey = G2([0u8; 96]);
    let r = bt.verify_add::<XorEngine>(c, github(2, "bob"));
    assert!(matches!(r, Err(CeremoniesError::InvalidCeremony(1, _))));
    assert_eq!(bt, before);
    assert_eq!(bt.participant_ids.len(), 2);
}

#[test]
fn scenario_e_stale_contribution_fails_second_time() {
    let mut bt = BatchTranscript::new(&SIZES);
    let mut c = bt.contribution();
    add_randomness(&mut c, 7);
    assert_eq!(bt.verify_add::<XorEngine>(c.clone(), github(1, "alice")), Ok(()));
    let before = bt.clone();
    assert_eq!(
        bt.verify_add::<XorEngine>(c, github(1, "alice")),
        Err(CeremoniesError::InvalidCeremony(0, CeremonyError::PubKeyPairingFailed))
    );
    assert_eq!(bt, before);
}

#[test]
fn shape_check_too_many_contributions() {
    let mut bt = BatchTranscript::new(&SIZES);
    let before = bt.clone();
    let mut c = bt.contribution();
    let extra = c.contributions[0].clone();
    c.contributions.push(extra);
    assert_eq!(
        bt.verify_add::<AcceptAll>(c, github(1, "alice")),
        Err(CeremoniesError::UnexpectedNumContributions(2, 3))
    );
    assert_eq!(bt, before);
}

#[test]
fn shape_check_empty_bundle_on_empty_ceremony() {
    let mut bt = BatchTranscript::new(&[]);
    let c = bt.contribution();
    assert!(c.contributions.is_empty());
    assert_eq!(bt.verify_add::<AcceptAll>(c, github(3, "solo")), Ok(()));
    assert_eq!(bt.participant_ids, vec![Identity::Nobody, github(3, "solo")]);
}

#[test]
fn zero_pubkey_is_rejected_before_any_backend() {
    let mut bt = BatchTranscript::new(&SIZES);
    let before = bt.clone();
    let mut c = bt.contribution();
    c.contributions[1].pot_pubkey = infinity();
    assert_eq!(
        bt.verify_add::<AcceptAll>(c, github(1, "alice")),
        Err(CeremoniesError::InvalidCeremony(1, CeremonyError::ZeroPubkey))
    );
    assert_eq!(bt, before);
}

#[test]
fn wrong_number_of_g1_powers() {
    let mut bt = BatchTranscript::new(&SIZES);
    let mut c = bt.contribution();
    c.contributions[0].powers.g1.push(G1::generator());
    assert_eq!(
        bt.verify_add::<AcceptAll>(c, github(1, "alice")),
        Err(CeremoniesError::InvalidCeremony(0, CeremonyError::UnexpectedNumG1Powers(4, 5)))
    );
}

#[test]
fn wrong_number_of_g2_powers() {
    let mut bt = BatchTranscript::new(&SIZES);
    let mut c = bt.contribution();
    c.contributions[1].powers.g2.pop();
    assert_eq!(
        bt.verify_add::<AcceptAll>(c, github(1, "alice")),
        Err(CeremoniesError::InvalidCeremony(1, CeremonyError::UnexpectedNumG2Powers(4, 3)))
    );
}

#[test]
fn backend_rejection_is_reported_with_slot() {
    let mut bt = BatchTranscript::new(&SIZES);
    let before = bt.clone();
    let mut c = bt.contribution();
    add_randomness(&mut c, 9);
    assert_eq!(
        bt.verify_add::<RejectG1>(c, github(1, "alice")),
        Err(CeremoniesError::InvalidCeremony(0, CeremonyError::InvalidG1Power(0)))
    );
    assert_eq!(bt, before);
}

#[test]
fn signature_is_recorded_with_identity() {
    let mut bt = BatchTranscript::new(&SIZES);
    let mut c = bt.contribution();
    add_randomness(&mut c, 3);
    let sig = EcdsaSignature::Signed { bytes: vec![1, 2, 3] };
    c.ecdsa_signature = Some(sig.clone());
    let id = Identity::Ethereum { address: [0xab; 20] };
    assert_eq!(bt.verify_add::<XorEngine>(c, id.clone()), Ok(()));
    assert_eq!(bt.participant_ids, vec![Identity::Nobody, id]);
    assert_eq!(bt.participant_ecdsa_signatures, vec![EcdsaSignature::Empty, sig]);
}

#[test]
fn histories_grow_by_one_per_round() {
    let mut bt = BatchTranscript::new(&SIZES);
    for round in 1..=3u8 {
        let mut c = bt.contribution();
        add_randomness(&mut c, round.wrapping_mul(31));
        let id = github(round as u64, "p");
        assert_eq!(bt.verify_add::<XorEngine>(c, id.clone()), Ok(()));
        assert_eq!(bt.participant_ids.len(), 1 + round as usize);
        assert_eq!(bt.participant_ecdsa_signatures.len(), 1 + round as usize);
        assert_eq!(bt.participant_ids.last(), Some(&id));
        assert_eq!(bt.transcripts.len(), 2);
    }
}

#[test]
fn contribution_reads_only() {
    let bt = after_round_one();
    let before = bt.clone();
    let c1 = bt.contribution();
    let c2 = bt.contribution();
    assert_eq!(c1, c2);
    assert_eq!(bt, before);
    for (t, sub) in bt.transcripts.iter().zip(c1.contributions.iter()) {
        assert_eq!(t.powers, sub.powers);
        assert_eq!(sub.pot_pubkey, G2::generator());
    }
}

#[test]
fn both_engines_agreeing_accept() {
    let mut bt = BatchTranscript::new(&SIZES);
    let mut c = bt.contribution();
    add_randomness(&mut c, 5);
    assert_eq!(bt.verify_add::<Both<XorEngine, AcceptAll>>(c, github(1, "alice")), Ok(()));
    assert_eq!(bt.participant_ids.len(), 2);
}

#[test]
fn both_engines_disagreeing_is_a_backend_fault() {
    let mut bt = after_round_one();
    let before = bt.clone();
    let c = bt.contribution();
    let r = bt.verify_add::<Both<XorEngine, AcceptAll>>(c, github(2, "bob"));
    assert_eq!(r, Err(CeremoniesError::InvalidCeremony(0, CeremonyError::BackendDisagreement)));
    assert!(CeremonyError::BackendDisagreement.is_backend_fault());
    assert!(!CeremonyError::PubKeyPairingFailed.is_backend_fault());
    assert_eq!(bt, before);
}

#[test]
fn agree_combines_verdicts() {
    let bad = Err(CeremonyError::G1PairingFailed);
    let other = Err(CeremonyError::G2PairingFailed);
    assert_eq!(agree(Ok(()), Ok(())), Ok(()));
    assert_eq!(agree(bad, other), bad);
    assert_eq!(agree(Ok(()), bad), Err(CeremonyError::BackendDisagreement));
    assert_eq!(agree(bad, Ok(())), Err(CeremonyError::BackendDisagreement));
}

#[test]
fn apply_verdicts_commits_when_all_accept() {
    let mut bt = BatchTranscript::new(&SIZES);
    let mut c = bt.contribution();
    add_randomness(&mut c, 11);
    assert_eq!(bt.apply_verdicts(c, github(4, "q"), vec![Ok(()), Ok(())]), Ok(()));
    assert_eq!(bt.participant_ids, vec![Identity::Nobody, github(4, "q")]);
}

#[test]
fn apply_verdicts_reports_lowest_rejection() {
    let mut bt = BatchTranscript::new(&SIZES);
    let before = bt.clone();
    let c = bt.contribution();
    let verdicts = vec![Err(CeremonyError::G2PairingFailed), Err(CeremonyError::G1PairingFailed)];
    assert_eq!(
        bt.apply_verdicts(c, github(4, "q"), verdicts),
        Err(CeremoniesError::InvalidCeremony(0, CeremonyError::G2PairingFailed))
    );
    assert_eq!(bt, before);
}

#[test]
fn apply_verdicts_rechecks_shape() {
    let mut bt = BatchTranscript::new(&SIZES);
    let before = bt.clone();
    let mut c = bt.contribution();
    c.contributions[1].pot_pubkey = infinity();
    assert_eq!(
        bt.apply_verdicts(c, github(4, "q"), vec![Ok(()), Ok(())]),
        Err(CeremoniesError::InvalidCeremony(1, CeremonyError::ZeroPubkey))
    );
    let mut short = bt.contribution();
    short.contributions.clear();
    assert_eq!(
        bt.apply_verdicts(short, github(4, "q"), vec![]),
        Err(CeremoniesError::UnexpectedNumContributions(2, 0))
    );
    assert_eq!(bt, before);
}

#[test]
fn transcript_verify_and_add() {
    let mut t = Transcript::new(3, 2);
    assert_eq!(t.powers.g1, vec![G1::generator(); 3]);
    assert_eq!(t.witness.products, vec![G1::generator()]);
    let mut c: Contribution = t.contribution();
    assert_eq!(t.precheck(&c), Ok(()));
    let pubkey = mask_pubkey(21);
    for k in 0..48 {
        c.powers.g1[1].0[k] ^= pubkey.0[k];
    }
    c.pot_pubkey = pubkey;
    assert_eq!(t.verify::<XorEngine>(&c), Ok(()));
    let tau = c.powers.g1[1];
    t.add(c);
    assert_eq!(t.powers.g1[1], tau);
    assert_eq!(t.witness.products, vec![G1::generator(), tau]);
    assert_eq!(t.witness.pubkeys, vec![G2::generator(), pubkey]);
}

#[test]
fn generator_and_infinity_encodings() {
    assert_eq!(G1::generator().0[0], 0x97);
    assert_eq!(G1::generator().0[47], 0xbb);
    assert_eq!(G2::generator().0[0], 0x93);
    assert_eq!(G2::generator().0[95], 0xb8);
    assert!(infinity().is_infinity());
    assert!(!G2::generator().is_infinity());
    assert!(!G2([0u8; 96]).is_infinity());
    let mut almost = infinity();
    almost.0[95] = 1;
    assert!(!almost.is_infinity());
}

#[test]
fn recorded_signature_defaults_to_empty() {
    assert_eq!(EcdsaSignature::recorded(None), EcdsaSignature::Empty);
    assert_eq!(EcdsaSignature::empty(), EcdsaSignature::Empty);
    let s = EcdsaSignature::Signed { bytes: vec![9] };
    assert_eq!(EcdsaSignature::recorded(Some(s.clone())), s);
}
