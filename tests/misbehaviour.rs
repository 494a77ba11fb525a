use tm_misbehaviour::{
    BlockHeader, BlockId, PartSetHeader, Timestamp, Version, ChainId, ClientError, ClientId, Commit, CommitFault, CommitSig, CommitValidator,
    Envelope, Error, Hasher, Header, Height, Misbehaviour, ProdCommitValidator, ProdHasher,
    RawMisbehaviour, SignedHeader, TrustThreshold, Validator, ValidatorSet, Verdict,
    VotingPowerTally, TENDERMINT_MISBEHAVIOUR_TYPE_URL,
};

fn validator_set(seed: u8, n: u8, power: u64) -> ValidatorSet {
    let mut validators = Vec::new();
    for i in 0..n {
        let mut pub_key = vec![seed; 31];
        pub_key.push(i);
        validators.push(Validator { pub_key, voting_power: power });
    }
    ValidatorSet { validators }
}

fn sigs(indices: &[u64]) -> Vec<CommitSig> {
    indices.iter().map(|i| CommitSig { validator_index: *i, signature: vec![1, 2, 3] }).collect()
}

fn header_with(chain: &str, height: u64, app: u8, signatures: Vec<CommitSig>) -> Header {
    let validators = validator_set(1, 4, 10);
    let vh = ProdHasher.hash_validator_set(&validators).unwrap();
    let block = BlockHeader {
        version: Version { block: 11, app: 0 },
        chain_id: ChainId::new(chain.to_string()),
        height: Height::new(0, height),
        time: Timestamp { seconds: 1_600_000_000 + height as i64, nanos: 5 },
        last_block_id: Some(BlockId {
            hash: vec![1; 32],
            part_set_header: PartSetHeader { total: 1, hash: vec![2; 32] },
        }),
        last_commit_hash: vec![3; 32],
        data_hash: vec![4; 32],
        validators_hash: vh.clone(),
        next_validators_hash: vh,
        consensus_hash: vec![5; 32],
        app_hash: vec![app],
        last_results_hash: vec![6; 32],
        evidence_hash: Vec::new(),
        proposer_address: vec![9; 20],
    };
    let block_hash = ProdHasher.hash_header(&block).unwrap();
    Header {
        signed_header: SignedHeader { header: block, commit: Commit { block_hash, signatures } },
        validators: validators.clone(),
        next_validators: Some(validators.clone()),
        trusted_height: Height::new(0, height - 1),
        trusted_next_validators: validators,
    }
}

fn header(chain: &str, height: u64, app: u8) -> Header {
    header_with(chain, height, app, sigs(&[0, 1, 2, 3]))
}

fn client() -> ClientId {
    ClientId::from_string("07-tendermint-0".to_string()).unwrap()
}

#[test]
fn valid_pair_is_accepted() {
    let h1 = header("chain-a", 10, 1);
    let h2 = header("chain-a", 10, 2);
    let m = Misbehaviour::new(client(), h1.clone(), h2.clone()).unwrap();
    assert_eq!(m.client_id().as_str(), "07-tendermint-0");
    assert_eq!(m.header1(), &h1);
    assert_eq!(m.header2(), &h2);
    assert_eq!(m.height(), Height::new(0, 10));
    assert!(m.chain_id_matches(&ChainId::new("chain-a".to_string())));
    assert!(!m.chain_id_matches(&ChainId::new("chain-b".to_string())));
}

#[test]
fn higher_first_header_is_accepted() {
    let m = Misbehaviour::new(client(), header("chain-a", 12, 1), header("chain-a", 10, 2)).unwrap();
    assert_eq!(m.height(), Height::new(0, 12));
}

#[test]
fn chain_id_mismatch_comes_first() {
    let mut bad = header("chain-b", 20, 2);
    bad.validators = validator_set(9, 3, 5);
    let r = Misbehaviour::new(client(), header("chain-a", 10, 1), bad);
    assert_eq!(r.unwrap_err(), Error::ChainIdMismatch);
    let r = Misbehaviour::new(client(), header("chain-a", 30, 1), header("chain-b", 10, 1));
    assert_eq!(r.unwrap_err(), Error::ChainIdMismatch);
}

#[test]
fn lower_first_header_is_rejected() {
    let r = Misbehaviour::new(client(), header("chain-a", 5, 1), header("chain-a", 10, 2));
    assert_eq!(
        r.unwrap_err(),
        Error::HeightOrdering { height1: Height::new(0, 5), height2: Height::new(0, 10) }
    );
}

#[test]
fn height_order_is_lexicographic() {
    assert!(Height::new(0, 100).less_than(&Height::new(1, 1)));
    assert!(!Height::new(1, 1).less_than(&Height::new(0, 100)));
    assert!(Height::new(1, 1).less_than(&Height::new(1, 2)));
    assert!(!Height::new(1, 2).less_than(&Height::new(1, 2)));
}

#[test]
fn swapped_validator_set_is_rejected() {
    let mut h1 = header("chain-a", 10, 1);
    let embedded = h1.signed_header.header.validators_hash.clone();
    h1.validators = validator_set(2, 4, 10);
    let computed = ProdHasher.hash_validator_set(&h1.validators);
    assert!(computed.is_some());
    let r = Misbehaviour::new(client(), h1, header("chain-a", 10, 2));
    assert_eq!(
        r.unwrap_err(),
        Error::ValidatorSetMismatch { header_validators_hash: embedded, validators_hash: computed }
    );
}

#[test]
fn swapped_next_validator_set_is_rejected() {
    let mut h2 = header("chain-a", 10, 2);
    h2.next_validators = Some(validator_set(3, 2, 10));
    let r = Misbehaviour::new(client(), header("chain-a", 10, 1), h2);
    assert!(matches!(r.unwrap_err(), Error::ValidatorSetMismatch { .. }));
}

#[test]
fn absent_next_validator_set_is_skipped() {
    let mut h1 = header("chain-a", 10, 1);
    h1.next_validators = None;
    assert!(Misbehaviour::new(client(), h1, header("chain-a", 10, 2)).is_ok());
}

#[test]
fn commit_for_another_header_is_rejected() {
    let mut h1 = header("chain-a", 10, 1);
    let other = header("chain-a", 10, 2);
    let own = ProdHasher.hash_header(&h1.signed_header.header);
    assert!(own.is_some());
    h1.signed_header.commit.block_hash = other.signed_header.commit.block_hash.clone();
    let r = Misbehaviour::new(client(), h1, other.clone());
    assert_eq!(
        r.unwrap_err(),
        Error::HeaderCommitMismatch {
            header_hash: own,
            commit_hash: other.signed_header.commit.block_hash
        }
    );
}

#[test]
fn removed_signatures_fail_at_commit_check() {
    let h1 = header_with("chain-a", 10, 1, sigs(&[0, 1]));
    let r = Misbehaviour::new(client(), h1, header("chain-a", 10, 2));
    assert_eq!(
        r.unwrap_err(),
        Error::InvalidCommit(Verdict::NotEnoughTrust(VotingPowerTally {
            total: 40,
            tallied: 20,
            trust_threshold: TrustThreshold::two_thirds(),
        }))
    );
    let h1 = header_with("chain-a", 10, 1, sigs(&[0, 1, 2]));
    assert!(Misbehaviour::new(client(), h1, header("chain-a", 10, 2)).is_ok());
}

#[test]
fn hash_faults_outrank_commit_faults() {
    let mut h1 = header_with("chain-a", 10, 1, Vec::new());
    h1.signed_header.commit.block_hash = vec![0; 32];
    let r = Misbehaviour::new(client(), h1, header("chain-a", 10, 2));
    assert!(matches!(r.unwrap_err(), Error::HeaderCommitMismatch { .. }));
}

#[test]
fn equal_headers_are_accepted() {
    let h = header("chain-a", 10, 1);
    assert!(Misbehaviour::new(client(), h.clone(), h).is_ok());
}

#[test]
fn commit_without_signatures_is_invalid() {
    let h = header_with("chain-a", 10, 1, Vec::new());
    let v = ProdCommitValidator::new(TrustThreshold::two_thirds());
    assert_eq!(v.validate(&h.signed_header, &h.validators), Verdict::Invalid(CommitFault::NoSignatures));
    let r = Misbehaviour::new(client(), h, header("chain-a", 10, 2));
    assert_eq!(r.unwrap_err(), Error::InvalidCommit(Verdict::Invalid(CommitFault::NoSignatures)));
}

#[test]
fn commit_with_unknown_validator_is_invalid() {
    let h = header_with("chain-a", 10, 1, sigs(&[0, 1, 4]));
    let v = ProdCommitValidator::new(TrustThreshold::two_thirds());
    assert_eq!(
        v.validate(&h.signed_header, &h.validators),
        Verdict::Invalid(CommitFault::UnknownValidator { index: 4 })
    );
}

#[test]
fn commit_with_duplicate_vote_is_invalid() {
    let h = header_with("chain-a", 10, 1, sigs(&[0, 1, 2, 1]));
    let v = ProdCommitValidator::new(TrustThreshold::two_thirds());
    assert_eq!(
        v.validate(&h.signed_header, &h.validators),
        Verdict::Invalid(CommitFault::DuplicateVote { index: 1 })
    );
    let r = Misbehaviour::new(client(), h, header("chain-a", 10, 2));
    assert_eq!(
        r.unwrap_err(),
        Error::InvalidCommit(Verdict::Invalid(CommitFault::DuplicateVote { index: 1 }))
    );
}

#[test]
fn commit_with_empty_signature_is_invalid() {
    let mut s = sigs(&[0, 1, 2]);
    s[1].signature = Vec::new();
    let h = header_with("chain-a", 10, 1, s);
    let v = ProdCommitValidator::new(TrustThreshold::two_thirds());
    assert_eq!(
        v.validate(&h.signed_header, &h.validators),
        Verdict::Invalid(CommitFault::MalformedSignature { index: 1 })
    );
}

#[test]
fn threshold_is_configurable() {
    let h = header_with("chain-a", 10, 1, sigs(&[0, 1]));
    let third = ProdCommitValidator::new(TrustThreshold::one_third());
    assert_eq!(third.validate_full(&h.signed_header, &h.validators), Verdict::Success);
    let two_thirds = ProdCommitValidator::new(TrustThreshold::two_thirds());
    assert_eq!(
        two_thirds.validate_full(&h.signed_header, &h.validators),
        Verdict::NotEnoughTrust(VotingPowerTally {
            total: 40,
            tallied: 20,
            trust_threshold: TrustThreshold::two_thirds()
        })
    );
    let m = Misbehaviour::new_with(&ProdHasher, &third, client(), h, header("chain-a", 10, 2));
    assert!(m.is_ok());
}

#[test]
fn threshold_must_be_a_fraction() {
    assert_eq!(TrustThreshold::new(1, 2), Some(TrustThreshold { numerator: 1, denominator: 2 }));
    assert_eq!(TrustThreshold::new(1, 0), None);
    assert_eq!(TrustThreshold::new(0, 3), None);
    assert_eq!(TrustThreshold::new(4, 3), None);
}

#[test]
fn voting_power_overflow_is_invalid() {
    let mut h = header("chain-a", 10, 1);
    h.validators = validator_set(1, 2, u64::MAX);
    let v = ProdCommitValidator::new(TrustThreshold::two_thirds());
    assert_eq!(
        v.validate_full(&h.signed_header, &h.validators),
        Verdict::Invalid(CommitFault::VotingPowerOverflow)
    );
}

#[test]
fn validator_set_hash_is_tendermints() {
    let a = validator_set(1, 4, 10);
    let b = validator_set(2, 4, 10);
    let ha = ProdHasher.hash_validator_set(&a).unwrap();
    assert_eq!(ha.len(), 32);
    assert_eq!(Some(ha.clone()), ProdHasher.hash_validator_set(&a.clone()));
    assert_ne!(Some(ha), ProdHasher.hash_validator_set(&b));
    let h = header("chain-a", 10, 1);
    let hh = ProdHasher.hash_header(&h.signed_header.header).unwrap();
    assert_eq!(hh.len(), 32);
    assert_ne!(Some(hh), ProdHasher.hash_header(&header("chain-a", 10, 2).signed_header.header));
}

#[test]
fn unhashable_values_have_no_hash() {
    let short_key = ValidatorSet { validators: vec![Validator { pub_key: vec![1; 31], voting_power: 1 }] };
    assert_eq!(ProdHasher.hash_validator_set(&short_key), None);
    let too_much = validator_set(1, 2, u64::MAX / 2);
    assert_eq!(ProdHasher.hash_validator_set(&too_much), None);
    let mut block = header("chain-a", 10, 1).signed_header.header;
    block.proposer_address = vec![9; 3];
    assert_eq!(ProdHasher.hash_header(&block), None);
}

#[test]
fn unhashable_validator_set_is_a_mismatch() {
    let mut h1 = header("chain-a", 10, 1);
    let embedded = h1.signed_header.header.validators_hash.clone();
    h1.validators = ValidatorSet { validators: vec![Validator { pub_key: vec![1; 5], voting_power: 1 }] };
    let r = Misbehaviour::new(client(), h1, header("chain-a", 10, 2));
    assert_eq!(
        r.unwrap_err(),
        Error::ValidatorSetMismatch { header_validators_hash: embedded, validators_hash: None }
    );
}

#[test]
fn raw_round_trip_keeps_evidence() {
    let m = Misbehaviour::new(client(), header("chain-a", 11, 1), header("chain-a", 10, 2)).unwrap();
    let raw = m.into_raw();
    assert_eq!(raw.client_id, "07-tendermint-0");
    let again = Misbehaviour::try_from_raw(raw.clone()).unwrap();
    assert_eq!(again.into_raw(), raw);
}

#[test]
fn envelope_round_trip_keeps_payload() {
    let env = Envelope::for_misbehaviour(vec![1, 2, 3]);
    assert_eq!(env.type_url, TENDERMINT_MISBEHAVIOUR_TYPE_URL);
    assert_eq!(env.misbehaviour_payload().unwrap(), vec![1, 2, 3]);
}

#[test]
fn unknown_envelope_tag_is_refused() {
    let env = Envelope {
        type_url: "/ibc.lightclients.solomachine.v2.Misbehaviour".to_string(),
        value: vec![0xff, 0xff],
    };
    match env.misbehaviour_payload() {
        Err(ClientError::UnknownMisbehaviourType { misbehaviour_type }) => {
            assert_eq!(misbehaviour_type, "/ibc.lightclients.solomachine.v2.Misbehaviour")
        },
        other => panic!("unexpected {:?}", other),
    }
}

#[test]
fn raw_with_bad_client_id_is_rejected() {
    let raw = RawMisbehaviour {
        client_id: "bad id!".to_string(),
        header_1: Some(header("chain-a", 10, 1)),
        header_2: Some(header("chain-a", 10, 2)),
    };
    assert_eq!(
        Misbehaviour::try_from_raw(raw).unwrap_err(),
        Error::InvalidRawClientId { client_id: "bad id!".to_string() }
    );
}

#[test]
fn raw_without_headers_is_rejected() {
    let raw = RawMisbehaviour {
        client_id: "07-tendermint-0".to_string(),
        header_1: None,
        header_2: None,
    };
    assert_eq!(Misbehaviour::try_from_raw(raw).unwrap_err(), Error::MissingHeader1);
    let raw = RawMisbehaviour {
        client_id: "07-tendermint-0".to_string(),
        header_1: Some(header("chain-a", 10, 1)),
        header_2: None,
    };
    assert_eq!(Misbehaviour::try_from_raw(raw).unwrap_err(), Error::MissingHeader2);
}

#[test]
fn raw_evidence_is_validated() {
    let raw = RawMisbehaviour {
        client_id: "07-tendermint-0".to_string(),
        header_1: Some(header("chain-a", 5, 1)),
        header_2: Some(header("chain-a", 10, 2)),
    };
    assert!(matches!(Misbehaviour::try_from_raw(raw).unwrap_err(), Error::HeightOrdering { .. }));
}

#[test]
fn client_id_format() {
    assert!(ClientId::from_string("07-tendermint-0".to_string()).is_some());
    assert!(ClientId::from_string("short".to_string()).is_none());
    assert!(ClientId::from_string("07-tendermint/0".to_string()).is_none());
    assert!(ClientId::from_string("a".repeat(65)).is_none());
    assert!(ClientId::from_string("a".repeat(64)).is_some());
    assert_eq!(
        ClientId::from_string("07-tendermint-0".to_string()).unwrap().into_string(),
        "07-tendermint-0"
    );
}

fn unhex(s: &str) -> Vec<u8> {
    (0..s.len()).step_by(2).map(|i| u8::from_str_radix(&s[i..i + 2], 16).unwrap()).collect()
}

#[test]
fn validator_set_hash_exact_value() {
    let empty = ValidatorSet { validators: Vec::new() };
    assert_eq!(
        ProdHasher.hash_validator_set(&empty).unwrap(),
        unhex("e3b0c44298fc1c149afbf4c8996fb92427ae41e4649b934ca495991b7852b855")
    );
    let one = ValidatorSet { validators: vec![Validator { pub_key: vec![7; 32], voting_power: 10 }] };
    assert_eq!(
        ProdHasher.hash_validator_set(&one).unwrap(),
        unhex("a63beb5823b1dfbe801dd4ee11c077526c74f297d2e2d57f6171cc2578e58fb9")
    );
}

#[test]
fn zero_total_power_is_not_enough() {
    let mut h = header("chain-a", 10, 1);
    h.validators = validator_set(1, 4, 0);
    let v = ProdCommitValidator::new(TrustThreshold::two_thirds());
    assert_eq!(
        v.validate_full(&h.signed_header, &h.validators),
        Verdict::NotEnoughTrust(VotingPowerTally {
            total: 0,
            tallied: 0,
            trust_threshold: TrustThreshold::two_thirds()
        })
    );
}

#[test]
fn headers_tendermint_refuses_have_no_hash() {
    let base = header("chain-a", 10, 1).signed_header.header;
    let mut first = base.clone();
    first.height = Height::new(0, 1);
    assert_eq!(ProdHasher.hash_header(&first), None);
    first.last_block_id = None;
    assert!(ProdHasher.hash_header(&first).is_some());
    let mut bad_chain = base.clone();
    bad_chain.chain_id = ChainId::new("chain/a".to_string());
    assert_eq!(ProdHasher.hash_header(&bad_chain), None);
    let mut bad_time = base.clone();
    bad_time.time = Timestamp { seconds: 0, nanos: 1_000_000_000 };
    assert_eq!(ProdHasher.hash_header(&bad_time), None);
    let mut bad_hash = base;
    bad_hash.data_hash = vec![1; 31];
    assert_eq!(ProdHasher.hash_header(&bad_hash), None);
}

#[test]
fn unhashable_header_is_a_commit_mismatch() {
    let mut h1 = header("chain-a", 10, 1);
    h1.signed_header.header.proposer_address = vec![1; 19];
    let commit_hash = h1.signed_header.commit.block_hash.clone();
    let r = Misbehaviour::new(client(), h1, header("chain-a", 10, 2));
    assert_eq!(r.unwrap_err(), Error::HeaderCommitMismatch { header_hash: None, commit_hash });
}
