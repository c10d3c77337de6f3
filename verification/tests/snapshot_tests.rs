use shld_token::AccountId;
use shld_token::AccountLink;
use shld_token::ContractSnapshot;
use shld_token::Proposal;
use shld_token::ProposalStatus;
use shld_token::SHLDContract;
use shld_token::Token;
use shld_token::TokenMetadata;

fn id_of(name: &str) -> AccountId {
    AccountId::parse(name).unwrap()
}

fn token_of(name: &str, cohort: &str, number: u64) -> Token {
    let owner = id_of(name);
    Token {
        owner_id: owner.clone(),
        metadata: TokenMetadata {
            title: None,
            description: None,
            governance_role: "Member".to_string(),
            ticker_title: "SHLD".to_string(),
            avatar_name: None,
            profile_image_url: None,
            near_account_id: owner,
            ethereum_address: None,
            cooperative_id: cohort.to_string(),
            did: None,
            verification_status: "verified".to_string(),
            minting_timestamp: 0,
            nft_number: number,
            minting_round: 1,
            minting_order_in_round: number,
            unique_hash: format!("{}-{}", cohort, number),
            member_titles: Vec::new(),
        },
    }
}

fn proposal_of(id: u64, votes_for: u64, votes_against: u64, voters: &[&str]) -> Proposal {
    Proposal {
        id,
        title: "t".to_string(),
        description: "d".to_string(),
        proposer: id_of("alice"),
        votes_for,
        votes_against,
        voters: voters.iter().map(|v| id_of(v)).collect(),
        status: ProposalStatus::Active,
    }
}

/// A consistent snapshot: two holders, a third number given out and revoked.
fn sound() -> ContractSnapshot {
    ContractSnapshot {
        owner: id_of("admin"),
        tokens: vec![token_of("alice", "coop", 1), token_of("bob", "east", 3)],
        links: vec![
            AccountLink { account: id_of("alice"), token_hash: "coop-1".to_string() },
            AccountLink { account: id_of("zed"), token_hash: "loose".to_string() },
        ],
        cohorts: vec!["coop".to_string(), "east".to_string()],
        issued: 3,
        minting_round: 2,
        minting_order: 1,
        proposals: vec![proposal_of(0, 1, 0, &["alice"]), proposal_of(1, 0, 0, &[])],
    }
}

#[test]
fn snapshot_roundtrip() {
    let mut contract = SHLDContract::new(id_of("admin"));
    for name in ["alice", "bob", "charlie"] {
        let t = token_of(name, "coop", 0);
        contract.mint(t.owner_id, t.metadata).unwrap();
    }
    contract.revoke_nft(id_of("admin"), id_of("bob")).unwrap();
    contract.increment_minting_round(id_of("admin")).unwrap();
    contract.link_shld_token(id_of("zed"), "loose".to_string());
    let id = contract.create_proposal(id_of("alice"), "t".to_string(), "d".to_string()).unwrap();
    contract.vote(id_of("alice"), id, true).unwrap();
    contract.create_proposal(id_of("charlie"), "t2".to_string(), "d2".to_string()).unwrap();

    let snapshot = contract.snapshot();
    assert_eq!(snapshot.owner, id_of("admin"));
    assert_eq!(snapshot.tokens.len(), 2);
    assert_eq!(snapshot.tokens[0].owner_id, id_of("alice"));
    assert_eq!(snapshot.tokens[1].owner_id, id_of("charlie"));
    assert_eq!(snapshot.tokens[1].metadata.nft_number, 3);
    assert_eq!(snapshot.issued, 3);
    assert_eq!(snapshot.minting_round, 2);
    assert_eq!(snapshot.minting_order, 0);
    assert_eq!(snapshot.links.len(), 3);
    assert_eq!(snapshot.proposals.len(), 2);
    assert_eq!(snapshot.proposals[0].voters, vec![id_of("alice")]);
    assert_eq!(snapshot.proposals[0].votes_for, 1);
    assert_eq!(snapshot.proposals[0].status, ProposalStatus::Active);

    let mut restored = SHLDContract::restore(snapshot).unwrap();
    assert_eq!(restored.owner(), &id_of("admin"));
    assert_eq!(restored.registry().holder_count(), 2);
    assert_eq!(restored.registry().issued(), 3);
    assert_eq!(restored.token_metadata(id_of("alice")), contract.token_metadata(id_of("alice")));
    assert_eq!(
        restored.token_metadata(id_of("charlie")),
        contract.token_metadata(id_of("charlie"))
    );
    assert_eq!(restored.registry().linked_hash(&id_of("zed")), Some("loose".to_string()));
    assert_eq!(restored.registry().linked_hash(&id_of("bob")), None);
    assert_eq!(restored.get_all_proposals(), contract.get_all_proposals());
    // The restored contract goes on where the other stood.
    assert_eq!(
        restored.vote(id_of("alice"), id, false),
        Err(shld_token::GovernanceError::AlreadyVotedError)
    );
    assert_eq!(restored.vote(id_of("charlie"), id, true), Ok(()));
    assert_eq!(restored.get_proposal(id).unwrap().status, ProposalStatus::Passed);
}

#[test]
fn sound_snapshot_is_restored() {
    let contract = SHLDContract::restore(sound()).unwrap();
    assert_eq!(contract.registry().holder_count(), 2);
    assert!(contract.is_token_owner(id_of("bob")));
    assert!(contract.registry().cohorts().contains(&"east".to_string()));
    assert_eq!(contract.get_proposal(0).unwrap().votes_for, 1);
}

#[test]
fn revoke_takes_the_cohort_off_the_record() {
    let mut contract = SHLDContract::restore(sound()).unwrap();
    contract.revoke_nft(id_of("admin"), id_of("bob")).unwrap();
    assert!(!contract.registry().cohorts().contains(&"east".to_string()));
    assert!(contract.registry().cohorts().contains(&"coop".to_string()));
    let snapshot = contract.snapshot();
    assert_eq!(snapshot.cohorts, vec!["coop".to_string()]);
}

#[test]
fn two_tokens_of_one_account_are_refused() {
    let mut s = sound();
    s.tokens[1].owner_id = id_of("alice");
    assert!(SHLDContract::restore(s).is_none());
}

#[test]
fn numbers_out_of_order_are_refused() {
    let mut s = sound();
    s.tokens = vec![token_of("bob", "east", 3), token_of("alice", "coop", 1)];
    assert!(SHLDContract::restore(s).is_none());
    let mut s = sound();
    s.tokens = vec![token_of("alice", "coop", 2), token_of("bob", "east", 2)];
    assert!(SHLDContract::restore(s).is_none());
}

#[test]
fn numbers_not_given_out_are_refused() {
    let mut s = sound();
    s.issued = 2;
    assert!(SHLDContract::restore(s).is_none());
    let mut s = sound();
    s.tokens = vec![token_of("alice", "coop", 0), token_of("bob", "east", 3)];
    assert!(SHLDContract::restore(s).is_none());
}

#[test]
fn underived_hash_is_refused() {
    let mut s = sound();
    s.tokens[0].metadata.unique_hash = "coop-2".to_string();
    assert!(SHLDContract::restore(s).is_none());
}

#[test]
fn repeated_link_or_cohort_is_refused() {
    let mut s = sound();
    s.links.push(AccountLink { account: id_of("alice"), token_hash: "x".to_string() });
    assert!(SHLDContract::restore(s).is_none());
    let mut s = sound();
    s.cohorts.push("coop".to_string());
    assert!(SHLDContract::restore(s).is_none());
}

#[test]
fn misnumbered_proposal_is_refused() {
    let mut s = sound();
    s.proposals[1].id = 2;
    assert!(SHLDContract::restore(s).is_none());
}

#[test]
fn miscounted_votes_are_refused() {
    let mut s = sound();
    s.proposals[0].votes_against = 1;
    assert!(SHLDContract::restore(s).is_none());
    let mut s = sound();
    s.proposals[0] = proposal_of(0, 1, 1, &["alice", "alice"]);
    assert!(SHLDContract::restore(s).is_none());
    let mut s = sound();
    s.proposals[0] = proposal_of(0, u64::MAX, 2, &["alice"]);
    assert!(SHLDContract::restore(s).is_none());
}

#[test]
fn status_against_the_counts_is_refused() {
    let mut s = sound();
    s.proposals[0].status = ProposalStatus::Rejected;
    assert!(SHLDContract::restore(s).is_none());
    let mut s = sound();
    s.proposals[1].status = ProposalStatus::Passed;
    assert!(SHLDContract::restore(s).is_none());
    let mut s = sound();
    s.proposals[0].status = ProposalStatus::Passed;
    assert!(SHLDContract::restore(s).is_some());
    let mut s = sound();
    s.proposals[1].status = ProposalStatus::Rejected;
    assert!(SHLDContract::restore(s).is_some());
}
