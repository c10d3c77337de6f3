use near_sdk::NearToken;
use shld_token::AccountId;
use shld_token::GovernanceError;
use shld_token::ProposalStatus;
use shld_token::SHLDContract;
use shld_token::TokenMetadata;

fn accounts(id: usize) -> AccountId {
    AccountId::parse(["alice", "bob", "charlie", "danny", "eugene", "fargo"][id]).unwrap()
}

fn setup_contract() -> (SHLDContract, AccountId) {
    let account_id = accounts(0);
    let contract = SHLDContract::new(account_id.clone());
    (contract, account_id)
}

/// The metadata of the tests, with the stamps that the first mint of a
/// contract gives, so that what is stored equals what was handed in.
fn member_metadata(account: &AccountId) -> TokenMetadata {
    TokenMetadata {
        title: Some("Test Token".to_string()),
        description: Some("Test Description".to_string()),
        governance_role: "Member".to_string(),
        ticker_title: "SHLD".to_string(),
        avatar_name: None,
        profile_image_url: None,
        near_account_id: account.clone(),
        ethereum_address: None,
        cooperative_id: "coop".to_string(),
        did: None,
        verification_status: "verified".to_string(),
        minting_timestamp: 0,
        nft_number: 1,
        minting_round: 1,
        minting_order_in_round: 1,
        unique_hash: "coop-1".to_string(),
        member_titles: Vec::new(),
    }
}

#[test]
fn test_new() {
    let (contract, _) = setup_contract();
    assert_eq!(contract.get_all_proposals().len(), 0);
}

#[test]
fn test_basics_test_mint_token() {
    let (mut contract, account_id) = setup_contract();
    let metadata = member_metadata(&account_id);

    contract.mint(account_id.clone(), metadata.clone()).unwrap();

    assert!(contract.is_token_owner(account_id.clone()));
    assert_eq!(contract.token_metadata(account_id.clone()), Some(metadata));
    assert_eq!(contract.governance_role(account_id), Some("Member".to_string()));
}

#[test]
fn test_basics_test_mint_token_already_exists() {
    let (mut contract, account_id) = setup_contract();
    let metadata = member_metadata(&account_id);

    contract.mint(account_id.clone(), metadata.clone()).unwrap();
    let second = contract.mint(account_id, metadata);
    assert_eq!(second, Err(GovernanceError::DuplicateTokenError));
}

#[test]
fn test_basics_test_create_proposal() {
    let (mut contract, account_id) = setup_contract();
    let metadata = member_metadata(&account_id);

    contract.mint(account_id.clone(), metadata).unwrap();

    let proposal_id = contract
        .create_proposal(
            account_id.clone(),
            "Test Proposal".to_string(),
            "Test Description".to_string(),
        )
        .unwrap();

    let proposal = contract.get_proposal(proposal_id).unwrap();
    assert_eq!(proposal.title, "Test Proposal");
    assert_eq!(proposal.description, "Test Description");
    assert_eq!(proposal.proposer, account_id);
    assert_eq!(proposal.status, ProposalStatus::Active);
}

#[test]
fn test_basics_test_create_proposal_non_token_holder() {
    let (mut contract, _) = setup_contract();
    let non_holder = accounts(1);

    let refused = contract.create_proposal(
        non_holder,
        "Test Proposal".to_string(),
        "Test Description".to_string(),
    );
    assert_eq!(refused, Err(GovernanceError::NotTokenHolderError));
}

#[test]
fn test_basics_test_vote_on_proposal() {
    let (mut contract, account_id) = setup_contract();
    let metadata = member_metadata(&account_id);
    contract.mint(account_id.clone(), metadata.clone()).unwrap();

    let proposal_id = contract
        .create_proposal(
            account_id.clone(),
            "Test Proposal".to_string(),
            "Test Description".to_string(),
        )
        .unwrap();

    contract.vote(account_id, proposal_id, true).unwrap();

    let proposal = contract.get_proposal(proposal_id).unwrap();
    assert_eq!(NearToken::from_near(proposal.votes_for as u128), NearToken::from_near(1));
    assert_eq!(NearToken::from_near(proposal.votes_against as u128), NearToken::from_near(0));
    // One holder makes a quorum of one, so the first vote resolves the proposal.
    assert_eq!(proposal.status, ProposalStatus::Passed);
}

#[test]
fn test_proposal_passed() {
    let (mut contract, account_id) = setup_contract();
    let metadata = member_metadata(&account_id);
    contract.mint(account_id.clone(), metadata.clone()).unwrap();

    // Mint tokens for two more accounts to have a total of 3 token holders
    contract.mint(accounts(1), metadata.clone()).unwrap();
    contract.mint(accounts(2), metadata).unwrap();

    let proposal_id = contract
        .create_proposal(
            account_id.clone(),
            "Test Proposal".to_string(),
            "Test Description".to_string(),
        )
        .unwrap();

    // Vote with all three accounts: the second vote reaches the quorum of two
    // and resolves the proposal, so the third vote is refused.
    assert_eq!(contract.vote(account_id, proposal_id, true), Ok(()));
    assert_eq!(contract.vote(accounts(1), proposal_id, true), Ok(()));
    assert_eq!(
        contract.vote(accounts(2), proposal_id, false),
        Err(GovernanceError::ProposalNotActiveError)
    );

    let proposal = contract.get_proposal(proposal_id).unwrap();
    assert_eq!(proposal.status, ProposalStatus::Passed);
    assert_eq!(NearToken::from_near(proposal.votes_for as u128), NearToken::from_near(2));
    assert_eq!(NearToken::from_near(proposal.votes_against as u128), NearToken::from_near(0));
}

#[test]
fn test_basics_test_get_all_proposals() {
    let (mut contract, account_id) = setup_contract();
    let metadata = member_metadata(&account_id);
    contract.mint(account_id.clone(), metadata).unwrap();

    let proposal_id1 = contract
        .create_proposal(account_id.clone(), "Proposal 1".to_string(), "Description 1".to_string())
        .unwrap();
    let proposal_id2 = contract
        .create_proposal(account_id, "Proposal 2".to_string(), "Description 2".to_string())
        .unwrap();

    let proposals = contract.get_all_proposals();
    assert_eq!(proposals.len(), 2);
    assert_eq!(proposals[0].id, proposal_id1);
    assert_eq!(proposals[1].id, proposal_id2);
}

#[test]
fn test_basics_test_transfer_not_allowed() {
    let (mut contract, account_id) = setup_contract();
    let refused = contract.transfer(account_id, accounts(1));
    assert_eq!(refused, Err(GovernanceError::NonTransferableError));
}
