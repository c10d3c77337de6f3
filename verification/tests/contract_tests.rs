use near_sdk::serde_json;
use near_sdk::serde_json::Value;
use shld_token::AccountId;
use shld_token::GovernanceError;
use shld_token::ProposalView;
use shld_token::SHLDContract;
use shld_token::TokenMetadata;

fn account(id: usize) -> AccountId {
    AccountId::parse(["alice", "bob", "charlie", "danny", "eugene", "fargo"][id]).unwrap()
}

fn new_contract() -> (SHLDContract, AccountId) {
    let account_id = account(0);
    let contract = SHLDContract::new(account_id.clone());
    (contract, account_id)
}

/// The proposal as the JSON object that is handed to readers outside.
fn to_json_value(view: &ProposalView) -> Value {
    let mut object = serde_json::Map::new();
    object.insert("id".to_string(), Value::from(view.id));
    object.insert("title".to_string(), Value::from(view.title.clone()));
    object.insert("description".to_string(), Value::from(view.description.clone()));
    object.insert("proposer".to_string(), Value::from(view.proposer.as_str()));
    object.insert("votes_for".to_string(), Value::from(view.votes_for));
    object.insert("votes_against".to_string(), Value::from(view.votes_against));
    object.insert("status".to_string(), Value::from(view.status.name()));
    Value::Object(object)
}

fn metadata_for(account: &AccountId) -> TokenMetadata {
    TokenMetadata {
        title: Some("Test Token".to_string()),
        description: Some("Test Description".to_string()),
        governance_role: "Member".to_string(),
        ticker_title: "SHLD".to_string(),
        avatar_name: None,
        profile_image_url: None,
        near_account_id: account.clone(),
        ethereum_address: None,
        cooperative_id: "coop".to_string(),
        did: None,
        verification_status: "verified".to_string(),
        minting_timestamp: 0,
        nft_number: 1,
        minting_round: 1,
        minting_order_in_round: 1,
        unique_hash: "coop-1".to_string(),
        member_titles: Vec::new(),
    }
}

#[test]
fn lib_test_mint_token() {
    let (mut contract, account_id) = new_contract();
    let metadata = metadata_for(&account_id);

    contract.mint(account_id.clone(), metadata.clone()).unwrap();

    assert!(contract.is_token_owner(account_id.clone()));
    assert_eq!(contract.token_metadata(account_id.clone()), Some(metadata));
}

#[test]
fn lib_test_mint_token_already_exists() {
    let (mut contract, account_id) = new_contract();
    let metadata = metadata_for(&account_id);

    contract.mint(account_id.clone(), metadata.clone()).unwrap();
    assert_eq!(contract.mint(account_id, metadata), Err(GovernanceError::DuplicateTokenError));
}

#[test]
fn lib_test_create_proposal() {
    let (mut contract, account_id) = new_contract();
    let metadata = metadata_for(&account_id);

    contract.mint(account_id.clone(), metadata).unwrap();

    let proposal_id = contract
        .create_proposal(
            account_id.clone(),
            "Test Proposal".to_string(),
            "Test Description".to_string(),
        )
        .unwrap();

    let proposal = to_json_value(&contract.get_proposal(proposal_id).unwrap());
    assert_eq!(proposal.get("title").and_then(Value::as_str).unwrap(), "Test Proposal");
    assert_eq!(proposal.get("description").and_then(Value::as_str).unwrap(), "Test Description");
    assert_eq!(proposal.get("proposer").and_then(Value::as_str).unwrap(), account_id.as_str());
    assert_eq!(proposal.get("status").and_then(Value::as_str).unwrap(), "Active");
}

#[test]
fn lib_test_create_proposal_non_token_holder() {
    let (mut contract, _) = new_contract();
    let non_holder = account(1);

    let refused = contract.create_proposal(
        non_holder,
        "Test Proposal".to_string(),
        "Test Description".to_string(),
    );
    assert_eq!(refused, Err(GovernanceError::NotTokenHolderError));
}

#[test]
fn lib_test_vote_on_proposal() {
    let (mut contract, account_id) = new_contract();
    let metadata = metadata_for(&account_id);
    contract.mint(account_id.clone(), metadata.clone()).unwrap();

    let proposal_id = contract
        .create_proposal(
            account_id.clone(),
            "Test Proposal".to_string(),
            "Test Description".to_string(),
        )
        .unwrap();

    contract.vote(account_id, proposal_id, true).unwrap();

    let proposal = to_json_value(&contract.get_proposal(proposal_id).unwrap());
    assert_eq!(proposal.get("votes_for").and_then(Value::as_u64).unwrap(), 1);
    assert_eq!(proposal.get("votes_against").and_then(Value::as_u64).unwrap(), 0);
}

#[test]
fn lib_test_get_all_proposals() {
    let (mut contract, account_id) = new_contract();
    let metadata = metadata_for(&account_id);
    contract.mint(account_id.clone(), metadata).unwrap();

    let proposal_id1 = contract
        .create_proposal(account_id.clone(), "Proposal 1".to_string(), "Description 1".to_string())
        .unwrap();
    let proposal_id2 = contract
        .create_proposal(account_id, "Proposal 2".to_string(), "Description 2".to_string())
        .unwrap();

    let proposals: Vec<Value> = contract.get_all_proposals().iter().map(to_json_value).collect();
    assert_eq!(proposals.len(), 2);
    assert_eq!(proposals[0].get("id").and_then(Value::as_u64).unwrap(), proposal_id1);
    assert_eq!(proposals[1].get("id").and_then(Value::as_u64).unwrap(), proposal_id2);
}

#[test]
fn lib_test_transfer_not_allowed() {
    let (mut contract, account_id) = new_contract();
    assert_eq!(
        contract.transfer(account_id, account(1)),
        Err(GovernanceError::NonTransferableError)
    );
}
