//! The contract: the one entry point to the registry and the proposals.
//!
//! Every operation that changes the state is described twice: as a value of
//! [`Operation`], for which [`GovernanceModel::refusal`] and
//! [`GovernanceModel::step`] say whether it is refused and what it leaves
//! behind, and as a method of [`SHLDContract`] whose contract is stated over
//! these two.

use crate::account::AccountId;
use crate::error::GovernanceError;
use crate::metadata::{ProfileField, Token, TokenMetadata, TokenMetadataModel};
use crate::proposal::{numbered_in_order, ProposalModel, ProposalStore, ProposalView};
use crate::registry::{MembershipRegistry, RegistryModel};
use crate::voting::{after_vote, proposal_refusal, vote_refusal, VotingEngine};
use vstd::prelude::*;

verus! {

/// The state of the contract, as mathematical values.
pub struct GovernanceModel {
    /// The administrator.
    pub owner: Seq<char>,
    pub registry: RegistryModel,
    /// The proposals, in the order of their creation.
    pub proposals: Seq<ProposalModel>,
}

/// An operation that may change the state of the contract, with its inputs.
/// `caller` is the account that asks for the operation.
pub enum Operation {
    Mint { account: Seq<char>, metadata: TokenMetadataModel },
    Revoke { caller: Seq<char>, account: Seq<char> },
    AdvanceRound { caller: Seq<char> },
    UpdateField { account: Seq<char>, field: ProfileField, value: Seq<char> },
    AddTitle { account: Seq<char>, title: Seq<char> },
    Link { account: Seq<char>, token_hash: Seq<char> },
    CreateProposal { caller: Seq<char>, title: Seq<char>, description: Seq<char> },
    Vote { caller: Seq<char>, id: u64, in_favor: bool },
    Transfer { from: Seq<char>, to: Seq<char> },
}

impl GovernanceModel {
    /// The invariant of the contract.
    pub open spec fn wf(self) -> bool {
        self.registry.wf() && numbered_in_order(self.proposals)
    }

    /// The contract as it is made: no tokens, no proposals.
    pub open spec fn initial(owner: Seq<char>) -> GovernanceModel {
        GovernanceModel { owner: owner, registry: RegistryModel::empty(), proposals: Seq::empty() }
    }

    /// Why `op` is refused in this state, if it is.
    pub open spec fn refusal(self, op: Operation) -> Option<GovernanceError> {
        match op {
            Operation::Mint { account, metadata } => if self.registry.is_holder(account) {
                Some(GovernanceError::DuplicateTokenError)
            } else {
                None
            },
            Operation::Revoke { caller, account } => if caller != self.owner {
                Some(GovernanceError::UnauthorizedError)
            } else if !self.registry.is_holder(account) {
                Some(GovernanceError::NotFoundError)
            } else {
                None
            },
            Operation::AdvanceRound { caller } => if caller != self.owner {
                Some(GovernanceError::UnauthorizedError)
            } else {
                None
            },
            Operation::UpdateField { account, field, value } => if !self.registry.is_holder(
                account,
            ) {
                Some(GovernanceError::NotFoundError)
            } else {
                None
            },
            Operation::AddTitle { account, title } => if !self.registry.is_holder(account) {
                Some(GovernanceError::NotFoundError)
            } else {
                None
            },
            Operation::Link { account, token_hash } => None,
            Operation::CreateProposal { caller, title, description } => proposal_refusal(
                self.registry,
                caller,
            ),
            Operation::Vote { caller, id, in_favor } => vote_refusal(
                self.registry,
                self.proposals,
                caller,
                id,
            ),
            Operation::Transfer { from, to } => Some(GovernanceError::NonTransferableError),
        }
    }

    /// The state that `op` leaves behind where it is accepted.
    pub open spec fn accepted(self, op: Operation) -> GovernanceModel {
        match op {
            Operation::Mint { account, metadata } => GovernanceModel {
                registry: self.registry.mint(account, metadata),
                ..self
            },
            Operation::Revoke { caller, account } => GovernanceModel {
                registry: self.registry.revoke(account),
                ..self
            },
            Operation::AdvanceRound { caller } => GovernanceModel {
                registry: self.registry.advance_round(),
                ..self
            },
            Operation::UpdateField { account, field, value } => GovernanceModel {
                registry: self.registry.update_field(account, field, value),
                ..self
            },
            Operation::AddTitle { account, title } => GovernanceModel {
                registry: self.registry.add_title(account, title),
                ..self
            },
            Operation::Link { account, token_hash } => GovernanceModel {
                registry: self.registry.link(account, token_hash),
                ..self
            },
            Operation::CreateProposal { caller, title, description } => GovernanceModel {
                proposals: self.proposals.push(
                    ProposalModel::created(self.proposals.len(), title, description, caller),
                ),
                ..self
            },
            Operation::Vote { caller, id, in_favor } => GovernanceModel {
                proposals: after_vote(self.registry, self.proposals, caller, id, in_favor),
                ..self
            },
            Operation::Transfer { from, to } => self,
        }
    }

    /// The state after `op`: a refused operation changes nothing.
    pub open spec fn step(self, op: Operation) -> GovernanceModel {
        if self.refusal(op) is Some {
            self
        } else {
            self.accepted(op)
        }
    }

    /// Whether the machine's integers can count what `op` counts: an accepted
    /// mint needs room for one more number, and an accepted advance of the
    /// round for one more round.
    pub open spec fn within_limits(self, op: Operation) -> bool {
        match op {
            Operation::Mint { account, metadata } => self.refusal(op) is Some
                || self.registry.has_room(),
            Operation::AdvanceRound { caller } => self.refusal(op) is Some
                || self.registry.minting_round < u64::MAX,
            _ => true,
        }
    }
}

/// The contract: a registry of membership tokens, the proposals that their
/// holders vote on, and the administrator.
pub struct SHLDContract {
    registry: MembershipRegistry,
    proposals: ProposalStore,
    contract_owner: AccountId,
}

impl View for SHLDContract {
    type V = GovernanceModel;

    closed spec fn view(&self) -> GovernanceModel {
        GovernanceModel {
            owner: self.contract_owner@,
            registry: self.registry@,
            proposals: self.proposals@,
        }
    }
}

impl SHLDContract {
    /// The invariant of the registry's lookup tables.
    pub closed spec fn tables_wf(&self) -> bool {
        self.registry.tables_wf()
    }

    /// The invariant of the contract: `new` establishes it and every
    /// operation keeps it.
    pub open spec fn wf(&self) -> bool {
        self@.wf() && self.tables_wf()
    }

    /// A contract without tokens and proposals, administered by `owner_id`.
    pub fn new(owner_id: AccountId) -> (r: SHLDContract)
        ensures
            r.wf(),
            r@ == GovernanceModel::initial(owner_id@),
    {
        SHLDContract {
            registry: MembershipRegistry::new(),
            proposals: ProposalStore::new(),
            contract_owner: owner_id,
        }
    }

    /// The contract made of a registry and a store of proposals, administered
    /// by `owner_id`.
    pub fn assemble(owner_id: AccountId, registry: MembershipRegistry, proposals: ProposalStore) -> (r:
        SHLDContract)
        requires
            registry.wf(),
            proposals.wf(),
        ensures
            r.wf(),
            r@ == (GovernanceModel {
                owner: owner_id@,
                registry: registry@,
                proposals: proposals@,
            }),
    {
        SHLDContract { registry, proposals, contract_owner: owner_id }
    }

    /// The administrator.
    pub fn owner(&self) -> (r: &AccountId)
        ensures
            r@ == self@.owner,
    {
        &self.contract_owner
    }

    /// The registry of membership tokens.
    pub fn registry(&self) -> (r: &MembershipRegistry)
        ensures
            r@ == self@.registry,
            self.wf() ==> r.wf(),
    {
        &self.registry
    }

    /// The store of proposals.
    pub fn proposals(&self) -> (r: &ProposalStore)
        ensures
            r@ == self@.proposals,
            self.wf() ==> r.wf(),
    {
        &self.proposals
    }

    /// Starts the next minting round. Only the administrator may.
    pub fn increment_minting_round(&mut self, caller: AccountId) -> (r: Result<
        (),
        GovernanceError,
    >)
        requires
            old(self).wf(),
            old(self)@.within_limits((Operation::AdvanceRound { caller: caller@ })),
        ensures
            final(self).wf(),
            final(self)@ == old(self)@.step((Operation::AdvanceRound { caller: caller@ })),
            match old(self)@.refusal((Operation::AdvanceRound { caller: caller@ })) {
                Some(e) => r == Err::<(), GovernanceError>(e),
                None => r == Ok::<(), GovernanceError>(()),
            },
    {
        if caller != self.contract_owner {
            return Err(GovernanceError::UnauthorizedError);
        }
        self.registry.advance_minting_round();
        Ok(())
    }

    /// Mints a token for `account_id` and returns it, unless the account
    /// holds one already.
    pub fn mint(&mut self, account_id: AccountId, metadata: TokenMetadata) -> (r: Result<
        Token,
        GovernanceError,
    >)
        requires
            old(self).wf(),
            old(self)@.within_limits(
                (Operation::Mint { account: account_id@, metadata: metadata@ }),
            ),
        ensures
            final(self).wf(),
            final(self)@ == old(self)@.step(
                (Operation::Mint { account: account_id@, metadata: metadata@ }),
            ),
            match old(self)@.refusal(
                (Operation::Mint { account: account_id@, metadata: metadata@ }),
            ) {
                Some(e) => r == Err::<Token, GovernanceError>(e),
                None => r is Ok && r->Ok_0@ == old(self)@.registry.minted_token(
                    account_id@,
                    metadata@,
                ),
            },
    {
        self.registry.mint(account_id, metadata)
    }

    /// Links `token_hash` to `account_id`, in place of any hash linked before.
    pub fn link_shld_token(&mut self, account_id: AccountId, token_hash: String)
        requires
            old(self).wf(),
        ensures
            final(self).wf(),
            final(self)@ == old(self)@.step(
                (Operation::Link { account: account_id@, token_hash: token_hash@ }),
            ),
    {
        self.registry.link(account_id, token_hash);
    }

    /// Rewrites one profile field of the token of `account_id`.
    pub fn update_profile_field(
        &mut self,
        account_id: AccountId,
        field: ProfileField,
        value: String,
    ) -> (r: Result<(), GovernanceError>)
        requires
            old(self).wf(),
        ensures
            final(self).wf(),
            final(self)@ == old(self)@.step(
                (Operation::UpdateField { account: account_id@, field: field, value: value@ }),
            ),
            match old(self)@.refusal(
                (Operation::UpdateField { account: account_id@, field: field, value: value@ }),
            ) {
                Some(e) => r == Err::<(), GovernanceError>(e),
                None => r == Ok::<(), GovernanceError>(()),
            },
    {
        self.registry.update_field(&account_id, field, value)
    }

    /// Rewrites the avatar name of the token of `account_id`.
    pub fn update_avatar_name(&mut self, account_id: AccountId, new_avatar_name: String) -> (r:
        Result<(), GovernanceError>)
        requires
            old(self).wf(),
        ensures
            final(self).wf(),
            final(self)@ == old(self)@.step(
                (Operation::UpdateField {
                    account: account_id@,
                    field: ProfileField::AvatarName,
                    value: new_avatar_name@,
                }),
            ),
            match old(self)@.refusal(
                (Operation::UpdateField {
                    account: account_id@,
                    field: ProfileField::AvatarName,
                    value: new_avatar_name@,
                }),
            ) {
                Some(e) => r == Err::<(), GovernanceError>(e),
                None => r == Ok::<(), GovernanceError>(()),
            },
    {
        self.registry.update_field(&account_id, ProfileField::AvatarName, new_avatar_name)
    }

    /// Awards a title to the token of `account_id`.
    pub fn add_title(&mut self, account_id: AccountId, title: String) -> (r: Result<
        (),
        GovernanceError,
    >)
        requires
            old(self).wf(),
        ensures
            final(self).wf(),
            final(self)@ == old(self)@.step(
                (Operation::AddTitle { account: account_id@, title: title@ }),
            ),
            match old(self)@.refusal(
                (Operation::AddTitle { account: account_id@, title: title@ }),
            ) {
                Some(e) => r == Err::<(), GovernanceError>(e),
                None => r == Ok::<(), GovernanceError>(()),
            },
    {
        self.registry.add_title(&account_id, title)
    }

    /// Revokes the token of `account_id` and returns it. Only the
    /// administrator may. Proposals keep the votes that were counted.
    pub fn revoke_nft(&mut self, caller: AccountId, account_id: AccountId) -> (r: Result<
        Token,
        GovernanceError,
    >)
        requires
            old(self).wf(),
        ensures
            final(self).wf(),
            final(self)@ == old(self)@.step(
                (Operation::Revoke { caller: caller@, account: account_id@ }),
            ),
            match old(self)@.refusal(
                (Operation::Revoke { caller: caller@, account: account_id@ }),
            ) {
                Some(e) => r == Err::<Token, GovernanceError>(e),
                None => r is Ok && r->Ok_0@ == old(self)@.registry.token_of(account_id@),
            },
    {
        if caller != self.contract_owner {
            return Err(GovernanceError::UnauthorizedError);
        }
        self.registry.revoke(&account_id)
    }

    /// The metadata of the token of `account_id`, if it holds one.
    pub fn token_metadata(&self, account_id: AccountId) -> (r: Option<TokenMetadata>)
        requires
            self.wf(),
        ensures
            r is Some <==> self@.registry.is_holder(account_id@),
            r matches Some(m) ==> m@ == self@.registry.token_of(account_id@).metadata,
    {
        self.registry.metadata_of(&account_id)
    }

    /// Whether `account_id` holds a token.
    pub fn is_token_owner(&self, account_id: AccountId) -> (r: bool)
        ensures
            r == self@.registry.is_holder(account_id@),
    {
        self.registry.is_holder(&account_id)
    }

    /// The governance role of `account_id`, if it holds a token.
    pub fn governance_role(&self, account_id: AccountId) -> (r: Option<String>)
        requires
            self.wf(),
        ensures
            r is Some <==> self@.registry.is_holder(account_id@),
            r matches Some(role) ==> role@ == self@.registry.token_of(
                account_id@,
            ).metadata.governance_role,
    {
        self.registry.role_of(&account_id)
    }

    /// Opens a proposal of `caller`, who must hold a token, and returns its
    /// identifier: the number of proposals opened before it.
    pub fn create_proposal(&mut self, caller: AccountId, title: String, description: String) -> (r:
        Result<u64, GovernanceError>)
        requires
            old(self).wf(),
        ensures
            final(self).wf(),
            final(self)@ == old(self)@.step(
                (Operation::CreateProposal {
                    caller: caller@,
                    title: title@,
                    description: description@,
                }),
            ),
            match old(self)@.refusal(
                (Operation::CreateProposal {
                    caller: caller@,
                    title: title@,
                    description: description@,
                }),
            ) {
                Some(e) => r == Err::<u64, GovernanceError>(e),
                None => r == Ok::<u64, GovernanceError>(old(self)@.proposals.len() as u64),
            },
    {
        VotingEngine::create_proposal(&self.registry, &mut self.proposals, caller, title, description)
    }

    /// Casts the vote of `caller` on the proposal `proposal_id`: `vote` is
    /// `true` for the proposal and `false` against it.
    pub fn vote(&mut self, caller: AccountId, proposal_id: u64, vote: bool) -> (r: Result<
        (),
        GovernanceError,
    >)
        requires
            old(self).wf(),
        ensures
            final(self).wf(),
            final(self)@ == old(self)@.step(
                (Operation::Vote { caller: caller@, id: proposal_id, in_favor: vote }),
            ),
            match old(self)@.refusal(
                (Operation::Vote { caller: caller@, id: proposal_id, in_favor: vote }),
            ) {
                Some(e) => r == Err::<(), GovernanceError>(e),
                None => r == Ok::<(), GovernanceError>(()),
            },
    {
        VotingEngine::vote(&self.registry, &mut self.proposals, caller, proposal_id, vote)
    }

    /// The proposal `proposal_id` as it is shown outside, if there is one.
    pub fn get_proposal(&self, proposal_id: u64) -> (r: Option<ProposalView>)
        ensures
            r is Some <==> proposal_id < self@.proposals.len(),
            r matches Some(v) ==> v@ == self@.proposals[proposal_id as int].projection(),
    {
        self.proposals.get(proposal_id)
    }

    /// All proposals as they are shown outside, in the order of their
    /// creation: the proposal at place `i` has the identifier `i`.
    pub fn get_all_proposals(&self) -> (r: Vec<ProposalView>)
        requires
            self.wf(),
        ensures
            r@.len() == self@.proposals.len(),
            forall|i: int|
                0 <= i < r@.len() ==> (#[trigger] r@[i])@ == self@.proposals[i].projection()
                    && r@[i].id == i,
    {
        self.proposals.all()
    }

    /// Refuses to move a token from one account to another: membership tokens
    /// cannot change hands.
    pub fn transfer(&mut self, from: AccountId, to: AccountId) -> (r: Result<(), GovernanceError>)
        ensures
            *final(self) == *old(self),
            final(self)@ == old(self)@.step((Operation::Transfer { from: from@, to: to@ })),
            r == Err::<(), GovernanceError>(GovernanceError::NonTransferableError),
    {
        Err(GovernanceError::NonTransferableError)
    }
}

} // verus!
