//! The state of a contract as plain lists, to be written to a store and read
//! back. What is read back is held to the invariant of the contract before it
//! is used.

use crate::account::AccountId;
use crate::contract::{GovernanceModel, SHLDContract};
use crate::metadata::Token;
use crate::proposal::{Proposal, ProposalStore};
use crate::registry::{parts_model, MembershipRegistry};
use crate::tables::{
    cohorts_of, distinct_accounts, distinct_names, links_of, AccountLink, CohortSet, LinkTable,
};
use vstd::prelude::*;

verus! {

/// The state of a contract as plain lists.
pub struct ContractSnapshot {
    /// The administrator.
    pub owner: AccountId,
    /// The live tokens, in the order in which they were issued.
    pub tokens: Vec<Token>,
    /// The token hash linked to each account.
    pub links: Vec<AccountLink>,
    /// The cohorts on record.
    pub cohorts: Vec<String>,
    /// How many issuance numbers have been given out.
    pub issued: u64,
    /// The current minting round.
    pub minting_round: u64,
    /// How many tokens were issued in the current round.
    pub minting_order: u64,
    /// The proposals, in the order of their creation.
    pub proposals: Vec<Proposal>,
}

impl ContractSnapshot {
    /// The state that the snapshot stands for.
    pub open spec fn model(&self) -> GovernanceModel {
        GovernanceModel {
            owner: self.owner@,
            registry: parts_model(
                self.tokens@,
                links_of(self.links@),
                cohorts_of(self.cohorts@),
                self.issued,
                self.minting_round,
                self.minting_order,
            ),
            proposals: self.proposals@.map_values(|p: Proposal| p@),
        }
    }

    /// Whether the snapshot stands for a state of a contract: no account has
    /// two links, no cohort is listed twice, and the state meets the invariant
    /// of the contract.
    pub open spec fn consistent(&self) -> bool {
        &&& distinct_accounts(self.links@)
        &&& distinct_names(self.cohorts@)
        &&& self.model().wf()
    }
}

impl SHLDContract {
    /// The state of the contract as plain lists.
    pub fn snapshot(&self) -> (r: ContractSnapshot)
        requires
            self.wf(),
        ensures
            r.consistent(),
            r.model() == self@,
    {
        let registry = self.registry();
        let r = ContractSnapshot {
            owner: self.owner().clone(),
            tokens: registry.to_tokens(),
            links: registry.links().to_entries(),
            cohorts: registry.cohorts().to_names(),
            issued: registry.issued(),
            minting_round: registry.minting_round(),
            minting_order: registry.minting_order(),
            proposals: self.proposals().to_proposals(),
        };
        assert(r.model().registry == self@.registry);
        r
    }

    /// The contract whose state `snapshot` stands for, if it stands for one.
    pub fn restore(snapshot: ContractSnapshot) -> (r: Option<SHLDContract>)
        ensures
            r is Some <==> snapshot.consistent(),
            r matches Some(contract) ==> contract.wf() && contract@ == snapshot.model(),
    {
        let ContractSnapshot {
            owner,
            tokens,
            links,
            cohorts,
            issued,
            minting_round,
            minting_order,
            proposals,
        } = snapshot;
        let links = match LinkTable::from_entries(links) {
            Some(table) => table,
            None => {
                return None;
            },
        };
        let cohorts = match CohortSet::from_names(cohorts) {
            Some(set) => set,
            None => {
                return None;
            },
        };
        let registry = match MembershipRegistry::from_parts(
            tokens,
            links,
            cohorts,
            issued,
            minting_round,
            minting_order,
        ) {
            Some(registry) => registry,
            None => {
                return None;
            },
        };
        let proposals = match ProposalStore::from_proposals(proposals) {
            Some(store) => store,
            None => {
                return None;
            },
        };
        Some(SHLDContract::assemble(owner, registry, proposals))
    }
}

} // verus!
