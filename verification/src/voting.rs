//! The voting engine: who may open a proposal, who may vote, and when a vote
//! resolves a proposal.

use crate::account::AccountId;
use crate::error::GovernanceError;
use crate::proposal::{ProposalModel, ProposalStatus, ProposalStore};
use crate::registry::{MembershipRegistry, RegistryModel};
use vstd::prelude::*;

verus! {

/// The quorum among `holders` token holders: the least number of votes that
/// is more than half of them.
pub open spec fn quorum_of(holders: nat) -> nat {
    holders / 2 + 1
}

/// Why a proposal of `caller` is refused, if it is: the caller holds no token.
pub open spec fn proposal_refusal(registry: RegistryModel, caller: Seq<char>) -> Option<
    GovernanceError,
> {
    if !registry.is_holder(caller) {
        Some(GovernanceError::NotTokenHolderError)
    } else {
        None
    }
}

/// Why a vote of `caller` on the proposal `id` is refused, if it is. The
/// reasons are tried in this order: the caller holds no token; there is no
/// such proposal; the proposal is resolved; the caller has voted on it.
pub open spec fn vote_refusal(
    registry: RegistryModel,
    proposals: Seq<ProposalModel>,
    caller: Seq<char>,
    id: u64,
) -> Option<GovernanceError> {
    if !registry.is_holder(caller) {
        Some(GovernanceError::NotTokenHolderError)
    } else if id >= proposals.len() {
        Some(GovernanceError::NotFoundError)
    } else if proposals[id as int].status != ProposalStatus::Active {
        Some(GovernanceError::ProposalNotActiveError)
    } else if proposals[id as int].has_voted(caller) {
        Some(GovernanceError::AlreadyVotedError)
    } else {
        None
    }
}

/// The proposals after an accepted vote of `caller` on the proposal `id`. The
/// quorum is that of the holders at the moment of the vote.
pub open spec fn after_vote(
    registry: RegistryModel,
    proposals: Seq<ProposalModel>,
    caller: Seq<char>,
    id: u64,
    in_favor: bool,
) -> Seq<ProposalModel> {
    proposals.update(
        id as int,
        proposals[id as int].with_vote(caller, in_favor, quorum_of(registry.holder_count())),
    )
}

/// An accepted vote leaves a well-formed proposal well formed.
pub proof fn lemma_vote_keeps_wf(p: ProposalModel, voter: Seq<char>, in_favor: bool, quorum: nat)
    requires
        p.wf(),
        p.status == ProposalStatus::Active,
        !p.has_voted(voter),
    ensures
        p.with_vote(voter, in_favor, quorum).wf(),
{
    let after = p.with_vote(voter, in_favor, quorum);
    assert forall|i: int, j: int|
        0 <= i < after.voters.len() && 0 <= j < after.voters.len() && i != j implies after.voters[i]
        != after.voters[j] by {
        if i < p.voters.len() {
            assert(p.voters.contains(p.voters[i]));
        }
        if j < p.voters.len() {
            assert(p.voters.contains(p.voters[j]));
        }
    }
}

/// The voting engine. It keeps nothing of its own: it reads the registry and
/// writes the store of proposals.
pub struct VotingEngine;

impl VotingEngine {
    /// Computes the quorum among `holders` token holders.
    pub fn quorum(holders: usize) -> (q: u64)
        ensures
            q == quorum_of(holders as nat),
    {
        (holders / 2 + 1) as u64
    }

    /// Opens a proposal of `caller`, who must hold a token, and returns its
    /// identifier.
    pub fn create_proposal(
        registry: &MembershipRegistry,
        store: &mut ProposalStore,
        caller: AccountId,
        title: String,
        description: String,
    ) -> (r: Result<u64, GovernanceError>)
        requires
            old(store).wf(),
        ensures
            final(store).wf(),
            match proposal_refusal(registry@, caller@) {
                Some(e) => r == Err::<u64, GovernanceError>(e) && final(store)@ == old(store)@,
                None => r == Ok::<u64, GovernanceError>(old(store)@.len() as u64) && final(store)@
                    == old(store)@.push(
                    ProposalModel::created(old(store)@.len(), title@, description@, caller@),
                ),
            },
    {
        if !registry.is_holder(&caller) {
            return Err(GovernanceError::NotTokenHolderError);
        }
        let id = store.create(caller, title, description);
        Ok(id)
    }

    /// Casts the vote of `caller` on the proposal `proposal_id`.
    ///
    /// An accepted vote is counted and its voter recorded. Then, where the votes
    /// on the proposal number the quorum of the current holders or more, the
    /// proposal is resolved: it passes where more votes are for it than against
    /// it, and is rejected otherwise.
    pub fn vote(
        registry: &MembershipRegistry,
        store: &mut ProposalStore,
        caller: AccountId,
        proposal_id: u64,
        in_favor: bool,
    ) -> (r: Result<(), GovernanceError>)
        requires
            old(store).wf(),
        ensures
            final(store).wf(),
            match vote_refusal(registry@, old(store)@, caller@, proposal_id) {
                Some(e) => r == Err::<(), GovernanceError>(e) && final(store)@ == old(store)@,
                None => r == Ok::<(), GovernanceError>(()) && final(store)@ == after_vote(
                    registry@,
                    old(store)@,
                    caller@,
                    proposal_id,
                    in_favor,
                ),
            },
    {
        if !registry.is_holder(&caller) {
            return Err(GovernanceError::NotTokenHolderError);
        }
        match store.status_of(proposal_id) {
            None => {
                return Err(GovernanceError::NotFoundError);
            },
            Some(status) => {
                if status != ProposalStatus::Active {
                    return Err(GovernanceError::ProposalNotActiveError);
                }
            },
        }
        if store.has_voted(proposal_id, &caller) {
            return Err(GovernanceError::AlreadyVotedError);
        }
        let threshold = Self::quorum(registry.holder_count());
        store.record_vote(proposal_id, caller, in_favor, threshold);
        Ok(())
    }
}

} // verus!
