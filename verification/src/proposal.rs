//! Proposals, the votes cast on them, and the store that keeps them in the
//! order of their creation.

use crate::account::AccountId;
use crate::text::{distinct_texts, texts};
use vstd::prelude::*;
use vstd::string::StringExecFns;

verus! {

/// The state of a proposal. A proposal starts `Active`; a vote that reaches
/// the quorum makes it `Passed` or `Rejected`, and it stays so.
#[derive(Clone, Copy, Debug, PartialEq, Eq, Structural)]
pub enum ProposalStatus {
    Active,
    Passed,
    Rejected,
}

/// The status that a proposal resolves to: `Passed` where more votes are for
/// it than against it, `Rejected` otherwise, so also on a tie.
pub open spec fn outcome_of(votes_for: nat, votes_against: nat) -> ProposalStatus {
    if votes_for > votes_against {
        ProposalStatus::Passed
    } else {
        ProposalStatus::Rejected
    }
}

impl ProposalStatus {
    /// The name of the status.
    pub open spec fn name_of(self) -> Seq<char> {
        match self {
            ProposalStatus::Active => "Active"@,
            ProposalStatus::Passed => "Passed"@,
            ProposalStatus::Rejected => "Rejected"@,
        }
    }

    /// The name of the status, as it is written for readers outside.
    pub fn name(&self) -> (s: &'static str)
        ensures
            s@ == self.name_of(),
    {
        match self {
            ProposalStatus::Active => "Active",
            ProposalStatus::Passed => "Passed",
            ProposalStatus::Rejected => "Rejected",
        }
    }
}

/// What a [`Proposal`] holds, as mathematical values.
pub struct ProposalModel {
    pub id: nat,
    pub title: Seq<char>,
    pub description: Seq<char>,
    pub proposer: Seq<char>,
    pub votes_for: nat,
    pub votes_against: nat,
    /// The accounts that have voted, in the order of their votes.
    pub voters: Seq<Seq<char>>,
    pub status: ProposalStatus,
}

/// What a [`ProposalView`] holds, as mathematical values: a proposal without
/// its voters.
pub struct ProjectionModel {
    pub id: nat,
    pub title: Seq<char>,
    pub description: Seq<char>,
    pub proposer: Seq<char>,
    pub votes_for: nat,
    pub votes_against: nat,
    pub status: ProposalStatus,
}

impl ProposalModel {
    /// Whether `account` has voted on the proposal.
    pub open spec fn has_voted(self, account: Seq<char>) -> bool {
        self.voters.contains(account)
    }

    /// The number of votes cast.
    pub open spec fn total_votes(self) -> nat {
        self.votes_for + self.votes_against
    }

    /// The invariant of a proposal: nobody voted twice, every voter is counted
    /// once, and a resolved proposal has the status that its counts give.
    pub open spec fn wf(self) -> bool {
        &&& self.voters.no_duplicates()
        &&& self.total_votes() == self.voters.len()
        &&& self.status != ProposalStatus::Active ==> self.status == outcome_of(
            self.votes_for,
            self.votes_against,
        )
    }

    /// The proposal as it is created: active, without votes.
    pub open spec fn created(id: nat, title: Seq<char>, description: Seq<char>, proposer: Seq<char>)
        -> ProposalModel {
        ProposalModel {
            id: id,
            title: title,
            description: description,
            proposer: proposer,
            votes_for: 0,
            votes_against: 0,
            voters: Seq::empty(),
            status: ProposalStatus::Active,
        }
    }

    /// The proposal after `voter` voted, where `quorum` votes resolve it: the
    /// vote is counted, the voter is recorded, and where the votes now number
    /// `quorum` or more the proposal is resolved by its counts.
    pub open spec fn with_vote(self, voter: Seq<char>, in_favor: bool, quorum: nat) -> ProposalModel {
        let votes_for = if in_favor {
            self.votes_for + 1
        } else {
            self.votes_for
        };
        let votes_against = if in_favor {
            self.votes_against
        } else {
            self.votes_against + 1
        };
        ProposalModel {
            votes_for: votes_for,
            votes_against: votes_against,
            voters: self.voters.push(voter),
            status: if votes_for + votes_against >= quorum {
                outcome_of(votes_for, votes_against)
            } else {
                ProposalStatus::Active
            },
            ..self
        }
    }

    /// What of the proposal is shown to readers outside.
    pub open spec fn projection(self) -> ProjectionModel {
        ProjectionModel {
            id: self.id,
            title: self.title,
            description: self.description,
            proposer: self.proposer,
            votes_for: self.votes_for,
            votes_against: self.votes_against,
            status: self.status,
        }
    }
}

/// A proposal and the votes cast on it.
#[derive(Debug, PartialEq)]
pub struct Proposal {
    pub id: u64,
    pub title: String,
    pub description: String,
    pub proposer: AccountId,
    pub votes_for: u64,
    pub votes_against: u64,
    /// The accounts that have voted, in the order of their votes.
    pub voters: Vec<AccountId>,
    pub status: ProposalStatus,
}

/// A proposal as it is shown to readers outside: all but its voters.
#[derive(Debug, PartialEq)]
pub struct ProposalView {
    pub id: u64,
    pub title: String,
    pub description: String,
    pub proposer: AccountId,
    pub votes_for: u64,
    pub votes_against: u64,
    pub status: ProposalStatus,
}

impl View for ProposalView {
    type V = ProjectionModel;

    open spec fn view(&self) -> ProjectionModel {
        ProjectionModel {
            id: self.id as nat,
            title: self.title@,
            description: self.description@,
            proposer: self.proposer@,
            votes_for: self.votes_for as nat,
            votes_against: self.votes_against as nat,
            status: self.status,
        }
    }
}

impl Clone for ProposalView {
    fn clone(&self) -> (r: Self)
        ensures
            r@ == self@,
    {
        ProposalView {
            id: self.id,
            title: self.title.clone(),
            description: self.description.clone(),
            proposer: self.proposer.clone(),
            votes_for: self.votes_for,
            votes_against: self.votes_against,
            status: self.status,
        }
    }
}

impl View for Proposal {
    type V = ProposalModel;

    open spec fn view(&self) -> ProposalModel {
        ProposalModel {
            id: self.id as nat,
            title: self.title@,
            description: self.description@,
            proposer: self.proposer@,
            votes_for: self.votes_for as nat,
            votes_against: self.votes_against as nat,
            voters: self.voters@.map_values(|a: AccountId| a@),
            status: self.status,
        }
    }
}

impl Proposal {
    /// The invariant of a proposal.
    pub open spec fn wf(&self) -> bool {
        self@.wf()
    }

    /// A new proposal: active, without votes.
    pub fn new(id: u64, title: String, description: String, proposer: AccountId) -> (r: Proposal)
        ensures
            r.wf(),
            r@ == ProposalModel::created(id as nat, title@, description@, proposer@),
    {
        let r = Proposal {
            id,
            title,
            description,
            proposer,
            votes_for: 0,
            votes_against: 0,
            voters: Vec::new(),
            status: ProposalStatus::Active,
        };
        assert(r@.voters =~= Seq::<Seq<char>>::empty());
        r
    }

    /// Whether `account` has voted on the proposal.
    pub fn has_voted(&self, account: &AccountId) -> (r: bool)
        ensures
            r == self@.has_voted(account@),
    {
        let mut i: usize = 0;
        while i < self.voters.len()
            invariant
                i <= self.voters.len(),
                forall|k: int| 0 <= k < i ==> self@.voters[k] != account@,
            decreases self.voters.len() - i,
        {
            if self.voters[i] == *account {
                assert(self@.voters[i as int] == account@);
                return true;
            }
            i += 1;
        }
        false
    }

    /// Counts the vote of `voter`, records the voter, and resolves the
    /// proposal where the votes now number `quorum` or more.
    pub fn record_vote(&mut self, voter: AccountId, in_favor: bool, quorum: u64)
        requires
            old(self).wf(),
            old(self)@.status == ProposalStatus::Active,
            !old(self)@.has_voted(voter@),
        ensures
            final(self).wf(),
            final(self)@ == old(self)@.with_vote(voter@, in_favor, quorum as nat),
    {
        self.voters.push(voter);
        let voted = self.voters.len();
        assert(voted == old(self)@.voters.len() + 1);
        if in_favor {
            self.votes_for = self.votes_for + 1;
        } else {
            self.votes_against = self.votes_against + 1;
        }
        let total_votes = self.votes_for + self.votes_against;
        if total_votes >= quorum {
            self.status = if self.votes_for > self.votes_against {
                ProposalStatus::Passed
            } else {
                ProposalStatus::Rejected
            };
        }
        proof {
            assert(self@.voters =~= old(self)@.voters.push(voter@));
        }
    }

    /// Whether the proposal meets its invariant.
    pub fn is_well_formed(&self) -> (r: bool)
        ensures
            r == self.wf(),
    {
        let mut names: Vec<String> = Vec::new();
        let mut i: usize = 0;
        while i < self.voters.len()
            invariant
                i <= self.voters.len(),
                names@.len() == i,
                forall|k: int| 0 <= k < i ==> (#[trigger] names@[k])@ == self.voters@[k]@,
            decreases self.voters.len() - i,
        {
            names.push(String::from_str(self.voters[i].as_str()));
            i += 1;
        }
        assert(texts(names@) =~= self@.voters);
        if !distinct_texts(&names) {
            return false;
        }
        let voted = self.voters.len() as u64;
        if self.votes_for > voted || self.votes_against != voted - self.votes_for {
            return false;
        }
        match self.status {
            ProposalStatus::Active => true,
            ProposalStatus::Passed => self.votes_for > self.votes_against,
            ProposalStatus::Rejected => self.votes_for <= self.votes_against,
        }
    }

    /// The proposal as it is shown to readers outside.
    pub fn to_view(&self) -> (r: ProposalView)
        ensures
            r@ == self@.projection(),
    {
        ProposalView {
            id: self.id,
            title: self.title.clone(),
            description: self.description.clone(),
            proposer: self.proposer.clone(),
            votes_for: self.votes_for,
            votes_against: self.votes_against,
            status: self.status,
        }
    }
}

impl Clone for Proposal {
    fn clone(&self) -> (r: Self)
        ensures
            r@ == self@,
    {
        let mut voters: Vec<AccountId> = Vec::new();
        let mut i: usize = 0;
        while i < self.voters.len()
            invariant
                i <= self.voters.len(),
                voters@.len() == i,
                forall|k: int| 0 <= k < i ==> (#[trigger] voters@[k])@ == self.voters@[k]@,
            decreases self.voters.len() - i,
        {
            voters.push(self.voters[i].clone());
            i += 1;
        }
        let r = Proposal {
            id: self.id,
            title: self.title.clone(),
            description: self.description.clone(),
            proposer: self.proposer.clone(),
            votes_for: self.votes_for,
            votes_against: self.votes_against,
            voters,
            status: self.status,
        };
        assert(r@.voters =~= self@.voters);
        r
    }
}

/// Whether the proposals of a store are well formed and numbered by their
/// place: the proposal at place `i` has the identifier `i`.
pub open spec fn numbered_in_order(proposals: Seq<ProposalModel>) -> bool {
    forall|i: int|
        0 <= i < proposals.len() ==> (#[trigger] proposals[i]).id == i && proposals[i].wf()
}

/// The proposals, in the order of their creation.
pub struct ProposalStore {
    proposals: Vec<Proposal>,
}

impl View for ProposalStore {
    type V = Seq<ProposalModel>;

    closed spec fn view(&self) -> Seq<ProposalModel> {
        self.proposals@.map_values(|p: Proposal| p@)
    }
}

impl ProposalStore {
    /// The invariant of the store.
    pub open spec fn wf(&self) -> bool {
        numbered_in_order(self@)
    }

    /// A store without proposals.
    pub fn new() -> (r: ProposalStore)
        ensures
            r.wf(),
            r@ == Seq::<ProposalModel>::empty(),
    {
        let r = ProposalStore { proposals: Vec::new() };
        assert(r@ =~= Seq::<ProposalModel>::empty());
        r
    }

    /// The number of proposals, which is also the identifier of the next one.
    pub fn len(&self) -> (n: usize)
        ensures
            n == self@.len(),
    {
        self.proposals.len()
    }

    /// Stores a new active proposal and returns its identifier: the number of
    /// proposals created before it.
    pub fn create(&mut self, proposer: AccountId, title: String, description: String) -> (id: u64)
        requires
            old(self).wf(),
        ensures
            final(self).wf(),
            id == old(self)@.len(),
            final(self)@ == old(self)@.push(
                ProposalModel::created(id as nat, title@, description@, proposer@),
            ),
    {
        let id = self.proposals.len() as u64;
        let proposal = Proposal::new(id, title, description, proposer);
        self.proposals.push(proposal);
        assert(self@ =~= old(self)@.push(
            ProposalModel::created(id as nat, title@, description@, proposer@),
        ));
        id
    }

    /// The proposals of the store, in the order of their creation.
    pub fn to_proposals(&self) -> (r: Vec<Proposal>)
        ensures
            r@.map_values(|p: Proposal| p@) == self@,
    {
        let mut r: Vec<Proposal> = Vec::new();
        let mut i: usize = 0;
        while i < self.proposals.len()
            invariant
                i <= self.proposals.len(),
                r@.len() == i,
                forall|k: int| 0 <= k < i ==> (#[trigger] r@[k])@ == self.proposals@[k]@,
            decreases self.proposals.len() - i,
        {
            r.push(self.proposals[i].clone());
            i += 1;
        }
        assert(r@.map_values(|p: Proposal| p@) =~= self@);
        r
    }

    /// The store that holds `proposals`, if each of them is well formed and
    /// has its place in the list as its identifier.
    pub fn from_proposals(proposals: Vec<Proposal>) -> (r: Option<ProposalStore>)
        ensures
            r is Some <==> numbered_in_order(proposals@.map_values(|p: Proposal| p@)),
            r matches Some(store) ==> store.wf() && store@ == proposals@.map_values(
                |p: Proposal| p@,
            ),
    {
        let ghost models = proposals@.map_values(|p: Proposal| p@);
        let mut i: usize = 0;
        while i < proposals.len()
            invariant
                i <= proposals.len(),
                models == proposals@.map_values(|p: Proposal| p@),
                forall|k: int| 0 <= k < i ==> (#[trigger] models[k]).id == k && models[k].wf(),
            decreases proposals.len() - i,
        {
            if proposals[i].id != i as u64 || !proposals[i].is_well_formed() {
                assert(!((#[trigger] models[i as int]).id == i && models[i as int].wf()));
                return None;
            }
            i += 1;
        }
        Some(ProposalStore { proposals })
    }

    /// The status of the proposal `id`, if there is one.
    pub fn status_of(&self, id: u64) -> (r: Option<ProposalStatus>)
        ensures
            r is Some <==> id < self@.len(),
            r matches Some(s) ==> s == self@[id as int].status,
    {
        if id < self.proposals.len() as u64 {
            Some(self.proposals[id as usize].status)
        } else {
            None
        }
    }

    /// Whether `account` has voted on the proposal `id`.
    pub fn has_voted(&self, id: u64, account: &AccountId) -> (r: bool)
        requires
            id < self@.len(),
        ensures
            r == self@[id as int].has_voted(account@),
    {
        let count = self.proposals.len();
        assert(self@.len() == count);
        let at = id as usize;
        assert(self@[id as int] == self.proposals@[at as int]@);
        self.proposals[at].has_voted(account)
    }

    /// Counts the vote of `voter` on the proposal `id`.
    pub fn record_vote(&mut self, id: u64, voter: AccountId, in_favor: bool, quorum: u64)
        requires
            old(self).wf(),
            id < old(self)@.len(),
            old(self)@[id as int].status == ProposalStatus::Active,
            !old(self)@[id as int].has_voted(voter@),
        ensures
            final(self).wf(),
            final(self)@ == old(self)@.update(
                id as int,
                old(self)@[id as int].with_vote(voter@, in_favor, quorum as nat),
            ),
    {
        let count = self.proposals.len();
        assert(self@.len() == count);
        let at = id as usize;
        assert(self@[id as int] == self.proposals@[at as int]@);
        assert(old(self)@[id as int].wf());
        self.proposals[at].record_vote(voter, in_favor, quorum);
        assert(self@ =~= old(self)@.update(
            id as int,
            old(self)@[id as int].with_vote(voter@, in_favor, quorum as nat),
        ));
    }

    /// The proposal `id` as it is shown outside, if there is one.
    pub fn get(&self, id: u64) -> (r: Option<ProposalView>)
        ensures
            r is Some <==> id < self@.len(),
            r matches Some(v) ==> v@ == self@[id as int].projection(),
    {
        if id < self.proposals.len() as u64 {
            Some(self.proposals[id as usize].to_view())
        } else {
            None
        }
    }

    /// All proposals as they are shown outside, in the order of their
    /// creation, which is the order of their identifiers.
    pub fn all(&self) -> (r: Vec<ProposalView>)
        ensures
            r@.len() == self@.len(),
            forall|i: int| 0 <= i < r@.len() ==> (#[trigger] r@[i])@ == self@[i].projection(),
    {
        let mut r: Vec<ProposalView> = Vec::new();
        let mut i: usize = 0;
        while i < self.proposals.len()
            invariant
                i <= self.proposals.len(),
                r@.len() == i,
                forall|k: int| 0 <= k < i ==> (#[trigger] r@[k])@ == self@[k].projection(),
            decreases self.proposals.len() - i,
        {
            r.push(self.proposals[i].to_view());
            i += 1;
        }
        r
    }
}

} // verus!
