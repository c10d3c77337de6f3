//! What holds of the contract whatever is asked of it, proved of the model
//! that the contracts of [`crate::contract::SHLDContract`] are stated over.

use crate::contract::{GovernanceModel, Operation};
use crate::error::GovernanceError;
use crate::metadata::TokenMetadataModel;
use crate::proposal::{numbered_in_order, ProposalModel, ProposalStatus};
use crate::registry::held_at;
use crate::voting::{lemma_vote_keeps_wf, quorum_of};
use vstd::prelude::*;

verus! {

/// The state after the operations `ops`, asked for one after the other.
pub open spec fn run(s: GovernanceModel, ops: Seq<Operation>) -> GovernanceModel
    decreases ops.len(),
{
    if ops.len() == 0 {
        s
    } else {
        run(s, ops.drop_last()).step(ops.last())
    }
}

/// Whether `ops` holds no revocation of the token of `account`.
pub open spec fn no_revoke_of(ops: Seq<Operation>, account: Seq<char>) -> bool {
    forall|k: int|
        0 <= k < ops.len() ==> !(#[trigger] ops[k] matches Operation::Revoke { caller, account: a }
            && a == account)
}

/// Every operation keeps the invariant of the contract.
pub proof fn law_step_keeps_invariant(s: GovernanceModel, op: Operation)
    requires
        s.wf(),
    ensures
        s.step(op).wf(),
{
    if s.refusal(op) is None {
        match op {
            Operation::Mint { account, metadata } => {
                s.registry.lemma_mint_keeps_wf(account, metadata);
            },
            Operation::Revoke { caller, account } => {
                s.registry.lemma_revoke_keeps_wf(account);
            },
            Operation::AdvanceRound { caller } => {},
            Operation::UpdateField { account, field, value } => {
                s.registry.lemma_with_metadata_keeps_wf(
                    account,
                    s.registry.token_of(account).metadata.with_field(field, value),
                );
            },
            Operation::AddTitle { account, title } => {
                s.registry.lemma_with_metadata_keeps_wf(
                    account,
                    s.registry.token_of(account).metadata.with_title(title),
                );
            },
            Operation::Link { account, token_hash } => {},
            Operation::CreateProposal { caller, title, description } => {},
            Operation::Vote { caller, id, in_favor } => {
                lemma_vote_keeps_wf(
                    s.proposals[id as int],
                    caller,
                    in_favor,
                    quorum_of(s.registry.holder_count()),
                );
            },
            Operation::Transfer { from, to } => {},
        }
    }
}

/// The invariant of the contract holds after any sequence of operations.
pub proof fn law_invariant_holds_always(s: GovernanceModel, ops: Seq<Operation>)
    requires
        s.wf(),
    ensures
        run(s, ops).wf(),
    decreases ops.len(),
{
    if ops.len() > 0 {
        law_invariant_holds_always(s, ops.drop_last());
        law_step_keeps_invariant(run(s, ops.drop_last()), ops.last());
    }
}

/// After any sequence of operations on a new contract, no account holds two
/// live tokens.
pub proof fn law_one_token_per_account(owner: Seq<char>, ops: Seq<Operation>)
    ensures
        ({
            let tokens = run(GovernanceModel::initial(owner), ops).registry.tokens;
            forall|i: int, j: int|
                0 <= i < j < tokens.len() ==> (#[trigger] tokens[i]).owner != (
                #[trigger] tokens[j]).owner
        }),
{
    let start = GovernanceModel::initial(owner);
    law_invariant_holds_always(start, ops);
    let tokens = run(start, ops).registry.tokens;
    assert forall|i: int, j: int| 0 <= i < j < tokens.len() implies (#[trigger] tokens[i]).owner != (
    #[trigger] tokens[j]).owner by {
        if tokens[i].owner == tokens[j].owner {
            assert(held_at(tokens, i, tokens[i].owner));
            assert(held_at(tokens, j, tokens[i].owner));
        }
    }
}

/// An account that holds a token holds it after an operation that does not
/// revoke it.
pub proof fn law_step_keeps_holder(s: GovernanceModel, op: Operation, account: Seq<char>)
    requires
        s.wf(),
        s.registry.is_holder(account),
        !(op matches Operation::Revoke { caller, account: a } && a == account),
    ensures
        s.step(op).registry.is_holder(account),
{
    let after = s.step(op);
    let at = s.registry.position(account);
    assert(held_at(s.registry.tokens, at, account));
    if s.refusal(op) is None {
        match op {
            Operation::Mint { account: a, metadata } => {
                assert(held_at(after.registry.tokens, at, account));
            },
            Operation::Revoke { caller, account: a } => {
                let gone = s.registry.position(a);
                assert(held_at(s.registry.tokens, gone, a));
                assert(gone != at);
                assert(held_at(
                    after.registry.tokens,
                    if at < gone {
                        at
                    } else {
                        at - 1
                    },
                    account,
                ));
            },
            Operation::UpdateField { account: a, field, value } => {
                assert(held_at(s.registry.tokens, s.registry.position(a), a));
                assert(held_at(after.registry.tokens, at, account));
            },
            Operation::AddTitle { account: a, title } => {
                assert(held_at(s.registry.tokens, s.registry.position(a), a));
                assert(held_at(after.registry.tokens, at, account));
            },
            _ => {},
        }
    }
}

/// Minting for an account that holds a token is refused as a duplicate and
/// changes nothing, however many operations lie between the two mints, as
/// long as none of them revokes the token.
pub proof fn law_second_mint_is_refused(
    s: GovernanceModel,
    account: Seq<char>,
    first: TokenMetadataModel,
    between: Seq<Operation>,
    second: TokenMetadataModel,
)
    requires
        s.wf(),
        s.refusal((Operation::Mint { account: account, metadata: first })) is None,
        no_revoke_of(between, account),
    ensures
        ({
            let minted = s.step((Operation::Mint { account: account, metadata: first }));
            let later = run(minted, between);
            let again = Operation::Mint { account: account, metadata: second };
            &&& later.refusal(again) == Some(GovernanceError::DuplicateTokenError)
            &&& later.step(again) == later
        }),
{
    let minted = s.step((Operation::Mint { account: account, metadata: first }));
    law_step_keeps_invariant(s, (Operation::Mint { account: account, metadata: first }));
    assert(held_at(minted.registry.tokens, s.registry.tokens.len() as int, account));
    lemma_holder_until_revoked(minted, between, account);
}

/// An account that holds a token holds it after any operations of which none
/// revokes it.
pub proof fn lemma_holder_until_revoked(
    s: GovernanceModel,
    ops: Seq<Operation>,
    account: Seq<char>,
)
    requires
        s.wf(),
        s.registry.is_holder(account),
        no_revoke_of(ops, account),
    ensures
        run(s, ops).registry.is_holder(account),
    decreases ops.len(),
{
    if ops.len() > 0 {
        let earlier = ops.drop_last();
        assert forall|k: int| 0 <= k < earlier.len() implies !(#[trigger] earlier[k] matches Operation::Revoke {
            caller,
            account: a,
        } && a == account) by {
            assert(earlier[k] == ops[k]);
        }
        lemma_holder_until_revoked(s, earlier, account);
        law_invariant_holds_always(s, earlier);
        law_step_keeps_holder(run(s, earlier), ops.last(), account);
    }
}

/// No operation lowers the count of the issuance numbers given out.
pub proof fn law_issued_never_decreases(s: GovernanceModel, ops: Seq<Operation>)
    ensures
        run(s, ops).registry.issued >= s.registry.issued,
    decreases ops.len(),
{
    if ops.len() > 0 {
        law_issued_never_decreases(s, ops.drop_last());
    }
}

/// The number that an accepted mint assigns is one more than the count of
/// the numbers given out, so it is greater than the number of every live
/// token, and it is counted as given out from then on.
pub proof fn law_minted_number_is_fresh(
    s: GovernanceModel,
    account: Seq<char>,
    metadata: TokenMetadataModel,
)
    requires
        s.wf(),
        s.refusal((Operation::Mint { account: account, metadata: metadata })) is None,
    ensures
        ({
            let number = s.registry.minted_token(account, metadata).metadata.nft_number;
            let after = s.step((Operation::Mint { account: account, metadata: metadata }));
            &&& number == s.registry.issued + 1
            &&& after.registry.issued == number
            &&& after.registry.tokens.last() == s.registry.minted_token(account, metadata)
            &&& forall|i: int|
                0 <= i < s.registry.tokens.len() ==> (
                #[trigger] s.registry.tokens[i]).metadata.nft_number < number
        }),
{
}

/// Issuance numbers strictly increase and are never used again: a mint that
/// is accepted after an earlier one, whatever lies between them, be it the
/// revocation of the earlier token, assigns a greater number.
pub proof fn law_numbers_strictly_increase(
    s: GovernanceModel,
    first_account: Seq<char>,
    first: TokenMetadataModel,
    between: Seq<Operation>,
    second_account: Seq<char>,
    second: TokenMetadataModel,
)
    requires
        s.wf(),
        s.refusal((Operation::Mint { account: first_account, metadata: first })) is None,
        run(
            s.step((Operation::Mint { account: first_account, metadata: first })),
            between,
        ).refusal((Operation::Mint { account: second_account, metadata: second })) is None,
    ensures
        ({
            let minted = s.step((Operation::Mint { account: first_account, metadata: first }));
            let later = run(minted, between);
            s.registry.minted_token(first_account, first).metadata.nft_number
                < later.registry.minted_token(second_account, second).metadata.nft_number
        }),
{
    let minted = s.step((Operation::Mint { account: first_account, metadata: first }));
    law_issued_never_decreases(minted, between);
}

/// A second vote of an account on a proposal that its first vote left active
/// is refused as a repeated vote, whichever way either vote goes.
pub proof fn law_second_vote_is_refused(
    s: GovernanceModel,
    caller: Seq<char>,
    id: u64,
    first: bool,
    second: bool,
)
    requires
        s.wf(),
        s.refusal((Operation::Vote { caller: caller, id: id, in_favor: first })) is None,
        s.step((Operation::Vote { caller: caller, id: id, in_favor: first })).proposals[id as int].status
            == ProposalStatus::Active,
    ensures
        ({
            let voted = s.step((Operation::Vote { caller: caller, id: id, in_favor: first }));
            let again = Operation::Vote { caller: caller, id: id, in_favor: second };
            &&& voted.refusal(again) == Some(GovernanceError::AlreadyVotedError)
            &&& voted.step(again) == voted
        }),
{
    let voted = s.step((Operation::Vote { caller: caller, id: id, in_favor: first }));
    let p = voted.proposals[id as int];
    assert(p.voters.last() == caller);
    assert(p.voters.contains(caller));
}

/// A second vote of an account on a proposal that its first vote resolved is
/// refused because the proposal is no longer active.
pub proof fn law_vote_after_resolving_is_refused(
    s: GovernanceModel,
    caller: Seq<char>,
    id: u64,
    first: bool,
    second: bool,
)
    requires
        s.wf(),
        s.refusal((Operation::Vote { caller: caller, id: id, in_favor: first })) is None,
        s.step((Operation::Vote { caller: caller, id: id, in_favor: first })).proposals[id as int].status
            != ProposalStatus::Active,
    ensures
        ({
            let voted = s.step((Operation::Vote { caller: caller, id: id, in_favor: first }));
            let again = Operation::Vote { caller: caller, id: id, in_favor: second };
            &&& voted.refusal(again) == Some(GovernanceError::ProposalNotActiveError)
            &&& voted.step(again) == voted
        }),
{
}

/// With two holders, a vote for a fresh proposal followed by a vote against it
/// resolves the proposal at the second vote, and the tie rejects it.
pub proof fn law_tie_is_rejected(s: GovernanceModel, first: Seq<char>, second: Seq<char>, id: u64)
    requires
        s.wf(),
        s.registry.holder_count() == 2,
        s.registry.is_holder(first),
        s.registry.is_holder(second),
        first != second,
        id < s.proposals.len(),
        s.proposals[id as int].status == ProposalStatus::Active,
        s.proposals[id as int].voters.len() == 0,
    ensures
        ({
            let one = s.step((Operation::Vote { caller: first, id: id, in_favor: true }));
            let two = one.step((Operation::Vote { caller: second, id: id, in_favor: false }));
            &&& s.refusal((Operation::Vote { caller: first, id: id, in_favor: true })) is None
            &&& one.proposals[id as int].status == ProposalStatus::Active
            &&& one.refusal((Operation::Vote { caller: second, id: id, in_favor: false })) is None
            &&& two.proposals[id as int].status == ProposalStatus::Rejected
            &&& two.proposals[id as int].votes_for == 1
            &&& two.proposals[id as int].votes_against == 1
        }),
{
    let one = s.step((Operation::Vote { caller: first, id: id, in_favor: true }));
    assert(one.proposals[id as int].voters =~= seq![first]);
}

/// With three holders, two votes for a fresh proposal pass it at the second
/// vote, and the third holder's vote is refused and changes nothing.
pub proof fn law_majority_passes_early(
    s: GovernanceModel,
    first: Seq<char>,
    second: Seq<char>,
    third: Seq<char>,
    id: u64,
)
    requires
        s.wf(),
        s.registry.holder_count() == 3,
        s.registry.is_holder(first),
        s.registry.is_holder(second),
        s.registry.is_holder(third),
        first != second,
        id < s.proposals.len(),
        s.proposals[id as int].status == ProposalStatus::Active,
        s.proposals[id as int].voters.len() == 0,
    ensures
        ({
            let one = s.step((Operation::Vote { caller: first, id: id, in_favor: true }));
            let two = one.step((Operation::Vote { caller: second, id: id, in_favor: true }));
            let last = Operation::Vote { caller: third, id: id, in_favor: false };
            &&& one.proposals[id as int].status == ProposalStatus::Active
            &&& two.proposals[id as int].status == ProposalStatus::Passed
            &&& two.proposals[id as int].votes_for == 2
            &&& two.proposals[id as int].votes_against == 0
            &&& two.refusal(last) == Some(GovernanceError::ProposalNotActiveError)
            &&& two.step(last) == two
        }),
{
    let one = s.step((Operation::Vote { caller: first, id: id, in_favor: true }));
    assert(one.proposals[id as int].voters =~= seq![first]);
}

/// A vote of a token holder on a resolved proposal is refused because the
/// proposal is no longer active: a proposal is resolved only once.
pub proof fn law_vote_on_resolved_is_refused(
    s: GovernanceModel,
    caller: Seq<char>,
    id: u64,
    in_favor: bool,
)
    requires
        s.registry.is_holder(caller),
        id < s.proposals.len(),
        s.proposals[id as int].status != ProposalStatus::Active,
    ensures
        s.refusal((Operation::Vote { caller: caller, id: id, in_favor: in_favor })) == Some(
            GovernanceError::ProposalNotActiveError,
        ),
{
}

/// No operation changes a resolved proposal: its counts, its voters and its
/// status stay as they are.
pub proof fn law_resolved_is_untouched(s: GovernanceModel, op: Operation, id: int)
    requires
        0 <= id < s.proposals.len(),
        s.proposals[id].status != ProposalStatus::Active,
    ensures
        id < s.step(op).proposals.len(),
        s.step(op).proposals[id] == s.proposals[id],
{
}

/// A resolved proposal stays as it is through any sequence of operations.
pub proof fn law_resolved_is_final(s: GovernanceModel, ops: Seq<Operation>, id: int)
    requires
        0 <= id < s.proposals.len(),
        s.proposals[id].status != ProposalStatus::Active,
    ensures
        id < run(s, ops).proposals.len(),
        run(s, ops).proposals[id] == s.proposals[id],
    decreases ops.len(),
{
    if ops.len() > 0 {
        law_resolved_is_final(s, ops.drop_last(), id);
        law_resolved_is_untouched(run(s, ops.drop_last()), ops.last(), id);
    }
}

/// A transfer is always refused and changes nothing.
pub proof fn law_transfer_is_refused(s: GovernanceModel, from: Seq<char>, to: Seq<char>)
    ensures
        s.refusal((Operation::Transfer { from: from, to: to })) == Some(
            GovernanceError::NonTransferableError,
        ),
        s.step((Operation::Transfer { from: from, to: to })) == s,
{
}

/// No operation removes a proposal or moves it: the proposals stand in the
/// order of their creation.
pub proof fn law_proposals_keep_their_place(s: GovernanceModel, ops: Seq<Operation>, id: int)
    requires
        s.wf(),
        0 <= id < s.proposals.len(),
    ensures
        id < run(s, ops).proposals.len(),
        run(s, ops).proposals[id].id == id,
        run(s, ops).proposals[id].title == s.proposals[id].title,
        run(s, ops).proposals[id].description == s.proposals[id].description,
        run(s, ops).proposals[id].proposer == s.proposals[id].proposer,
    decreases ops.len(),
{
    if ops.len() > 0 {
        law_proposals_keep_their_place(s, ops.drop_last(), id);
    }
}

/// A new proposal stands after all earlier ones, and its identifier is the
/// number of the proposals created before it, so the proposals stand in
/// ascending order of their identifiers.
pub proof fn law_ids_follow_creation(
    s: GovernanceModel,
    caller: Seq<char>,
    title: Seq<char>,
    description: Seq<char>,
)
    requires
        s.wf(),
        s.refusal(
            (Operation::CreateProposal { caller: caller, title: title, description: description }),
        ) is None,
    ensures
        ({
            let after = s.step(
                (Operation::CreateProposal {
                    caller: caller,
                    title: title,
                    description: description,
                }),
            );
            &&& after.proposals.len() == s.proposals.len() + 1
            &&& after.proposals.last() == ProposalModel::created(
                s.proposals.len(),
                title,
                description,
                caller,
            )
            &&& after.proposals.drop_last() == s.proposals
            &&& forall|i: int, j: int|
                0 <= i < j < after.proposals.len() ==> (#[trigger] after.proposals[i]).id < (
                #[trigger] after.proposals[j]).id
        }),
{
    let after = s.step(
        (Operation::CreateProposal { caller: caller, title: title, description: description }),
    );
    assert(after.proposals.drop_last() =~= s.proposals);
    assert(numbered_in_order(after.proposals));
}

/// An accepted revocation takes the account out of the holders, so that one
/// holder fewer counts toward the quorum of every later vote and the account
/// can vote no more, and it leaves every proposal as it is.
pub proof fn law_revoke_spares_proposals(s: GovernanceModel, caller: Seq<char>, account: Seq<char>)
    requires
        s.wf(),
        s.refusal((Operation::Revoke { caller: caller, account: account })) is None,
    ensures
        ({
            let after = s.step((Operation::Revoke { caller: caller, account: account }));
            &&& after.proposals == s.proposals
            &&& after.registry.holder_count() == s.registry.holder_count() - 1
            &&& !after.registry.is_holder(account)
            &&& forall|id: u64, in_favor: bool|
                #[trigger] after.refusal(
                    (Operation::Vote { caller: account, id: id, in_favor: in_favor }),
                ) == Some(GovernanceError::NotTokenHolderError)
        }),
{
    let after = s.step((Operation::Revoke { caller: caller, account: account }));
    let at = s.registry.position(account);
    assert(held_at(s.registry.tokens, at, account));
    assert forall|i: int| !held_at(after.registry.tokens, i, account) by {
        if held_at(after.registry.tokens, i, account) {
            assert(held_at(s.registry.tokens, if i < at { i } else { i + 1 }, account));
        }
    }
}

} // verus!
