//! The ways in which an operation can be refused.

use vstd::prelude::*;

verus! {

/// Why an operation was refused. A refused operation changes nothing.
#[derive(Clone, Copy, Debug, PartialEq, Eq, Structural)]
pub enum GovernanceError {
    /// A token was to be minted for an account that already holds one.
    DuplicateTokenError,
    /// The account holds no token or link, or no proposal has the given id.
    NotFoundError,
    /// The caller must hold a membership token and does not.
    NotTokenHolderError,
    /// The proposal has already been resolved.
    ProposalNotActiveError,
    /// The caller has already voted on the proposal.
    AlreadyVotedError,
    /// The operation is reserved to the administrator.
    UnauthorizedError,
    /// Membership tokens cannot change hands.
    NonTransferableError,
}

} // verus!
