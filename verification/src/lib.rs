//! Token-gated governance: a registry of non-transferable membership tokens,
//! one for each account, and proposals that the holders of these tokens vote
//! on. A proposal is resolved by the vote that brings its votes to the quorum
//! of the holders at that moment.

pub mod account;
pub mod contract;
pub mod error;
pub mod laws;
pub mod metadata;
pub mod ownership;
pub mod proposal;
pub mod registry;
pub mod snapshot;
pub mod tables;
pub mod text;
pub mod voting;

pub use crate::account::AccountId;
pub use crate::contract::SHLDContract;
pub use crate::error::GovernanceError;
pub use crate::metadata::{ProfileField, Token, TokenMetadata};
pub use crate::ownership::{OwnershipProof, SHLDOwnershipVerifier};
pub use crate::proposal::{Proposal, ProposalStatus, ProposalStore, ProposalView};
pub use crate::registry::MembershipRegistry;
pub use crate::snapshot::ContractSnapshot;
pub use crate::tables::AccountLink;
pub use crate::voting::VotingEngine;
