//! Ownership attestations: a statement that an account owns the token hash
//! linked to it, signed outside this library.
//!
//! The library words the statement and assembles the proof. Hashing and
//! signing the statement are the part of whoever holds the key.

use crate::account::AccountId;
use crate::contract::SHLDContract;
use crate::error::GovernanceError;
use vstd::prelude::*;
use vstd::string::StringExecFns;
use vstd::utf8::encode_utf8;

verus! {

/// A signed statement that `near_account_id` owns the token `token_hash`.
#[derive(Debug, PartialEq)]
pub struct OwnershipProof {
    pub near_account_id: AccountId,
    pub token_hash: String,
    pub signature: Vec<u8>,
}

/// The statement that is signed: the account, the words ` owns SHLD token `,
/// and the token hash.
pub open spec fn ownership_statement(account: Seq<char>, token_hash: Seq<char>) -> Seq<char> {
    account + " owns SHLD token "@ + token_hash
}

/// The line that records an accepted attestation.
pub open spec fn verified_record(account: Seq<char>, token_hash: Seq<char>) -> Seq<char> {
    "SHLDOwnershipVerified: { account_id: "@ + account + ", token_hash: "@ + token_hash + " }"@
}

/// The SHA-256 digest of a sequence of bytes: what `near_sdk::env::sha256`
/// returns for it.
pub uninterp spec fn sha256_of(bytes: Seq<u8>) -> Seq<u8>;

/// Trusted: `near_sdk::env::sha256`.
///
/// The contract claims only that the digest is a function of the bytes that
/// are hashed, and gives that function its name.
#[verifier::external_body]
fn sha256(bytes: &[u8]) -> (digest: Vec<u8>)
    ensures
        digest@ == sha256_of(bytes@),
{
    near_sdk::env::sha256(bytes)
}

/// The digest that is signed: the SHA-256 digest of the statement in UTF-8.
pub open spec fn ownership_digest_of(account: Seq<char>, token_hash: Seq<char>) -> Seq<u8> {
    sha256_of(encode_utf8(ownership_statement(account, token_hash)))
}

/// Words the statement that `account` owns `token_hash`.
pub fn ownership_message(account: &AccountId, token_hash: &String) -> (message: String)
    ensures
        message@ == ownership_statement(account@, token_hash@),
{
    let mut message = String::from_str(account.as_str());
    message.append(" owns SHLD token ");
    message.append(token_hash.as_str());
    message
}

impl SHLDContract {
    /// The statement to be signed for `account_id`: that it owns the token
    /// hash linked to it. Refused where no hash is linked to the account.
    pub fn ownership_challenge(&self, account_id: &AccountId) -> (r: Result<String, GovernanceError>)
        requires
            self.wf(),
        ensures
            !self@.registry.links.contains_key(account_id@) ==> r == Err::<String, GovernanceError>(
                GovernanceError::NotFoundError,
            ),
            self@.registry.links.contains_key(account_id@) ==> r is Ok && r->Ok_0@
                == ownership_statement(account_id@, self@.registry.links[account_id@]),
    {
        match self.registry().linked_hash(account_id) {
            None => Err(GovernanceError::NotFoundError),
            Some(token_hash) => Ok(ownership_message(account_id, &token_hash)),
        }
    }

    /// The digest to be signed for `account_id`: the SHA-256 digest of the
    /// statement that it owns the token hash linked to it. Refused where no
    /// hash is linked to the account.
    pub fn ownership_digest(&self, account_id: &AccountId) -> (r: Result<Vec<u8>, GovernanceError>)
        requires
            self.wf(),
        ensures
            !self@.registry.links.contains_key(account_id@) ==> r == Err::<Vec<u8>, GovernanceError>(
                GovernanceError::NotFoundError,
            ),
            self@.registry.links.contains_key(account_id@) ==> r is Ok && r->Ok_0@
                == ownership_digest_of(account_id@, self@.registry.links[account_id@]),
    {
        match self.ownership_challenge(account_id) {
            Err(e) => Err(e),
            Ok(message) => Ok(sha256(message.as_str().as_bytes())),
        }
    }

    /// Assembles the proof that `account_id` owns the token hash linked to
    /// it, from the signature made over [`SHLDContract::ownership_digest`].
    /// Refused where no hash is linked to the account.
    pub fn generate_ownership_proof(&self, account_id: AccountId, signature: Vec<u8>) -> (r: Result<
        OwnershipProof,
        GovernanceError,
    >)
        requires
            self.wf(),
        ensures
            !self@.registry.links.contains_key(account_id@) ==> r == Err::<
                OwnershipProof,
                GovernanceError,
            >(GovernanceError::NotFoundError),
            self@.registry.links.contains_key(account_id@) ==> r is Ok && r->Ok_0.near_account_id@
                == account_id@ && r->Ok_0.token_hash@ == self@.registry.links[account_id@]
                && r->Ok_0.signature@ == signature@,
    {
        match self.registry().linked_hash(&account_id) {
            None => Err(GovernanceError::NotFoundError),
            Some(token_hash) => Ok(
                OwnershipProof { near_account_id: account_id, token_hash, signature },
            ),
        }
    }
}

/// The verifier of ownership attestations, with the account whose signatures
/// it goes by.
pub struct SHLDOwnershipVerifier {
    authorized_signer: AccountId,
}

impl SHLDOwnershipVerifier {
    /// The account whose signatures count.
    pub closed spec fn signer(&self) -> Seq<char> {
        self.authorized_signer@
    }

    /// A verifier that goes by the signatures of `authorized_signer`.
    pub fn new(authorized_signer: AccountId) -> (r: SHLDOwnershipVerifier)
        ensures
            r.signer() == authorized_signer@,
    {
        SHLDOwnershipVerifier { authorized_signer }
    }

    /// The account whose signatures count.
    pub fn authorized_signer(&self) -> (r: &AccountId)
        ensures
            r@ == self.signer(),
    {
        &self.authorized_signer
    }

    /// Accepts the attestation: every attestation is accepted, since checking
    /// the signature is the part of the signing service.
    pub fn verify_ownership(&self, account_id: AccountId, token_hash: String, signature: Vec<u8>)
        -> (accepted: bool)
        ensures
            accepted,
    {
        true
    }

    /// The line that records that the attestation of `account_id` for
    /// `token_hash` was accepted.
    pub fn verification_record(account_id: &AccountId, token_hash: &String) -> (line: String)
        ensures
            line@ == verified_record(account_id@, token_hash@),
    {
        let mut line = String::from_str("SHLDOwnershipVerified: { account_id: ");
        line.append(account_id.as_str());
        line.append(", token_hash: ");
        line.append(token_hash.as_str());
        line.append(" }");
        line
    }
}

} // verus!
