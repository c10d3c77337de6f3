//! Membership tokens and the record of profile data that each one carries.

use crate::account::AccountId;
use crate::text::{clone_opt_string, clone_strings, decimal, decimal_string, opt_text, texts};
use ethabi::ethereum_types::H160;
use vstd::prelude::*;
use vstd::string::StringExecFns;

verus! {

/// Trusted: the type `ethabi::ethereum_types::H160`, a 20-byte address.
///
/// Nothing is claimed of its contents: a value is carried along unread.
#[verifier::external_type_specification]
#[verifier::external_body]
pub struct ExH160(ethabi::ethereum_types::H160);

/// The profile data and issuance stamps of a membership token.
#[derive(Debug, PartialEq)]
pub struct TokenMetadata {
    pub title: Option<String>,
    pub description: Option<String>,
    pub governance_role: String,
    pub ticker_title: String,
    pub avatar_name: Option<String>,
    pub profile_image_url: Option<String>,
    pub near_account_id: AccountId,
    pub ethereum_address: Option<H160>,
    pub cooperative_id: String,
    pub did: Option<String>,
    pub verification_status: String,
    pub minting_timestamp: u64,
    pub nft_number: u64,
    pub minting_round: u64,
    pub minting_order_in_round: u64,
    pub unique_hash: String,
    pub member_titles: Vec<String>,
}

/// What a [`TokenMetadata`] holds, as mathematical values.
pub struct TokenMetadataModel {
    pub title: Option<Seq<char>>,
    pub description: Option<Seq<char>>,
    pub governance_role: Seq<char>,
    pub ticker_title: Seq<char>,
    pub avatar_name: Option<Seq<char>>,
    pub profile_image_url: Option<Seq<char>>,
    pub near_account_id: Seq<char>,
    pub ethereum_address: Option<H160>,
    pub cooperative_id: Seq<char>,
    pub did: Option<Seq<char>>,
    pub verification_status: Seq<char>,
    pub minting_timestamp: u64,
    pub nft_number: nat,
    pub minting_round: nat,
    pub minting_order_in_round: nat,
    pub unique_hash: Seq<char>,
    pub member_titles: Seq<Seq<char>>,
}

/// A profile field that its holder may rewrite.
#[derive(Clone, Copy, Debug, PartialEq, Eq, Structural)]
pub enum ProfileField {
    AvatarName,
    Description,
    ProfileImageUrl,
    Did,
}

/// The uniqueness hash of the token with issuance number `nft_number` in the
/// cohort `cooperative_id`: the cohort, a hyphen, and the number in decimal.
pub open spec fn unique_hash_of(cooperative_id: Seq<char>, nft_number: nat) -> Seq<char> {
    cooperative_id + seq!['-'] + decimal(nft_number)
}

impl TokenMetadataModel {
    /// The record as issuance stamps it: the four stamps are set, and every
    /// other field is kept.
    pub open spec fn stamped(self, nft_number: nat, minting_round: nat, order: nat) -> Self {
        TokenMetadataModel {
            nft_number: nft_number,
            minting_round: minting_round,
            minting_order_in_round: order,
            unique_hash: unique_hash_of(self.cooperative_id, nft_number),
            ..self
        }
    }

    /// The record with one profile field rewritten.
    pub open spec fn with_field(self, field: ProfileField, value: Seq<char>) -> Self {
        match field {
            ProfileField::AvatarName => TokenMetadataModel { avatar_name: Some(value), ..self },
            ProfileField::Description => TokenMetadataModel { description: Some(value), ..self },
            ProfileField::ProfileImageUrl => TokenMetadataModel {
                profile_image_url: Some(value),
                ..self
            },
            ProfileField::Did => TokenMetadataModel { did: Some(value), ..self },
        }
    }

    /// The record with one more awarded title, after those it had.
    pub open spec fn with_title(self, title: Seq<char>) -> Self {
        TokenMetadataModel { member_titles: self.member_titles.push(title), ..self }
    }

    /// Whether the uniqueness hash is the one derived from cohort and number.
    pub open spec fn hash_is_derived(self) -> bool {
        self.unique_hash == unique_hash_of(self.cooperative_id, self.nft_number)
    }
}

impl View for TokenMetadata {
    type V = TokenMetadataModel;

    open spec fn view(&self) -> TokenMetadataModel {
        TokenMetadataModel {
            title: opt_text(self.title),
            description: opt_text(self.description),
            governance_role: self.governance_role@,
            ticker_title: self.ticker_title@,
            avatar_name: opt_text(self.avatar_name),
            profile_image_url: opt_text(self.profile_image_url),
            near_account_id: self.near_account_id@,
            ethereum_address: self.ethereum_address,
            cooperative_id: self.cooperative_id@,
            did: opt_text(self.did),
            verification_status: self.verification_status@,
            minting_timestamp: self.minting_timestamp,
            nft_number: self.nft_number as nat,
            minting_round: self.minting_round as nat,
            minting_order_in_round: self.minting_order_in_round as nat,
            unique_hash: self.unique_hash@,
            member_titles: texts(self.member_titles@),
        }
    }
}

/// Computes the uniqueness hash of a token.
pub fn generate_unique_hash(cooperative_id: &String, nft_number: u64) -> (hash: String)
    ensures
        hash@ == unique_hash_of(cooperative_id@, nft_number as nat),
{
    let mut hash = cooperative_id.clone();
    proof {
        reveal_strlit("-");
    }
    hash.append("-");
    let number = decimal_string(nft_number);
    hash.append(number.as_str());
    assert(hash@ =~= unique_hash_of(cooperative_id@, nft_number as nat));
    hash
}

impl TokenMetadata {
    /// Stamps the record at issuance.
    pub fn stamp(self, nft_number: u64, minting_round: u64, order: u64) -> (r: TokenMetadata)
        ensures
            r@ == self@.stamped(nft_number as nat, minting_round as nat, order as nat),
    {
        let unique_hash = generate_unique_hash(&self.cooperative_id, nft_number);
        TokenMetadata {
            nft_number,
            minting_round,
            minting_order_in_round: order,
            unique_hash,
            ..self
        }
    }

    /// Rewrites one profile field.
    pub fn set_field(&mut self, field: ProfileField, value: String)
        ensures
            final(self)@ == old(self)@.with_field(field, value@),
    {
        match field {
            ProfileField::AvatarName => {
                self.avatar_name = Some(value);
            },
            ProfileField::Description => {
                self.description = Some(value);
            },
            ProfileField::ProfileImageUrl => {
                self.profile_image_url = Some(value);
            },
            ProfileField::Did => {
                self.did = Some(value);
            },
        }
    }

    /// Appends an awarded title.
    pub fn push_title(&mut self, title: String)
        ensures
            final(self)@ == old(self)@.with_title(title@),
    {
        self.member_titles.push(title);
        assert(texts(self.member_titles@) =~= texts(old(self).member_titles@).push(title@));
    }
}

impl Clone for TokenMetadata {
    fn clone(&self) -> (r: Self)
        ensures
            r@ == self@,
    {
        TokenMetadata {
            title: clone_opt_string(&self.title),
            description: clone_opt_string(&self.description),
            governance_role: self.governance_role.clone(),
            ticker_title: self.ticker_title.clone(),
            avatar_name: clone_opt_string(&self.avatar_name),
            profile_image_url: clone_opt_string(&self.profile_image_url),
            near_account_id: self.near_account_id.clone(),
            ethereum_address: self.ethereum_address,
            cooperative_id: self.cooperative_id.clone(),
            did: clone_opt_string(&self.did),
            verification_status: self.verification_status.clone(),
            minting_timestamp: self.minting_timestamp,
            nft_number: self.nft_number,
            minting_round: self.minting_round,
            minting_order_in_round: self.minting_order_in_round,
            unique_hash: self.unique_hash.clone(),
            member_titles: clone_strings(&self.member_titles),
        }
    }
}

/// A membership token: the credential of one account.
#[derive(Debug, PartialEq)]
pub struct Token {
    pub owner_id: AccountId,
    pub metadata: TokenMetadata,
}

/// What a [`Token`] holds, as mathematical values.
pub struct TokenModel {
    pub owner: Seq<char>,
    pub metadata: TokenMetadataModel,
}

impl View for Token {
    type V = TokenModel;

    open spec fn view(&self) -> TokenModel {
        TokenModel { owner: self.owner_id@, metadata: self.metadata@ }
    }
}

impl Clone for Token {
    fn clone(&self) -> (r: Self)
        ensures
            r@ == self@,
    {
        Token { owner_id: self.owner_id.clone(), metadata: self.metadata.clone() }
    }
}

} // verus!
