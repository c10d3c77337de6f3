//! The membership registry: at most one token for each account, numbered in
//! the order of issuance.

use crate::account::AccountId;
use crate::error::GovernanceError;
use crate::metadata::{
    generate_unique_hash, ProfileField, Token, TokenMetadata, TokenMetadataModel, TokenModel,
};
use crate::tables::{CohortSet, LinkTable};
use crate::text::{distinct_texts, texts};
use vstd::prelude::*;
use vstd::string::StringExecFns;

verus! {

/// The state of a registry, as mathematical values.
pub struct RegistryModel {
    /// The live tokens, in the order in which they were issued.
    pub tokens: Seq<TokenModel>,
    /// The token hash linked to each account.
    pub links: Map<Seq<char>, Seq<char>>,
    /// The cohorts on record.
    pub cohorts: Set<Seq<char>>,
    /// How many issuance numbers have been given out: the numbers from 1 to
    /// this one are used, and the next token gets the one after it.
    pub issued: nat,
    /// The current minting round.
    pub minting_round: nat,
    /// How many tokens were issued in the current round.
    pub minting_order: nat,
}

/// Whether the token at position `i` of `tokens` belongs to `account`.
pub open spec fn held_at(tokens: Seq<TokenModel>, i: int, account: Seq<char>) -> bool {
    0 <= i < tokens.len() && tokens[i].owner == account
}

impl RegistryModel {
    /// Whether the token at position `i` belongs to `account`.
    pub open spec fn holds_at(self, i: int, account: Seq<char>) -> bool {
        held_at(self.tokens, i, account)
    }

    /// Whether `account` holds a token.
    pub open spec fn is_holder(self, account: Seq<char>) -> bool {
        exists|i: int| held_at(self.tokens, i, account)
    }

    /// The position of the token of `account`, where it holds one.
    pub open spec fn position(self, account: Seq<char>) -> int {
        choose|i: int| held_at(self.tokens, i, account)
    }

    /// The token of `account`, where it holds one.
    pub open spec fn token_of(self, account: Seq<char>) -> TokenModel {
        self.tokens[self.position(account)]
    }

    /// The number of live tokens: the denominator of the quorum.
    pub open spec fn holder_count(self) -> nat {
        self.tokens.len()
    }

    /// No account holds two tokens.
    pub open spec fn one_token_per_account(self) -> bool {
        forall|i: int, j: int, account: Seq<char>|
            #[trigger] held_at(self.tokens, i, account) && #[trigger] held_at(
                self.tokens,
                j,
                account,
            ) ==> i == j
    }

    /// Every live token has a number that was given out, and a token issued
    /// later has a greater number.
    pub open spec fn numbers_increase(self) -> bool {
        &&& forall|i: int|
            0 <= i < self.tokens.len() ==> 1 <= (#[trigger] self.tokens[i]).metadata.nft_number
                <= self.issued
        &&& forall|i: int, j: int|
            0 <= i < j < self.tokens.len() ==> (#[trigger] self.tokens[i]).metadata.nft_number < (
            #[trigger] self.tokens[j]).metadata.nft_number
    }

    /// The uniqueness hash of every live token is the one derived from its
    /// cohort and its number.
    pub open spec fn hashes_are_derived(self) -> bool {
        forall|i: int|
            0 <= i < self.tokens.len() ==> (#[trigger] self.tokens[i]).metadata.hash_is_derived()
    }

    /// The invariant of the registry.
    pub open spec fn wf(self) -> bool {
        &&& self.one_token_per_account()
        &&& self.numbers_increase()
        &&& self.hashes_are_derived()
    }

    /// The registry before anything was minted. The first round is round 1.
    pub open spec fn empty() -> RegistryModel {
        RegistryModel {
            tokens: Seq::empty(),
            links: Map::empty(),
            cohorts: Set::empty(),
            issued: 0,
            minting_round: 1,
            minting_order: 0,
        }
    }

    /// Whether another token can be numbered with the machine's integers.
    pub open spec fn has_room(self) -> bool {
        self.issued < u64::MAX && self.minting_order < u64::MAX
    }

    /// The token that minting gives to `account`: `metadata`, stamped with the
    /// next number, the current round, the next place in the round, and the
    /// hash derived from cohort and number.
    pub open spec fn minted_token(self, account: Seq<char>, metadata: TokenMetadataModel)
        -> TokenModel {
        TokenModel {
            owner: account,
            metadata: metadata.stamped(self.issued + 1, self.minting_round, self.minting_order + 1),
        }
    }

    /// The registry after a token was minted for `account`.
    pub open spec fn mint(self, account: Seq<char>, metadata: TokenMetadataModel) -> RegistryModel {
        let token = self.minted_token(account, metadata);
        RegistryModel {
            tokens: self.tokens.push(token),
            links: self.links.insert(account, token.metadata.unique_hash),
            issued: self.issued + 1,
            minting_order: self.minting_order + 1,
            ..self
        }
    }

    /// The registry after the token of `account` was revoked: the token, the
    /// link of the account and the token's cohort are gone.
    pub open spec fn revoke(self, account: Seq<char>) -> RegistryModel {
        RegistryModel {
            tokens: self.tokens.remove(self.position(account)),
            links: self.links.remove(account),
            cohorts: self.cohorts.remove(self.token_of(account).metadata.cooperative_id),
            ..self
        }
    }

    /// The registry after the minting round advanced.
    pub open spec fn advance_round(self) -> RegistryModel {
        RegistryModel {
            minting_round: self.minting_round + 1,
            minting_order: 0,
            ..self
        }
    }

    /// The registry after the metadata of the token of `account` became
    /// `metadata`.
    pub open spec fn with_metadata(self, account: Seq<char>, metadata: TokenMetadataModel)
        -> RegistryModel {
        RegistryModel {
            tokens: self.tokens.update(
                self.position(account),
                TokenModel { owner: account, metadata: metadata },
            ),
            ..self
        }
    }

    /// The registry after one profile field of the token of `account` was
    /// rewritten.
    pub open spec fn update_field(self, account: Seq<char>, field: ProfileField, value: Seq<char>)
        -> RegistryModel {
        self.with_metadata(account, self.token_of(account).metadata.with_field(field, value))
    }

    /// The registry after a title was awarded to the token of `account`.
    pub open spec fn add_title(self, account: Seq<char>, title: Seq<char>) -> RegistryModel {
        self.with_metadata(account, self.token_of(account).metadata.with_title(title))
    }

    /// The registry after `token_hash` was linked to `account`.
    pub open spec fn link(self, account: Seq<char>, token_hash: Seq<char>) -> RegistryModel {
        RegistryModel { links: self.links.insert(account, token_hash), ..self }
    }

    /// Whether `metadata` differs from the metadata of the token of `account`
    /// in nothing that the invariant speaks of.
    pub open spec fn keeps_identity(self, account: Seq<char>, metadata: TokenMetadataModel) -> bool {
        let current = self.token_of(account).metadata;
        &&& metadata.cooperative_id == current.cooperative_id
        &&& metadata.nft_number == current.nft_number
        &&& metadata.unique_hash == current.unique_hash
    }

    /// In a well-formed registry the token of an account is the one at the
    /// only position that the account holds.
    pub proof fn lemma_position(self, i: int, account: Seq<char>)
        requires
            self.one_token_per_account(),
            self.holds_at(i, account),
        ensures
            self.is_holder(account),
            self.position(account) == i,
            self.token_of(account) == self.tokens[i],
    {
        assert(held_at(self.tokens, self.position(account), account));
    }

    /// Minting keeps the invariant.
    pub proof fn lemma_mint_keeps_wf(self, account: Seq<char>, metadata: TokenMetadataModel)
        requires
            self.wf(),
            !self.is_holder(account),
        ensures
            self.mint(account, metadata).wf(),
    {
        let after = self.mint(account, metadata);
        assert forall|i: int, j: int, a: Seq<char>|
            #[trigger] held_at(after.tokens, i, a) && #[trigger] held_at(after.tokens, j, a) implies i
            == j by {
            if i < self.tokens.len() {
                assert(held_at(self.tokens, i, a));
            }
            if j < self.tokens.len() {
                assert(held_at(self.tokens, j, a));
            }
        }
        assert forall|i: int| 0 <= i < after.tokens.len() implies 1 <= (
        #[trigger] after.tokens[i]).metadata.nft_number <= after.issued by {
            if i < self.tokens.len() {
                assert(after.tokens[i] == self.tokens[i]);
            }
        }
        assert forall|i: int, j: int| 0 <= i < j < after.tokens.len() implies (
        #[trigger] after.tokens[i]).metadata.nft_number < (
        #[trigger] after.tokens[j]).metadata.nft_number by {
            assert(after.tokens[i] == self.tokens[i]);
            if j < self.tokens.len() {
                assert(after.tokens[j] == self.tokens[j]);
            }
        }
        assert forall|i: int| 0 <= i < after.tokens.len() implies (
        #[trigger] after.tokens[i]).metadata.hash_is_derived() by {
            if i < self.tokens.len() {
                assert(after.tokens[i] == self.tokens[i]);
            }
        }
    }

    /// Revoking keeps the invariant.
    pub proof fn lemma_revoke_keeps_wf(self, account: Seq<char>)
        requires
            self.wf(),
            self.is_holder(account),
        ensures
            self.revoke(account).wf(),
    {
        let after = self.revoke(account);
        let at = self.position(account);
        assert(held_at(self.tokens, at, account));
        assert forall|a: int| 0 <= a < after.tokens.len() implies #[trigger] after.tokens[a]
            == self.tokens[if a < at { a } else { a + 1 }] by {}
        assert forall|a: int, b: int, k: Seq<char>|
            #[trigger] held_at(after.tokens, a, k) && #[trigger] held_at(after.tokens, b, k) implies a
            == b by {
            assert(held_at(self.tokens, if a < at { a } else { a + 1 }, k));
            assert(held_at(self.tokens, if b < at { b } else { b + 1 }, k));
        }
    }

    /// Replacing the metadata of a token keeps the invariant, where cohort,
    /// number and hash stay as they are.
    pub proof fn lemma_with_metadata_keeps_wf(
        self,
        account: Seq<char>,
        metadata: TokenMetadataModel,
    )
        requires
            self.wf(),
            self.is_holder(account),
            self.keeps_identity(account, metadata),
        ensures
            self.with_metadata(account, metadata).wf(),
    {
        let after = self.with_metadata(account, metadata);
        let at = self.position(account);
        assert(held_at(self.tokens, at, account));
        assert forall|i: int, j: int, a: Seq<char>|
            #[trigger] held_at(after.tokens, i, a) && #[trigger] held_at(after.tokens, j, a) implies i
            == j by {
            assert(held_at(self.tokens, i, a));
            assert(held_at(self.tokens, j, a));
        }
        assert forall|i: int| 0 <= i < after.tokens.len() implies 1 <= (
        #[trigger] after.tokens[i]).metadata.nft_number <= after.issued by {
            assert(self.tokens[i].metadata.nft_number == after.tokens[i].metadata.nft_number);
        }
        assert forall|i: int, j: int| 0 <= i < j < after.tokens.len() implies (
        #[trigger] after.tokens[i]).metadata.nft_number < (
        #[trigger] after.tokens[j]).metadata.nft_number by {
            assert(self.tokens[i].metadata.nft_number == after.tokens[i].metadata.nft_number);
            assert(self.tokens[j].metadata.nft_number == after.tokens[j].metadata.nft_number);
        }
        assert forall|i: int| 0 <= i < after.tokens.len() implies (
        #[trigger] after.tokens[i]).metadata.hash_is_derived() by {
            assert(self.tokens[i].metadata.hash_is_derived());
        }
    }
}

/// The state of a registry that is made of these parts.
pub open spec fn parts_model(
    tokens: Seq<Token>,
    links: Map<Seq<char>, Seq<char>>,
    cohorts: Set<Seq<char>>,
    issued: u64,
    minting_round: u64,
    minting_order: u64,
) -> RegistryModel {
    RegistryModel {
        tokens: tokens.map_values(|t: Token| t@),
        links: links,
        cohorts: cohorts,
        issued: issued as nat,
        minting_round: minting_round as nat,
        minting_order: minting_order as nat,
    }
}

/// The registry of membership tokens.
pub struct MembershipRegistry {
    tokens: Vec<Token>,
    links: LinkTable,
    cohorts: CohortSet,
    issued: u64,
    current_minting_round: u64,
    minting_order_in_round: u64,
}

impl View for MembershipRegistry {
    type V = RegistryModel;

    closed spec fn view(&self) -> RegistryModel {
        RegistryModel {
            tokens: self.tokens@.map_values(|t: Token| t@),
            links: self.links@,
            cohorts: self.cohorts@,
            issued: self.issued as nat,
            minting_round: self.current_minting_round as nat,
            minting_order: self.minting_order_in_round as nat,
        }
    }
}

impl MembershipRegistry {
    /// The invariant of the two lookup tables.
    pub closed spec fn tables_wf(&self) -> bool {
        self.links.wf() && self.cohorts.wf()
    }

    /// The invariant of the registry: every constructor establishes it and
    /// every operation keeps it.
    pub open spec fn wf(&self) -> bool {
        self@.wf() && self.tables_wf()
    }

    /// A registry without tokens, in round 1.
    pub fn new() -> (r: MembershipRegistry)
        ensures
            r.wf(),
            r@ == RegistryModel::empty(),
    {
        let r = MembershipRegistry {
            tokens: Vec::new(),
            links: LinkTable::new(),
            cohorts: CohortSet::new(),
            issued: 0,
            current_minting_round: 1,
            minting_order_in_round: 0,
        };
        assert(r@.tokens =~= Seq::<TokenModel>::empty());
        r
    }

    fn find(&self, account: &AccountId) -> (r: Option<usize>)
        ensures
            match r {
                Some(i) => self@.holds_at(i as int, account@),
                None => !self@.is_holder(account@),
            },
    {
        let mut i: usize = 0;
        while i < self.tokens.len()
            invariant
                i <= self.tokens.len(),
                forall|k: int| 0 <= k < i ==> !held_at(self@.tokens, k, account@),
            decreases self.tokens.len() - i,
        {
            if self.tokens[i].owner_id == *account {
                return Some(i);
            }
            i += 1;
        }
        None
    }

    /// The live tokens, in the order in which they were issued.
    pub fn to_tokens(&self) -> (r: Vec<Token>)
        ensures
            r@.map_values(|t: Token| t@) == self@.tokens,
    {
        let mut r: Vec<Token> = Vec::new();
        let mut i: usize = 0;
        while i < self.tokens.len()
            invariant
                i <= self.tokens.len(),
                r@.len() == i,
                forall|k: int| 0 <= k < i ==> (#[trigger] r@[k])@ == self.tokens@[k]@,
            decreases self.tokens.len() - i,
        {
            r.push(self.tokens[i].clone());
            i += 1;
        }
        assert(r@.map_values(|t: Token| t@) =~= self@.tokens);
        r
    }

    /// The table of the token hashes linked to accounts.
    pub fn links(&self) -> (r: &LinkTable)
        ensures
            r@ == self@.links,
            self.wf() ==> r.wf(),
    {
        &self.links
    }

    /// The cohorts on record.
    pub fn cohorts(&self) -> (r: &CohortSet)
        ensures
            r@ == self@.cohorts,
            self.wf() ==> r.wf(),
    {
        &self.cohorts
    }

    /// Whether the tokens of `m`, which are those of `tokens`, meet the
    /// invariant of a registry that has given out `issued` numbers.
    fn tokens_are_well_formed(tokens: &Vec<Token>, issued: u64, Ghost(m): Ghost<RegistryModel>) -> (r:
        bool)
        requires
            m.tokens == tokens@.map_values(|t: Token| t@),
            m.issued == issued,
        ensures
            r == m.wf(),
    {
        let mut owners: Vec<String> = Vec::new();
        let mut i: usize = 0;
        while i < tokens.len()
            invariant
                i <= tokens.len(),
                owners@.len() == i,
                forall|k: int| 0 <= k < i ==> (#[trigger] owners@[k])@ == tokens@[k].owner_id@,
            decreases tokens.len() - i,
        {
            owners.push(String::from_str(tokens[i].owner_id.as_str()));
            i += 1;
        }
        let distinct = distinct_texts(&owners);
        proof {
            let names = texts(owners@);
            assert forall|k: int| 0 <= k < names.len() implies #[trigger] names[k]
                == m.tokens[k].owner by {}
            if distinct {
                assert forall|a: int, b: int, account: Seq<char>|
                    #[trigger] held_at(m.tokens, a, account) && #[trigger] held_at(
                        m.tokens,
                        b,
                        account,
                    ) implies a == b by {
                    assert(names[a] == names[b]);
                }
            } else {
                let (a, b) = choose|a: int, b: int|
                    0 <= a < names.len() && 0 <= b < names.len() && a != b && names[a] == names[b];
                assert(held_at(m.tokens, a, names[a]));
                assert(held_at(m.tokens, b, names[a]));
            }
        }
        if !distinct {
            return false;
        }
        let mut i: usize = 0;
        while i < tokens.len()
            invariant
                i <= tokens.len(),
                m.tokens == tokens@.map_values(|t: Token| t@),
                m.issued == issued,
                forall|k: int|
                    0 <= k < i ==> 1 <= (#[trigger] m.tokens[k]).metadata.nft_number <= m.issued,
                forall|a: int, b: int|
                    0 <= a < b < i ==> (#[trigger] m.tokens[a]).metadata.nft_number < (
                    #[trigger] m.tokens[b]).metadata.nft_number,
                forall|k: int| 0 <= k < i ==> (#[trigger] m.tokens[k]).metadata.hash_is_derived(),
            decreases tokens.len() - i,
        {
            let metadata = &tokens[i].metadata;
            assert(m.tokens[i as int].metadata == metadata@);
            if metadata.nft_number < 1 || metadata.nft_number > issued {
                return false;
            }
            if i > 0 && tokens[i - 1].metadata.nft_number >= metadata.nft_number {
                assert(m.tokens[i - 1].metadata == tokens@[i - 1].metadata@);
                return false;
            }
            let hash = generate_unique_hash(&metadata.cooperative_id, metadata.nft_number);
            if hash != metadata.unique_hash {
                return false;
            }
            proof {
                assert forall|a: int| 0 <= a < i implies (
                #[trigger] m.tokens[a]).metadata.nft_number < m.tokens[i as int].metadata.nft_number by {
                    assert(m.tokens[i - 1].metadata == tokens@[i - 1].metadata@);
                    if a < i - 1 {
                        assert(m.tokens[a].metadata.nft_number < m.tokens[i
                            - 1].metadata.nft_number);
                    }
                }
            }
            i += 1;
        }
        true
    }

    /// The registry made of these parts, if they meet its invariant: no
    /// account holds two of the tokens, the tokens stand in the order of their
    /// numbers, none of which is above `issued`, and each has the hash derived
    /// from its cohort and number.
    pub fn from_parts(
        tokens: Vec<Token>,
        links: LinkTable,
        cohorts: CohortSet,
        issued: u64,
        minting_round: u64,
        minting_order: u64,
    ) -> (r: Option<MembershipRegistry>)
        requires
            links.wf(),
            cohorts.wf(),
        ensures
            r is Some <==> parts_model(
                tokens@,
                links@,
                cohorts@,
                issued,
                minting_round,
                minting_order,
            ).wf(),
            r matches Some(registry) ==> registry.wf() && registry@ == parts_model(
                tokens@,
                links@,
                cohorts@,
                issued,
                minting_round,
                minting_order,
            ),
    {
        let ghost m = parts_model(tokens@, links@, cohorts@, issued, minting_round, minting_order);
        if Self::tokens_are_well_formed(&tokens, issued, Ghost(m)) {
            Some(
                MembershipRegistry {
                    tokens,
                    links,
                    cohorts,
                    issued,
                    current_minting_round: minting_round,
                    minting_order_in_round: minting_order,
                },
            )
        } else {
            None
        }
    }

    /// Whether `account` holds a token.
    pub fn is_holder(&self, account: &AccountId) -> (r: bool)
        ensures
            r == self@.is_holder(account@),
    {
        self.find(account).is_some()
    }

    /// The number of live tokens.
    pub fn holder_count(&self) -> (n: usize)
        ensures
            n == self@.holder_count(),
    {
        self.tokens.len()
    }

    /// How many issuance numbers have been given out.
    pub fn issued(&self) -> (n: u64)
        ensures
            n == self@.issued,
    {
        self.issued
    }

    /// The current minting round.
    pub fn minting_round(&self) -> (n: u64)
        ensures
            n == self@.minting_round,
    {
        self.current_minting_round
    }

    /// How many tokens were issued in the current round.
    pub fn minting_order(&self) -> (n: u64)
        ensures
            n == self@.minting_order,
    {
        self.minting_order_in_round
    }

    /// Whether another token can be numbered.
    pub fn has_room(&self) -> (r: bool)
        ensures
            r == self@.has_room(),
    {
        self.issued < u64::MAX && self.minting_order_in_round < u64::MAX
    }

    /// The metadata of the token of `account`, if it holds one.
    pub fn metadata_of(&self, account: &AccountId) -> (r: Option<TokenMetadata>)
        requires
            self.wf(),
        ensures
            r is Some <==> self@.is_holder(account@),
            r matches Some(m) ==> m@ == self@.token_of(account@).metadata,
    {
        match self.find(account) {
            Some(i) => {
                proof {
                    self@.lemma_position(i as int, account@);
                }
                Some(self.tokens[i].metadata.clone())
            },
            None => None,
        }
    }

    /// The governance role of `account`, if it holds a token.
    pub fn role_of(&self, account: &AccountId) -> (r: Option<String>)
        requires
            self.wf(),
        ensures
            r is Some <==> self@.is_holder(account@),
            r matches Some(role) ==> role@ == self@.token_of(account@).metadata.governance_role,
    {
        match self.find(account) {
            Some(i) => {
                proof {
                    self@.lemma_position(i as int, account@);
                }
                Some(self.tokens[i].metadata.governance_role.clone())
            },
            None => None,
        }
    }

    /// The token hash linked to `account`, if there is one.
    pub fn linked_hash(&self, account: &AccountId) -> (r: Option<String>)
        requires
            self.wf(),
        ensures
            r is Some <==> self@.links.contains_key(account@),
            r matches Some(h) ==> h@ == self@.links[account@],
    {
        self.links.get(account)
    }

    /// Mints a token for `account`, unless it holds one already.
    ///
    /// The token is numbered with the next issuance number and stamped with
    /// the current round and the next place in it, and its hash is linked to
    /// the account.
    pub fn mint(&mut self, account: AccountId, metadata: TokenMetadata) -> (r: Result<
        Token,
        GovernanceError,
    >)
        requires
            old(self).wf(),
            old(self)@.is_holder(account@) || old(self)@.has_room(),
        ensures
            final(self).wf(),
            old(self)@.is_holder(account@) ==> r == Err::<Token, GovernanceError>(
                GovernanceError::DuplicateTokenError,
            ) && final(self)@ == old(self)@,
            !old(self)@.is_holder(account@) ==> final(self)@ == old(self)@.mint(
                account@,
                metadata@,
            ) && r is Ok && r->Ok_0@ == old(self)@.minted_token(account@, metadata@),
    {
        if self.find(&account).is_some() {
            return Err(GovernanceError::DuplicateTokenError);
        }
        self.issued = self.issued + 1;
        self.minting_order_in_round = self.minting_order_in_round + 1;
        let stamped = metadata.stamp(
            self.issued,
            self.current_minting_round,
            self.minting_order_in_round,
        );
        let hash = stamped.unique_hash.clone();
        let token = Token { owner_id: account.clone(), metadata: stamped };
        let issued_token = token.clone();
        self.links.insert(account, hash);
        self.tokens.push(token);
        proof {
            let before = old(self)@;
            assert(self@.tokens =~= before.tokens.push(before.minted_token(account@, metadata@)));
            before.lemma_mint_keeps_wf(account@, metadata@);
        }
        Ok(issued_token)
    }

    /// Revokes the token of `account` and returns it.
    pub fn revoke(&mut self, account: &AccountId) -> (r: Result<Token, GovernanceError>)
        requires
            old(self).wf(),
        ensures
            final(self).wf(),
            !old(self)@.is_holder(account@) ==> r == Err::<Token, GovernanceError>(
                GovernanceError::NotFoundError,
            ) && final(self)@ == old(self)@,
            old(self)@.is_holder(account@) ==> final(self)@ == old(self)@.revoke(account@) && r is Ok
                && r->Ok_0@ == old(self)@.token_of(account@),
    {
        match self.find(account) {
            None => Err(GovernanceError::NotFoundError),
            Some(i) => {
                let token = self.tokens.remove(i);
                self.links.remove(account);
                self.cohorts.remove(&token.metadata.cooperative_id);
                proof {
                    let before = old(self)@;
                    before.lemma_position(i as int, account@);
                    assert(self@.tokens =~= before.tokens.remove(i as int));
                    before.lemma_revoke_keeps_wf(account@);
                }
                Ok(token)
            },
        }
    }

    /// Starts the next minting round: places in the round are counted from
    /// zero again. No token changes.
    pub fn advance_minting_round(&mut self)
        requires
            old(self).wf(),
            old(self)@.minting_round < u64::MAX,
        ensures
            final(self).wf(),
            final(self)@ == old(self)@.advance_round(),
    {
        self.current_minting_round = self.current_minting_round + 1;
        self.minting_order_in_round = 0;
    }

    /// Rewrites one profile field of the token of `account`.
    pub fn update_field(&mut self, account: &AccountId, field: ProfileField, value: String) -> (r:
        Result<(), GovernanceError>)
        requires
            old(self).wf(),
        ensures
            final(self).wf(),
            !old(self)@.is_holder(account@) ==> r == Err::<(), GovernanceError>(
                GovernanceError::NotFoundError,
            ) && final(self)@ == old(self)@,
            old(self)@.is_holder(account@) ==> r == Ok::<(), GovernanceError>(()) && final(self)@
                == old(self)@.update_field(
                account@,
                field,
                value@,
            ),
    {
        match self.find(account) {
            None => Err(GovernanceError::NotFoundError),
            Some(i) => {
                self.tokens[i].metadata.set_field(field, value);
                proof {
                    let before = old(self)@;
                    before.lemma_position(i as int, account@);
                    self.lemma_metadata_replaced(*old(self), i as int, account@);
                    before.lemma_with_metadata_keeps_wf(
                        account@,
                        before.token_of(account@).metadata.with_field(field, value@),
                    );
                }
                Ok(())
            },
        }
    }

    /// Awards a title to the token of `account`: it is appended to the titles
    /// that the token has.
    pub fn add_title(&mut self, account: &AccountId, title: String) -> (r: Result<
        (),
        GovernanceError,
    >)
        requires
            old(self).wf(),
        ensures
            final(self).wf(),
            !old(self)@.is_holder(account@) ==> r == Err::<(), GovernanceError>(
                GovernanceError::NotFoundError,
            ) && final(self)@ == old(self)@,
            old(self)@.is_holder(account@) ==> r == Ok::<(), GovernanceError>(()) && final(self)@
                == old(self)@.add_title(
                account@,
                title@,
            ),
    {
        match self.find(account) {
            None => Err(GovernanceError::NotFoundError),
            Some(i) => {
                self.tokens[i].metadata.push_title(title);
                proof {
                    let before = old(self)@;
                    before.lemma_position(i as int, account@);
                    self.lemma_metadata_replaced(*old(self), i as int, account@);
                    before.lemma_with_metadata_keeps_wf(
                        account@,
                        before.token_of(account@).metadata.with_title(title@),
                    );
                }
                Ok(())
            },
        }
    }

    /// Links `token_hash` to `account`, in place of any hash linked before.
    /// The account need not hold a token.
    pub fn link(&mut self, account: AccountId, token_hash: String)
        requires
            old(self).wf(),
        ensures
            final(self).wf(),
            final(self)@ == old(self)@.link(account@, token_hash@),
    {
        self.links.insert(account, token_hash);
    }

    /// Where only the metadata of the token at `at` changed, the registry is
    /// the old one with that metadata in place.
    proof fn lemma_metadata_replaced(self, before: MembershipRegistry, at: int, account: Seq<char>)
        requires
            before@.one_token_per_account(),
            before@.holds_at(at, account),
            self.tokens@.len() == before.tokens@.len(),
            forall|k: int|
                0 <= k < self.tokens@.len() && k != at ==> self.tokens@[k] == before.tokens@[k],
            self.tokens@[at].owner_id == before.tokens@[at].owner_id,
            self.links == before.links,
            self.cohorts == before.cohorts,
            self.issued == before.issued,
            self.current_minting_round == before.current_minting_round,
            self.minting_order_in_round == before.minting_order_in_round,
        ensures
            self@ == before@.with_metadata(account, self.tokens@[at].metadata@),
            self.tables_wf() == before.tables_wf(),
    {
        before@.lemma_position(at, account);
        assert(self@.tokens =~= before@.tokens.update(
            at,
            TokenModel { owner: account, metadata: self.tokens@[at].metadata@ },
        ));
    }
}

} // verus!
