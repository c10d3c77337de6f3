//! Two small lookup tables of the registry: the hash that an account is linked
//! to, and the cohorts on record.

use crate::account::AccountId;
use crate::text::{distinct_texts, texts};
use vstd::prelude::*;
use vstd::string::StringExecFns;

verus! {

/// One entry of a [`LinkTable`]: an account and the token hash linked to it.
pub struct AccountLink {
    pub account: AccountId,
    pub token_hash: String,
}

impl Clone for AccountLink {
    fn clone(&self) -> (r: Self)
        ensures
            r.account@ == self.account@,
            r.token_hash@ == self.token_hash@,
    {
        AccountLink { account: self.account.clone(), token_hash: self.token_hash.clone() }
    }
}

/// The token hash linked to each account: a finite map, kept as a list of
/// entries in which no account occurs twice.
pub struct LinkTable {
    entries: Vec<AccountLink>,
}

/// Whether entry `i` of `entries` is for the account `account`.
pub open spec fn entry_is_for(entries: Seq<AccountLink>, i: int, account: Seq<char>) -> bool {
    0 <= i < entries.len() && entries[i].account@ == account
}

/// Whether no account has two entries.
pub open spec fn distinct_accounts(entries: Seq<AccountLink>) -> bool {
    forall|i: int, j: int, account: Seq<char>|
        #[trigger] entry_is_for(entries, i, account) && #[trigger] entry_is_for(entries, j, account)
            ==> i == j
}

/// The map that a list of entries stands for.
pub open spec fn links_of(entries: Seq<AccountLink>) -> Map<Seq<char>, Seq<char>> {
    Map::new(
        |account: Seq<char>| exists|i: int| entry_is_for(entries, i, account),
        |account: Seq<char>| entries[choose|i: int| entry_is_for(entries, i, account)].token_hash@,
    )
}

impl View for LinkTable {
    type V = Map<Seq<char>, Seq<char>>;

    closed spec fn view(&self) -> Map<Seq<char>, Seq<char>> {
        links_of(self.entries@)
    }
}

impl LinkTable {
    /// The invariant of the table.
    pub closed spec fn wf(&self) -> bool {
        distinct_accounts(self.entries@)
    }

    /// An empty table.
    pub fn new() -> (r: LinkTable)
        ensures
            r.wf(),
            r@ == Map::<Seq<char>, Seq<char>>::empty(),
    {
        let r = LinkTable { entries: Vec::new() };
        assert(r@ =~= Map::<Seq<char>, Seq<char>>::empty());
        r
    }

    fn find(&self, account: &AccountId) -> (r: Option<usize>)
        ensures
            match r {
                Some(i) => entry_is_for(self.entries@, i as int, account@),
                None => forall|i: int| !entry_is_for(self.entries@, i, account@),
            },
    {
        let mut i: usize = 0;
        while i < self.entries.len()
            invariant
                i <= self.entries.len(),
                forall|k: int| 0 <= k < i ==> !entry_is_for(self.entries@, k, account@),
            decreases self.entries.len() - i,
        {
            if self.entries[i].account == *account {
                return Some(i);
            }
            i += 1;
        }
        None
    }

    /// The hash linked to `account`, if there is one.
    pub fn get(&self, account: &AccountId) -> (r: Option<String>)
        requires
            self.wf(),
        ensures
            self@.contains_key(account@) ==> r.is_some() && r.unwrap()@ == self@[account@],
            !self@.contains_key(account@) ==> r.is_none(),
    {
        match self.find(account) {
            Some(i) => {
                proof {
                    let j = choose|j: int| entry_is_for(self.entries@, j, account@);
                    assert(j == i);
                }
                Some(self.entries[i].token_hash.clone())
            },
            None => None,
        }
    }

    /// Links `token_hash` to `account`, in place of any hash linked before.
    pub fn insert(&mut self, account: AccountId, token_hash: String)
        requires
            old(self).wf(),
        ensures
            final(self).wf(),
            final(self)@ == old(self)@.insert(account@, token_hash@),
    {
        let found = self.find(&account);
        match found {
            Some(i) => {
                self.entries[i] = AccountLink { account, token_hash };
            },
            None => {
                self.entries.push(AccountLink { account, token_hash });
            },
        }
        proof {
            let before = old(self).entries@;
            let after = self.entries@;
            let target = old(self)@.insert(account@, token_hash@);
            let at: int = match found {
                Some(i) => i as int,
                None => before.len() as int,
            };
            assert(entry_is_for(after, at, account@));
            assert forall|i: int, j: int, k: Seq<char>|
                #[trigger] entry_is_for(after, i, k) && #[trigger] entry_is_for(after, j, k) implies i
                == j by {
                if k != account@ {
                    assert(entry_is_for(before, i, k));
                    assert(entry_is_for(before, j, k));
                } else {
                    if i != at {
                        assert(entry_is_for(before, i, k));
                    }
                    if j != at {
                        assert(entry_is_for(before, j, k));
                    }
                }
            }
            assert forall|k: Seq<char>| #[trigger] self@.contains_key(k) <==> target.contains_key(k) by {
                if self@.contains_key(k) {
                    let j = choose|j: int| entry_is_for(after, j, k);
                    if k != account@ {
                        assert(entry_is_for(before, j, k));
                    }
                }
                if target.contains_key(k) && k != account@ {
                    let j = choose|j: int| entry_is_for(before, j, k);
                    assert(entry_is_for(after, j, k));
                }
            }
            assert forall|k: Seq<char>| #[trigger] self@.contains_key(k) implies self@[k] == target[k] by {
                let j = choose|j: int| entry_is_for(after, j, k);
                if k == account@ {
                    assert(j == at);
                } else {
                    assert(entry_is_for(before, j, k));
                    let j0 = choose|j0: int| entry_is_for(before, j0, k);
                    assert(j0 == j);
                }
            }
            assert(self@ =~= target);
        }
    }

    /// The entries of the table: a list in which no account occurs twice and
    /// which stands for the same map.
    pub fn to_entries(&self) -> (r: Vec<AccountLink>)
        requires
            self.wf(),
        ensures
            distinct_accounts(r@),
            links_of(r@) == self@,
    {
        let mut r: Vec<AccountLink> = Vec::new();
        let mut i: usize = 0;
        while i < self.entries.len()
            invariant
                i <= self.entries.len(),
                r@.len() == i,
                forall|k: int|
                    0 <= k < i ==> (#[trigger] r@[k]).account@ == self.entries@[k].account@
                        && r@[k].token_hash@ == self.entries@[k].token_hash@,
            decreases self.entries.len() - i,
        {
            r.push(self.entries[i].clone());
            i += 1;
        }
        proof {
            lemma_links_of_same(r@, self.entries@);
        }
        r
    }

    /// The table that the list `entries` stands for, if no account occurs
    /// twice in it.
    pub fn from_entries(entries: Vec<AccountLink>) -> (r: Option<LinkTable>)
        ensures
            r is Some <==> distinct_accounts(entries@),
            r matches Some(t) ==> t.wf() && t@ == links_of(entries@),
    {
        let mut keys: Vec<String> = Vec::new();
        let mut i: usize = 0;
        while i < entries.len()
            invariant
                i <= entries.len(),
                keys@.len() == i,
                forall|k: int| 0 <= k < i ==> (#[trigger] keys@[k])@ == entries@[k].account@,
            decreases entries.len() - i,
        {
            keys.push(String::from_str(entries[i].account.as_str()));
            i += 1;
        }
        let distinct = distinct_texts(&keys);
        proof {
            let names = texts(keys@);
            assert forall|k: int| 0 <= k < names.len() implies #[trigger] names[k]
                == entries@[k].account@ by {}
            if distinct {
                assert forall|a: int, b: int, account: Seq<char>|
                    #[trigger] entry_is_for(entries@, a, account) && #[trigger] entry_is_for(
                        entries@,
                        b,
                        account,
                    ) implies a == b by {
                    assert(names[a] == names[b]);
                }
            } else {
                let (a, b) = choose|a: int, b: int|
                    0 <= a < names.len() && 0 <= b < names.len() && a != b && names[a] == names[b];
                assert(entry_is_for(entries@, a, names[a]));
                assert(entry_is_for(entries@, b, names[a]));
            }
        }
        if distinct {
            Some(LinkTable { entries })
        } else {
            None
        }
    }

    /// Removes the link of `account`, if there is one.
    pub fn remove(&mut self, account: &AccountId)
        requires
            old(self).wf(),
        ensures
            final(self).wf(),
            final(self)@ == old(self)@.remove(account@),
    {
        let found = self.find(account);
        match found {
            Some(i) => {
                self.entries.remove(i);
                proof {
                    let before = old(self).entries@;
                    let after = self.entries@;
                    let target = old(self)@.remove(account@);
                    let at = i as int;
                    assert forall|j: int| 0 <= j < after.len() implies #[trigger] after[j] == before[if j
                        < at {
                        j
                    } else {
                        j + 1
                    }] by {}
                    assert forall|a: int, b: int, k: Seq<char>|
                        #[trigger] entry_is_for(after, a, k) && #[trigger] entry_is_for(
                            after,
                            b,
                            k,
                        ) implies a == b by {
                        assert(entry_is_for(before, if a < at { a } else { a + 1 }, k));
                        assert(entry_is_for(before, if b < at { b } else { b + 1 }, k));
                    }
                    assert forall|k: Seq<char>| #[trigger] self@.contains_key(k) <==> target.contains_key(
                        k,
                    ) by {
                        if self@.contains_key(k) {
                            let j = choose|j: int| entry_is_for(after, j, k);
                            let j0 = if j < at { j } else { j + 1 };
                            assert(entry_is_for(before, j0, k));
                        }
                        if target.contains_key(k) {
                            let j0 = choose|j0: int| entry_is_for(before, j0, k);
                            let j = if j0 < at { j0 } else { j0 - 1 };
                            assert(entry_is_for(after, j, k));
                        }
                    }
                    assert forall|k: Seq<char>| #[trigger] self@.contains_key(k) implies self@[k]
                        == target[k] by {
                        let j = choose|j: int| entry_is_for(after, j, k);
                        let j0 = if j < at { j } else { j + 1 };
                        assert(entry_is_for(before, j0, k));
                        let j1 = choose|j1: int| entry_is_for(before, j1, k);
                        assert(j1 == j0);
                    }
                    assert(self@ =~= target);
                }
            },
            None => {
                assert(self@ =~= old(self)@.remove(account@));
            },
        }
    }
}

/// Where two lists agree entry by entry and no account occurs twice in one,
/// none occurs twice in the other, and both stand for the same map.
pub proof fn lemma_links_of_same(a: Seq<AccountLink>, b: Seq<AccountLink>)
    requires
        a.len() == b.len(),
        forall|k: int|
            0 <= k < a.len() ==> (#[trigger] a[k]).account@ == b[k].account@ && a[k].token_hash@
                == b[k].token_hash@,
        distinct_accounts(b),
    ensures
        links_of(a) == links_of(b),
        distinct_accounts(a),
{
    assert forall|i: int, account: Seq<char>|
        entry_is_for(a, i, account) == entry_is_for(b, i, account) by {
        if 0 <= i < a.len() {
            assert(a[i].account@ == b[i].account@);
        }
    }
    assert forall|account: Seq<char>| #[trigger]
        links_of(a).contains_key(account) == links_of(b).contains_key(account) by {
        if links_of(a).contains_key(account) {
            let i = choose|i: int| entry_is_for(a, i, account);
            assert(entry_is_for(b, i, account));
        }
        if links_of(b).contains_key(account) {
            let i = choose|i: int| entry_is_for(b, i, account);
            assert(entry_is_for(a, i, account));
        }
    }
    assert forall|account: Seq<char>| #[trigger]
        links_of(a).contains_key(account) implies links_of(a)[account] == links_of(b)[account] by {
        let i = choose|i: int| entry_is_for(a, i, account);
        let j = choose|j: int| entry_is_for(b, j, account);
        assert(entry_is_for(b, i, account));
        assert(entry_is_for(b, j, account));
        assert(a[i].token_hash@ == b[i].token_hash@);
    }
    assert(links_of(a) =~= links_of(b));
    assert forall|i: int, j: int, account: Seq<char>|
        #[trigger] entry_is_for(a, i, account) && #[trigger] entry_is_for(
            a,
            j,
            account,
        ) implies i == j by {
        assert(entry_is_for(b, i, account));
        assert(entry_is_for(b, j, account));
    }
}

/// The cohorts on record: a finite set of cohort identifiers, kept as a list
/// in which no identifier occurs twice.
pub struct CohortSet {
    names: Vec<String>,
}

/// Whether entry `i` of `names` is the cohort `name`.
pub open spec fn name_is_at(names: Seq<String>, i: int, name: Seq<char>) -> bool {
    0 <= i < names.len() && names[i]@ == name
}

/// Whether no cohort occurs twice.
pub open spec fn distinct_names(names: Seq<String>) -> bool {
    forall|i: int, j: int, name: Seq<char>|
        #[trigger] name_is_at(names, i, name) && #[trigger] name_is_at(names, j, name) ==> i == j
}

/// The set that a list of cohort identifiers stands for.
pub open spec fn cohorts_of(names: Seq<String>) -> Set<Seq<char>> {
    Set::new(|name: Seq<char>| exists|i: int| name_is_at(names, i, name))
}

impl View for CohortSet {
    type V = Set<Seq<char>>;

    closed spec fn view(&self) -> Set<Seq<char>> {
        cohorts_of(self.names@)
    }
}

impl CohortSet {
    /// The invariant of the set.
    pub closed spec fn wf(&self) -> bool {
        distinct_names(self.names@)
    }

    /// An empty set.
    pub fn new() -> (r: CohortSet)
        ensures
            r.wf(),
            r@ == Set::<Seq<char>>::empty(),
    {
        let r = CohortSet { names: Vec::new() };
        assert(r@ =~= Set::<Seq<char>>::empty());
        r
    }

    fn find(&self, name: &String) -> (r: Option<usize>)
        ensures
            match r {
                Some(i) => name_is_at(self.names@, i as int, name@),
                None => forall|i: int| !name_is_at(self.names@, i, name@),
            },
    {
        let mut i: usize = 0;
        while i < self.names.len()
            invariant
                i <= self.names.len(),
                forall|k: int| 0 <= k < i ==> !name_is_at(self.names@, k, name@),
            decreases self.names.len() - i,
        {
            if self.names[i] == *name {
                return Some(i);
            }
            i += 1;
        }
        None
    }

    /// Whether the cohort `name` is on record.
    pub fn contains(&self, name: &String) -> (r: bool)
        ensures
            r == self@.contains(name@),
    {
        self.find(name).is_some()
    }

    /// The cohorts of the set: a list in which no cohort occurs twice and
    /// which stands for the same set.
    pub fn to_names(&self) -> (r: Vec<String>)
        requires
            self.wf(),
        ensures
            distinct_names(r@),
            cohorts_of(r@) == self@,
    {
        let mut r: Vec<String> = Vec::new();
        let mut i: usize = 0;
        while i < self.names.len()
            invariant
                i <= self.names.len(),
                r@.len() == i,
                forall|k: int| 0 <= k < i ==> (#[trigger] r@[k])@ == self.names@[k]@,
            decreases self.names.len() - i,
        {
            r.push(self.names[i].clone());
            i += 1;
        }
        proof {
            let mine = self.names@;
            assert forall|k: int, name: Seq<char>|
                name_is_at(r@, k, name) == name_is_at(mine, k, name) by {
                if 0 <= k < r@.len() {
                    assert(r@[k]@ == mine[k]@);
                }
            }
            assert forall|a: int, b: int, name: Seq<char>|
                #[trigger] name_is_at(r@, a, name) && #[trigger] name_is_at(r@, b, name) implies a
                == b by {
                assert(name_is_at(mine, a, name));
                assert(name_is_at(mine, b, name));
            }
            assert forall|name: Seq<char>| cohorts_of(r@).contains(name) == self@.contains(name) by {
                if cohorts_of(r@).contains(name) {
                    let k = choose|k: int| name_is_at(r@, k, name);
                    assert(name_is_at(mine, k, name));
                }
                if self@.contains(name) {
                    let k = choose|k: int| name_is_at(mine, k, name);
                    assert(name_is_at(r@, k, name));
                }
            }
            assert(cohorts_of(r@) =~= self@);
        }
        r
    }

    /// The set that the list `names` stands for, if no cohort occurs twice in
    /// it.
    pub fn from_names(names: Vec<String>) -> (r: Option<CohortSet>)
        ensures
            r is Some <==> distinct_names(names@),
            r matches Some(c) ==> c.wf() && c@ == cohorts_of(names@),
    {
        let distinct = distinct_texts(&names);
        proof {
            let t = texts(names@);
            assert forall|k: int| 0 <= k < t.len() implies #[trigger] t[k] == names@[k]@ by {}
            if distinct {
                assert forall|a: int, b: int, name: Seq<char>|
                    #[trigger] name_is_at(names@, a, name) && #[trigger] name_is_at(
                        names@,
                        b,
                        name,
                    ) implies a == b by {
                    assert(t[a] == t[b]);
                }
            } else {
                let (a, b) = choose|a: int, b: int|
                    0 <= a < t.len() && 0 <= b < t.len() && a != b && t[a] == t[b];
                assert(name_is_at(names@, a, t[a]));
                assert(name_is_at(names@, b, t[a]));
            }
        }
        if distinct {
            Some(CohortSet { names })
        } else {
            None
        }
    }

    /// Takes the cohort `name` off the record, if it is there.
    pub fn remove(&mut self, name: &String)
        requires
            old(self).wf(),
        ensures
            final(self).wf(),
            final(self)@ == old(self)@.remove(name@),
    {
        let found = self.find(name);
        match found {
            Some(i) => {
                self.names.remove(i);
                proof {
                    let before = old(self).names@;
                    let after = self.names@;
                    let target = old(self)@.remove(name@);
                    let at = i as int;
                    assert forall|j: int| 0 <= j < after.len() implies #[trigger] after[j] == before[if j
                        < at {
                        j
                    } else {
                        j + 1
                    }] by {}
                    assert forall|a: int, b: int, k: Seq<char>|
                        #[trigger] name_is_at(after, a, k) && #[trigger] name_is_at(
                            after,
                            b,
                            k,
                        ) implies a == b by {
                        assert(name_is_at(before, if a < at { a } else { a + 1 }, k));
                        assert(name_is_at(before, if b < at { b } else { b + 1 }, k));
                    }
                    assert forall|k: Seq<char>| #[trigger] self@.contains(k) <==> target.contains(
                        k,
                    ) by {
                        if self@.contains(k) {
                            let j = choose|j: int| name_is_at(after, j, k);
                            let j0 = if j < at { j } else { j + 1 };
                            assert(name_is_at(before, j0, k));
                        }
                        if target.contains(k) {
                            let j0 = choose|j0: int| name_is_at(before, j0, k);
                            let j = if j0 < at { j0 } else { j0 - 1 };
                            assert(name_is_at(after, j, k));
                        }
                    }
                    assert(self@ =~= target);
                }
            },
            None => {
                assert(self@ =~= old(self)@.remove(name@));
            },
        }
    }
}

} // verus!
