//! Account identifiers.
//!
//! An account is named by a short lower-case string. The syntax of such a name
//! is fixed by the NEAR protocol and tested by `near_sdk`; this module states
//! the syntax and keeps it as the invariant of [`AccountId`].

use vstd::prelude::*;

verus! {

/// A character that separates the parts of an account name.
pub open spec fn is_separator(c: char) -> bool {
    c == '-' || c == '_' || c == '.'
}

/// A lower-case letter or a digit.
pub open spec fn is_alphanumeric(c: char) -> bool {
    ('a' <= c && c <= 'z') || ('0' <= c && c <= '9')
}

/// The syntax of an account name: between 2 and 64 characters, each a
/// lower-case letter, a digit or a separator, with no separator at either end
/// and no two separators in a row.
pub open spec fn valid_account_name(s: Seq<char>) -> bool {
    &&& 2 <= s.len() <= 64
    &&& forall|i: int| 0 <= i < s.len() ==> is_alphanumeric(#[trigger] s[i]) || is_separator(s[i])
    &&& !is_separator(s[0])
    &&& !is_separator(s[s.len() - 1])
    &&& forall|i: int|
        0 <= i < s.len() - 1 ==> !(is_separator(#[trigger] s[i]) && is_separator(s[i + 1]))
}

/// Trusted: `near_sdk::AccountId::validate`, reduced to whether it accepts.
///
/// The contract claims that the outside validator accepts a string exactly
/// when the string has the syntax that [`valid_account_name`] states.
#[verifier::external_body]
fn validate_account_name(name: &str) -> (ok: bool)
    ensures
        ok == valid_account_name(name@),
{
    near_sdk::AccountId::validate(name).is_ok()
}

/// The identifier of an account. Every value holds a syntactically valid name.
#[derive(Debug)]
pub struct AccountId {
    name: String,
}

impl View for AccountId {
    type V = Seq<char>;

    closed spec fn view(&self) -> Seq<char> {
        self.name@
    }
}

impl AccountId {
    #[verifier::type_invariant]
    spec fn well_formed(self) -> bool {
        valid_account_name(self.name@)
    }

    /// Makes an account identifier from its name, if the name is valid.
    pub fn parse(name: &str) -> (r: Option<AccountId>)
        ensures
            r is Some <==> valid_account_name(name@),
            r matches Some(a) ==> a@ == name@,
    {
        if validate_account_name(name) {
            Some(AccountId { name: String::from_str(name) })
        } else {
            None
        }
    }

    /// The account's name.
    pub fn as_str(&self) -> (s: &str)
        ensures
            s@ == self@,
            valid_account_name(s@),
    {
        proof {
            use_type_invariant(self);
        }
        self.name.as_str()
    }
}

impl Clone for AccountId {
    fn clone(&self) -> (r: Self)
        ensures
            r@ == self@,
    {
        proof {
            use_type_invariant(self);
        }
        AccountId { name: self.name.clone() }
    }
}

impl PartialEq for AccountId {
    fn eq(&self, other: &Self) -> (r: bool) {
        self.name == other.name
    }
}

impl Eq for AccountId {}

impl vstd::std_specs::cmp::PartialEqSpecImpl for AccountId {
    open spec fn obeys_eq_spec() -> bool {
        true
    }

    open spec fn eq_spec(&self, other: &Self) -> bool {
        self@ == other@
    }
}

} // verus!
