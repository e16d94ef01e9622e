//! Identities of external call targets.

use vstd::prelude::*;

use crate::error::OrchestrationError;

verus! {

/// Lower-case letters and digits, the characters that carry an account name.
pub open spec fn is_name_char(c: char) -> bool {
    ('a' <= c && c <= 'z') || ('0' <= c && c <= '9')
}

/// The characters that separate the parts of an account name.
pub open spec fn is_separator(c: char) -> bool {
    c == '-' || c == '_' || c == '.'
}

/// The shortest account name the network accepts.
pub const MIN_NAME_LEN: usize = 2;

/// The longest account name the network accepts.
pub const MAX_NAME_LEN: usize = 64;

/// Whether `name` is a well-formed account name: between two and sixty-four
/// characters, each a lower-case letter, a digit or a separator, where no
/// separator stands first, last, or next to another separator.
pub open spec fn valid_account_name(name: Seq<char>) -> bool {
    &&& MIN_NAME_LEN <= name.len() <= MAX_NAME_LEN
    &&& forall|i: int|
        0 <= i < name.len() ==> is_name_char(#[trigger] name[i]) || is_separator(name[i])
    &&& !is_separator(name[0])
    &&& !is_separator(name[name.len() - 1])
    &&& forall|i: int|
        0 <= i < name.len() - 1 ==> !(is_separator(#[trigger] name[i]) && is_separator(
            name[i + 1],
        ))
}

/// `near_sdk::ParseAccountIdError`, carried through as an opaque value.
#[verifier::external_type_specification]
#[verifier::external_body]
pub struct ExParseAccountIdError(near_sdk::ParseAccountIdError);

/// Runs `near_sdk::AccountId`'s `FromStr` on `name` and hands back the text of
/// the account id it built.
///
/// Trusted: the parse succeeds exactly on the names that satisfy
/// [`valid_account_name`], and the id it builds holds `name` unchanged.
#[verifier::external_body]
fn parse_account_name(name: &str) -> (parsed: Result<String, near_sdk::ParseAccountIdError>)
    ensures
        parsed is Ok <==> valid_account_name(name@),
        parsed matches Ok(text) ==> text@ == name@,
{
    name.parse::<near_sdk::AccountId>().map(String::from)
}

/// The identity of an external call target: a validated account name.
///
/// Identities are opaque to the orchestration logic, which only ever compares
/// them for equality.
#[derive(Debug, PartialEq, Eq)]
pub struct ExternalIdentity {
    name: String,
}

impl View for ExternalIdentity {
    type V = Seq<char>;

    closed spec fn view(&self) -> Seq<char> {
        self.name@
    }
}

impl ExternalIdentity {
    #[verifier::type_invariant]
    spec fn well_formed(&self) -> bool {
        valid_account_name(self.name@)
    }

    /// Validates `name` and wraps it.
    pub fn parse(name: &str) -> (result: Result<ExternalIdentity, OrchestrationError>)
        ensures
            result is Ok <==> valid_account_name(name@),
            result matches Ok(identity) ==> identity@ == name@,
            result matches Err(error) ==> error == OrchestrationError::InvalidTarget,
    {
        match parse_account_name(name) {
            Ok(text) => Ok(ExternalIdentity { name: text }),
            Err(_) => Err(OrchestrationError::InvalidTarget),
        }
    }

    /// The account name, which is always a valid one.
    pub fn as_str(&self) -> (name: &str)
        ensures
            name@ == self@,
            valid_account_name(self@),
    {
        proof {
            use_type_invariant(self);
        }
        self.name.as_str()
    }

    /// Whether both identities name the same account.
    pub fn same_as(&self, other: &ExternalIdentity) -> (same: bool)
        ensures
            same == (self@ == other@),
    {
        self.name == other.name
    }
}

impl Clone for ExternalIdentity {
    fn clone(&self) -> (copy: Self)
        ensures
            copy@ == self@,
    {
        proof {
            use_type_invariant(self);
        }
        ExternalIdentity { name: self.name.clone() }
    }
}

} // verus!
