//! Email addresses of users, checked against a pattern before they are kept.
use vstd::prelude::*;

use uuid::Uuid;

verus! {

/// The user id type of the `uuid` crate, carried through unchanged.
#[verifier::external_type_specification]
#[verifier::external_body]
pub struct ExUuid(Uuid);

/// The shape an address must have: letters, an `@`, then two or more groups
/// of letters separated by dots.
pub const EMAIL_PATTERN: &'static str = "^[[:alpha:]]+@[[:alpha:]]+(\\.[[:alpha:]]+)+$";

/// Whether `pattern` is a regular expression that the `regex` crate accepts.
pub uninterp spec fn regex_compiles(pattern: Seq<char>) -> bool;

/// Whether the regular expression `pattern` matches somewhere in `text`.
pub uninterp spec fn regex_matches(pattern: Seq<char>, text: Seq<char>) -> bool;

/// Relies on `regex::Regex::new`, which fails exactly on patterns it does not
/// accept, and on `regex::Regex::is_match`, whose answer depends on the
/// pattern and the text alone.
#[verifier::external_body]
fn pattern_matches(pattern: &str, text: &str) -> (r: Option<bool>)
    ensures
        r is Some <==> regex_compiles(pattern@),
        r matches Some(b) ==> b == regex_matches(pattern@, text@),
{
    match regex::Regex::new(pattern) {
        Ok(re) => Some(re.is_match(text)),
        Err(_) => None,
    }
}

/// An email address of a user.
#[derive(Debug)]
pub struct Email {
    /// The address.
    pub email: String,
    /// Whether the address is shown publicly on the website.
    pub is_visible: bool,
    /// The id of the user that the address belongs to.
    pub user_id: Uuid,
}

impl Email {
    /// A new, hidden address of the user `user_id`, where `email` has the
    /// shape of [`EMAIL_PATTERN`]; none where it does not.
    pub fn new(user_id: Uuid, email: &str) -> (r: Option<Self>)
        ensures
            r is Some <==> regex_compiles(EMAIL_PATTERN@) && regex_matches(EMAIL_PATTERN@, email@),
            r matches Some(e) ==> e.email@ == email@ && !e.is_visible && e.user_id == user_id,
    {
        match pattern_matches(EMAIL_PATTERN, email) {
            Some(true) => Some(Email { email: email.to_owned(), is_visible: false, user_id }),
            _ => None,
        }
    }

    /// The address.
    pub fn address(&self) -> (r: &str)
        ensures
            r@ == self.email@,
    {
        self.email.as_str()
    }
}

} // verus!
