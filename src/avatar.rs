//! Where a user's profile picture is found when they have set none.
use vstd::prelude::*;

use crate::email::Email;
use crate::text::{lower_of, lowercase, trim, trimmed};

verus! {

/// The MD5 digest of a text's UTF-8 bytes, in lowercase hexadecimal.
pub uninterp spec fn md5_hex_of(s: Seq<char>) -> Seq<char>;

/// Relies on `md5::compute` over the text's bytes, and on the digest's
/// `LowerHex` format, which writes each of its 16 bytes as two lowercase
/// hexadecimal digits.
#[verifier::external_body]
fn md5_hex(s: &str) -> (r: String)
    ensures
        r@ == md5_hex_of(s@),
        r@.len() == 32,
{
    format!("{:x}", md5::compute(s))
}

/// The address of the Gravatar image service, before the hash.
pub const GRAVATAR_BASE: &'static str = "https://www.gravatar.com/avatar/";

/// The options asked of Gravatar: a generated pattern where the address has
/// no image, 600 pixels wide.
pub const GRAVATAR_OPTIONS: &'static str = "?d=identicon&s=600";

/// The Gravatar image of an email address: the MD5 hash of the address,
/// trimmed and in lowercase, between [`GRAVATAR_BASE`] and
/// [`GRAVATAR_OPTIONS`].
pub open spec fn gravatar_of(email: Seq<char>) -> Seq<char> {
    GRAVATAR_BASE@ + md5_hex_of(lower_of(trimmed(email))) + GRAVATAR_OPTIONS@
}

/// The address of the Gravatar image of an email address.
pub fn gravatar_url(email: &str) -> (r: String)
    ensures
        r@ == gravatar_of(email@),
{
    let lower = lowercase(trim(email));
    let hash = md5_hex(lower.as_str());
    let mut url = String::from_str(GRAVATAR_BASE);
    url.append(hash.as_str());
    url.append(GRAVATAR_OPTIONS);
    url
}

/// Where a user's profile picture is found: the location they set, and else
/// the Gravatar image of their first email address. A user without a
/// location has at least one address.
pub fn picture_url(avi_location: &Option<String>, emails: &Vec<Email>) -> (r: String)
    requires
        avi_location is Some || emails@.len() > 0,
    ensures
        r@ == (match avi_location {
            Some(location) => location@,
            None => gravatar_of(emails@[0].email@),
        }),
{
    match avi_location {
        Some(location) => location.clone(),
        None => gravatar_url(emails[0].email.as_str()),
    }
}

} // verus!
