//! The GitHub identity provider.
use vstd::prelude::*;

verus! {

/// The GitHub OAuth2 identity provider.
pub struct GitHubOauth;

impl GitHubOauth {
    /// The name of the service, as it stands in URLs and cookies.
    pub fn service_name() -> (r: &'static str)
        ensures
            r@ == "github"@,
    {
        "github"
    }

    /// The scopes asked of GitHub: reading the user's public profile.
    pub fn scopes() -> (r: Vec<String>)
        ensures
            r@.len() == 1,
            r@[0]@ == "read:user"@,
    {
        let mut v: Vec<String> = Vec::new();
        v.push("read:user".to_owned());
        v
    }
}

} // verus!
