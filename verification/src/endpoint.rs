use vstd::prelude::*;

use crate::error::{ClientError, ErrorModel};

verus! {

/// The base URL of the resource API's endpoint group.
pub open spec fn helix_root() -> Seq<char> {
    "https://api.twitch.tv/helix/"@
}

/// The base URL of the authorization server's endpoint group.
pub open spec fn auth_root() -> Seq<char> {
    "https://id.twitch.tv/oauth2/"@
}

/// The absolute URL that resolving the reference `rel` against the base
/// string `base` yields, by the reference-resolution rules of the WHATWG
/// URL Standard as the url crate implements them, or `None` where `base`
/// does not parse as an absolute URL or the resolution fails. A function of
/// the two strings alone.
pub uninterp spec fn resolved_url(base: Seq<char>, rel: Seq<char>) -> Option<Seq<char>>;

/// Relies on url::Url::parse and url::Url::join: parsing the base and
/// resolving the reference against it follow the WHATWG URL Standard,
/// depend on the two strings alone, and fail exactly where parsing or
/// resolution fails.
#[verifier::external_body]
fn resolve_against(base: &str, rel: &str) -> (r: Option<String>)
    ensures
        match r {
            Some(s) => resolved_url(base@, rel@) == Some(s@),
            None => resolved_url(base@, rel@) is None,
        },
{
    match url::Url::parse(base) {
        Ok(b) => match b.join(rel) {
            Ok(joined) => Some(String::from(joined)),
            Err(_) => None,
        },
        Err(_) => None,
    }
}

/// A named group of API endpoints: the resource API root, the authorization
/// server root, or a caller-supplied custom root.
#[derive(Debug, Clone, PartialEq, Eq)]
pub enum ApiEndpoint {
    Helix,
    Auth,
    Custom(String),
}

impl ApiEndpoint {
    /// The group's base URL.
    pub open spec fn spec_root(&self) -> Seq<char> {
        match self {
            ApiEndpoint::Helix => helix_root(),
            ApiEndpoint::Auth => auth_root(),
            ApiEndpoint::Custom(root) => root@,
        }
    }

    /// The group's base URL, as configured; a custom root is handed back
    /// verbatim, unparsed.
    pub fn root(&self) -> (r: &str)
        ensures
            r@ == self.spec_root(),
    {
        match self {
            ApiEndpoint::Helix => "https://api.twitch.tv/helix/",
            ApiEndpoint::Auth => "https://id.twitch.tv/oauth2/",
            ApiEndpoint::Custom(root) => root.as_str(),
        }
    }

    /// Resolves a resource path against this group's base URL, failing with
    /// a configuration error where the base does not parse or the path
    /// cannot be joined to it.
    pub fn get_endpoint(&self, url: &str) -> (r: Result<String, ClientError>)
        ensures
            match r {
                Ok(s) => resolved_url(self.spec_root(), url@) == Some(s@),
                Err(e) => {
                    &&& resolved_url(self.spec_root(), url@) is None
                    &&& e@ == ErrorModel::Configuration(
                        "could not join the path to the endpoint root"@,
                    )
                },
            },
    {
        match resolve_against(self.root(), url) {
            Some(s) => Ok(s),
            None => Err(ClientError::Configuration(
                "could not join the path to the endpoint root".to_owned(),
            )),
        }
    }
}

} // verus!
