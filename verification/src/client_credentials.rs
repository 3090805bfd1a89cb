use vstd::prelude::*;

use crate::endpoint::{auth_root, resolved_url, ApiEndpoint};
use crate::error::{ClientError, ErrorModel};

verus! {

/// An auth provider for the OAuth2 client-credentials grant: a client
/// identifier and secret, and the authorization server's `authorize` and
/// `token` URLs, resolved once at construction. The network exchanges
/// themselves are performed by the embedding transport; this type carries
/// everything those exchanges need, and it alone decides that refreshing is
/// supported.
#[derive(Debug, Clone, PartialEq, Eq)]
pub struct ClientCredentialsAuthProvider {
    pub client_id: String,
    pub client_secret: String,
    pub auth_url: String,
    pub token_url: String,
}

impl ClientCredentialsAuthProvider {
    /// Resolves the `authorize` and `token` paths under the authorization
    /// server's root; fails at construction, not first use, where either
    /// cannot be resolved.
    pub fn new(client_id: String, client_secret: String) -> (r: Result<
        ClientCredentialsAuthProvider,
        ClientError,
    >)
        ensures
            match r {
                Ok(p) => {
                    &&& p.client_id == client_id
                    &&& p.client_secret == client_secret
                    &&& resolved_url(auth_root(), "authorize"@) == Some(p.auth_url@)
                    &&& resolved_url(auth_root(), "token"@) == Some(p.token_url@)
                },
                Err(e) => {
                    &&& resolved_url(auth_root(), "authorize"@) is None || resolved_url(
                        auth_root(),
                        "token"@,
                    ) is None
                    &&& e@ is Configuration
                },
            },
    {
        let auth_url = match ApiEndpoint::Auth.get_endpoint("authorize") {
            Ok(u) => u,
            Err(e) => {
                return Err(e);
            },
        };
        let token_url = match ApiEndpoint::Auth.get_endpoint("token") {
            Ok(u) => u,
            Err(e) => {
                return Err(e);
            },
        };
        Ok(ClientCredentialsAuthProvider { client_id, client_secret, auth_url, token_url })
    }

    pub fn get_client_id(&self) -> (r: Option<String>)
        ensures
            r matches Some(id) && id@ == self.client_id@,
    {
        Some(self.client_id.clone())
    }

    /// A client-credentials provider can refresh, given a refresh token.
    pub fn can_refresh(&self) -> (b: bool)
        ensures
            b,
    {
        true
    }
}

} // verus!
