use vstd::prelude::*;
use vstd::string::StringExecFns;

use crate::client_credentials::ClientCredentialsAuthProvider;
use crate::endpoint::{auth_root, resolved_url};
use crate::error::{ClientError, ErrorModel};
use crate::static_token::StaticAuthProvider;
use crate::token::{spec_needs_refresh, token_of_grant, needs_refresh, AccessToken, TokenGrant};

verus! {

/// The auth provider a client is built with: either of the two variants,
/// selected once at construction and immutable thereafter.
#[derive(Debug, Clone, PartialEq, Eq)]
pub enum SelectedProvider {
    Static(StaticAuthProvider),
    ClientCredentials(ClientCredentialsAuthProvider),
}

impl SelectedProvider {
    /// The client identifier the provider was built with.
    pub open spec fn spec_client_id(&self) -> Seq<char> {
        match self {
            SelectedProvider::Static(p) => p.client_id@,
            SelectedProvider::ClientCredentials(p) => p.client_id@,
        }
    }

    /// Only the client-credentials variant can refresh.
    pub open spec fn spec_can_refresh(&self) -> bool {
        self is ClientCredentials
    }

    pub fn get_client_id(&self) -> (r: Option<String>)
        ensures
            r matches Some(id) && id@ == self.spec_client_id(),
    {
        match self {
            SelectedProvider::Static(p) => p.get_client_id(),
            SelectedProvider::ClientCredentials(p) => p.get_client_id(),
        }
    }

    pub fn can_refresh(&self) -> (b: bool)
        ensures
            b == self.spec_can_refresh(),
    {
        match self {
            SelectedProvider::Static(p) => p.can_refresh(),
            SelectedProvider::ClientCredentials(p) => p.can_refresh(),
        }
    }
}

/// Collects the construction inputs of a client: a client identifier, and
/// either a pre-issued access token or a client secret, plus the scopes to
/// request.
#[derive(Debug, Clone, PartialEq, Eq)]
pub struct TwitchClientBuilder {
    pub client_id: Option<String>,
    pub access_token: Option<String>,
    pub client_secret: Option<String>,
    pub scopes: Option<Vec<String>>,
}

impl TwitchClientBuilder {
    pub fn new() -> (b: TwitchClientBuilder)
        ensures
            b.client_id is None,
            b.access_token is None,
            b.client_secret is None,
            b.scopes is None,
    {
        TwitchClientBuilder { client_id: None, access_token: None, client_secret: None, scopes: None }
    }

    pub fn with_client_id(self, client_id: String) -> (b: TwitchClientBuilder)
        ensures
            b.client_id == Some(client_id),
            b.access_token == self.access_token,
            b.client_secret == self.client_secret,
            b.scopes == self.scopes,
    {
        TwitchClientBuilder { client_id: Some(client_id), ..self }
    }

    pub fn with_access_token(self, access_token: String) -> (b: TwitchClientBuilder)
        ensures
            b.access_token == Some(access_token),
            b.client_id == self.client_id,
            b.client_secret == self.client_secret,
            b.scopes == self.scopes,
    {
        TwitchClientBuilder { access_token: Some(access_token), ..self }
    }

    pub fn with_client_secret(self, client_secret: String) -> (b: TwitchClientBuilder)
        ensures
            b.client_secret == Some(client_secret),
            b.client_id == self.client_id,
            b.access_token == self.access_token,
            b.scopes == self.scopes,
    {
        TwitchClientBuilder { client_secret: Some(client_secret), ..self }
    }

    pub fn with_scopes(self, scopes: Vec<String>) -> (b: TwitchClientBuilder)
        ensures
            b.scopes == Some(scopes),
            b.client_id == self.client_id,
            b.access_token == self.access_token,
            b.client_secret == self.client_secret,
    {
        TwitchClientBuilder { scopes: Some(scopes), ..self }
    }

    /// Selects the provider the builder's inputs call for: a static
    /// provider where a pre-issued access token is supplied, a
    /// client-credentials provider where a secret is supplied instead, and
    /// a configuration error where neither can be built. The error comes at
    /// construction and is never retried.
    pub fn select_provider(self) -> (r: Result<SelectedProvider, ClientError>)
        ensures
            (self.client_id is Some && self.access_token is Some) ==> (r matches Ok(p)
                && p matches SelectedProvider::Static(sp) && sp.client_id == self.client_id->0
                && sp.access_token == self.access_token->0),
            (self.client_id is Some && self.access_token is None && self.client_secret is Some)
                ==> match r {
                Ok(p) => {
                    &&& p matches SelectedProvider::ClientCredentials(cp)
                    &&& cp.client_id == self.client_id->0
                    &&& cp.client_secret == self.client_secret->0
                    &&& resolved_url(auth_root(), "authorize"@) == Some(cp.auth_url@)
                    &&& resolved_url(auth_root(), "token"@) == Some(cp.token_url@)
                },
                Err(e) => {
                    &&& resolved_url(auth_root(), "authorize"@) is None || resolved_url(
                        auth_root(),
                        "token"@,
                    ) is None
                    &&& e@ is Configuration
                },
            },
            (self.client_id is None || (self.access_token is None && self.client_secret is None))
                ==> (r matches Err(e) && e@ == ErrorModel::Configuration(
                "Unable to create auth provider!"@,
            )),
    {
        if let Some(client_id) = self.client_id {
            if let Some(access_token) = self.access_token {
                return Ok(SelectedProvider::Static(StaticAuthProvider::new(
                    client_id,
                    access_token,
                )));
            }
            if let Some(client_secret) = self.client_secret {
                return match ClientCredentialsAuthProvider::new(client_id, client_secret) {
                    Ok(p) => Ok(SelectedProvider::ClientCredentials(p)),
                    Err(e) => Err(e),
                };
            }
        }
        Err(ClientError::Configuration("Unable to create auth provider!".to_owned()))
    }
}

/// The headers that a dispatched request carries: always `Accept:
/// application/json`; with a provider configured, additionally the
/// provider's client identifier as an identity header and the cached
/// token's bearer string as the authorization header. Without a provider
/// the request stays anonymous.
pub open spec fn spec_request_headers(provider: Option<SelectedProvider>, token: AccessToken) -> Seq<
    (Seq<char>, Seq<char>),
> {
    let accept = seq![("Accept"@, "application/json"@)];
    match provider {
        None => accept,
        Some(p) => accept + seq![("Client-Id"@, p.spec_client_id())] + seq![
            ("Authorization"@, "Bearer "@ + token.access_token@),
        ],
    }
}

/// A client's single mutable token slot, beside the provider that filled
/// it: every dispatched request reads this cache, and a refresh performed
/// for one request is visible to all later ones.
#[derive(Debug, Clone, PartialEq, Eq)]
pub struct TokenCache {
    pub provider: Option<SelectedProvider>,
    pub token: AccessToken,
}

impl TokenCache {
    pub fn new(provider: Option<SelectedProvider>, token: AccessToken) -> (c: TokenCache)
        ensures
            c.provider == provider,
            c.token == token,
    {
        TokenCache { provider, token }
    }

    /// The refresh decision of a dispatched request, evaluated once, before
    /// the auth headers are read: a refresh is due exactly when a provider
    /// that can refresh is configured and the cached token is due under the
    /// refresh gate. A token with an expiry but no refresh token is never
    /// refreshed; the stale token keeps being used.
    pub fn refresh_due(&self, now: u64) -> (b: bool)
        ensures
            b == (self.provider matches Some(p) && p.spec_can_refresh() && spec_needs_refresh(
                self.token,
                now,
            )),
    {
        match &self.provider {
            Some(p) => p.can_refresh() && needs_refresh(&self.token, now),
            None => false,
        }
    }

    /// Installs the outcome of a refresh grant received at the clock
    /// reading `now` in the cache, in place; the provider is untouched.
    pub fn apply_refresh_grant(&mut self, grant: TokenGrant, now: u64)
        ensures
            final(self).token == token_of_grant(grant, now),
            final(self).provider == old(self).provider,
    {
        crate::token::apply_grant(&mut self.token, grant, now);
    }

    /// Builds the headers of a dispatched request from the cache as it
    /// stands; whether a refresh was due must have been settled first.
    pub fn request_headers(&self) -> (h: Vec<(String, String)>)
        ensures
            h.deep_view() == spec_request_headers(self.provider, self.token),
    {
        let mut headers: Vec<(String, String)> = Vec::new();
        headers.push(("Accept".to_owned(), "application/json".to_owned()));
        if let Some(p) = &self.provider {
            if let Some(id) = p.get_client_id() {
                headers.push(("Client-Id".to_owned(), id));
            }
            let mut bearer = "Bearer ".to_owned();
            bearer.append(self.token.access_token.as_str());
            headers.push(("Authorization".to_owned(), bearer));
        }
        proof {
            assert(headers.deep_view() =~= spec_request_headers(self.provider, self.token));
        }
        headers
    }
}

} // verus!
