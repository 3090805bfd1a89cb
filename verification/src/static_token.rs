use vstd::prelude::*;

use crate::error::{ClientError, ErrorModel};
use crate::token::AccessToken;

verus! {

/// An auth provider over a fixed client identifier and a pre-issued access
/// token. It never talks to an authorization server: the token it hands out
/// is the one it was built with, and it cannot refresh.
#[derive(Debug, Clone, PartialEq, Eq)]
pub struct StaticAuthProvider {
    pub client_id: String,
    pub access_token: String,
}

impl StaticAuthProvider {
    pub fn new(client_id: String, access_token: String) -> (p: StaticAuthProvider)
        ensures
            p.client_id == client_id,
            p.access_token == access_token,
    {
        StaticAuthProvider { client_id, access_token }
    }

    pub fn get_client_id(&self) -> (r: Option<String>)
        ensures
            r matches Some(id) && id@ == self.client_id@,
    {
        Some(self.client_id.clone())
    }

    /// A static provider can never refresh.
    pub fn can_refresh(&self) -> (b: bool)
        ensures
            !b,
    {
        false
    }

    /// Hands out the pre-issued token: no refresh token, no expiry, no issue
    /// time, and whatever scopes were requested, unvalidated. Performs no
    /// network call.
    pub fn get_token(&self, scopes: Option<Vec<String>>) -> (t: AccessToken)
        ensures
            t.access_token@ == self.access_token@,
            t.refresh_token is None,
            t.expires_in is None,
            t.issued_at is None,
            t.scopes == scopes,
    {
        AccessToken {
            access_token: self.access_token.clone(),
            refresh_token: None,
            expires_in: None,
            scopes,
            issued_at: None,
        }
    }

    /// Refreshing is unsupported: the call always fails, the token is never
    /// mutated, and no network call is performed.
    pub fn refresh_token(
        &self,
        access_token: &mut AccessToken,
        scopes: Option<Vec<String>>,
    ) -> (r: Result<(), ClientError>)
        ensures
            *final(access_token) == *old(access_token),
            r matches Err(e) && e@ == ErrorModel::Auth(
                "refresh is unsupported for a static auth provider"@,
            ),
    {
        let _ = scopes;
        Err(ClientError::Auth(
            "refresh is unsupported for a static auth provider".to_owned(),
        ))
    }
}

} // verus!
