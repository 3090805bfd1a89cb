use vstd::prelude::*;

verus! {

/// A bearer token together with its optional refresh token, lifetime,
/// granted scopes, and issue time.
///
/// Times are seconds on the caller's clock: `issued_at` is the reading at
/// which the token was issued, and callers later pass a reading `now` to ask
/// whether the token has expired. A token without `issued_at` or without
/// `expires_in` is treated as never expiring, and one without
/// `refresh_token` can never be refreshed.
#[derive(Debug, Clone, PartialEq, Eq)]
pub struct AccessToken {
    pub access_token: String,
    pub refresh_token: Option<String>,
    /// Lifetime in seconds, counted from `issued_at`.
    pub expires_in: Option<u64>,
    pub scopes: Option<Vec<String>>,
    /// The clock reading at which the token was issued.
    pub issued_at: Option<u64>,
}

impl AccessToken {
    /// An empty token: no bearer string, nothing else set.
    pub fn new() -> (t: AccessToken)
        ensures
            t.access_token@.len() == 0,
            t.refresh_token is None,
            t.expires_in is None,
            t.scopes is None,
            t.issued_at is None,
    {
        AccessToken {
            access_token: String::new(),
            refresh_token: None,
            expires_in: None,
            scopes: None,
            issued_at: None,
        }
    }
}

/// Seconds elapsed between the issue reading and `now`, clamped at zero as a
/// monotonic clock would report it.
pub open spec fn elapsed_seconds(issued_at: u64, now: u64) -> nat {
    if now >= issued_at {
        (now - issued_at) as nat
    } else {
        0
    }
}

/// The refresh gate: a token is due for refresh exactly when a refresh token
/// is present, both an issue reading and a lifetime are present, and at
/// least the lifetime has elapsed.
pub open spec fn spec_needs_refresh(token: AccessToken, now: u64) -> bool {
    &&& token.refresh_token is Some
    &&& token.issued_at is Some
    &&& token.expires_in is Some
    &&& elapsed_seconds(token.issued_at->0, now) >= token.expires_in->0
}

/// Decides whether a token is due for refresh at the clock reading `now`.
///
/// A token with a lifetime but no refresh token is never reported due: the
/// stale token keeps being used, and the server remains the judge of its
/// actual validity.
pub fn needs_refresh(token: &AccessToken, now: u64) -> (b: bool)
    ensures
        b == spec_needs_refresh(*token, now),
{
    if token.refresh_token.is_some() {
        match (&token.issued_at, &token.expires_in) {
            (Some(issued_at), Some(expires_in)) => {
                let elapsed: u64 = if now >= *issued_at {
                    now - *issued_at
                } else {
                    0
                };
                elapsed >= *expires_in
            },
            _ => false,
        }
    } else {
        false
    }
}

/// The plain shape of the authorization server's token response: the fields
/// of a standard OAuth2 token response that this library reads.
#[derive(Debug, Clone, PartialEq, Eq)]
pub struct TokenGrant {
    pub access_token: String,
    pub refresh_token: Option<String>,
    /// Lifetime in seconds.
    pub expires_in: Option<u64>,
    /// The scopes the server granted.
    pub scopes: Option<Vec<String>>,
}

/// The token that a grant yields when it is received at the clock reading
/// `now`: the grant's fields, with `now` recorded as the issue time.
pub open spec fn token_of_grant(grant: TokenGrant, now: u64) -> AccessToken {
    AccessToken {
        access_token: grant.access_token,
        refresh_token: grant.refresh_token,
        expires_in: grant.expires_in,
        scopes: grant.scopes,
        issued_at: Some(now),
    }
}

/// Builds the access token that a freshly received grant yields, recording
/// `now` as its issue time.
pub fn token_from_grant(grant: TokenGrant, now: u64) -> (t: AccessToken)
    ensures
        t == token_of_grant(grant, now),
{
    AccessToken {
        access_token: grant.access_token,
        refresh_token: grant.refresh_token,
        expires_in: grant.expires_in,
        scopes: grant.scopes,
        issued_at: Some(now),
    }
}

/// Overwrites a cached token in place with the outcome of a refresh grant
/// received at the clock reading `now`. Every field is replaced; nothing of
/// the old token survives.
pub fn apply_grant(token: &mut AccessToken, grant: TokenGrant, now: u64)
    ensures
        *final(token) == token_of_grant(grant, now),
{
    token.access_token = grant.access_token;
    token.refresh_token = grant.refresh_token;
    token.expires_in = grant.expires_in;
    token.scopes = grant.scopes;
    token.issued_at = Some(now);
}

} // verus!
