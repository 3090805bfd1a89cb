//! A client library core for a cursor-paginated REST API behind OAuth2
//! bearer-token authentication: the token lifecycle (static and
//! client-credentials providers, the refresh gate), the dispatch decisions
//! of an authenticated request (endpoint resolution, auth headers), and the
//! cursor-pagination driver. Every function here carries a contract; the
//! network itself is the embedding application's business.

pub mod client;
pub mod client_credentials;
pub mod clips;
pub mod endpoint;
pub mod error;
pub mod pagination;
pub mod result;
pub mod search;
pub mod static_token;
pub mod token;
pub mod util;

pub use client::{SelectedProvider, TokenCache, TwitchClientBuilder};
pub use client_credentials::ClientCredentialsAuthProvider;
pub use error::ClientError;
pub use static_token::StaticAuthProvider;
pub use token::AccessToken;
