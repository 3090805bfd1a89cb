use vstd::prelude::*;

verus! {

/// The failure of a client operation, naming the stage at which it failed:
/// construction, auth, transport, or decode. No stage ever swallows or
/// downgrades an error raised by an earlier one.
#[derive(Debug, Clone, PartialEq, Eq)]
pub enum ClientError {
    /// No usable auth provider could be constructed, or a resource path
    /// could not be joined to an endpoint root.
    Configuration(String),
    /// The authorization server rejected a token exchange or refresh, or a
    /// refresh was invoked on a provider that cannot refresh.
    Auth(String),
    /// A network-level send failure.
    Transport(String),
    /// A response body that did not parse as the expected shape.
    Decode(String),
}

/// The mathematical shape of a `ClientError`: the same four stages, each
/// carrying its message as a sequence of characters.
pub ghost enum ErrorModel {
    Configuration(Seq<char>),
    Auth(Seq<char>),
    Transport(Seq<char>),
    Decode(Seq<char>),
}

impl View for ClientError {
    type V = ErrorModel;

    open spec fn view(&self) -> ErrorModel {
        match self {
            ClientError::Configuration(m) => ErrorModel::Configuration(m@),
            ClientError::Auth(m) => ErrorModel::Auth(m@),
            ClientError::Transport(m) => ErrorModel::Transport(m@),
            ClientError::Decode(m) => ErrorModel::Decode(m@),
        }
    }
}

impl ClientError {
    /// The error's message, without the stage.
    pub fn message(&self) -> (m: &String)
        ensures
            match self@ {
                ErrorModel::Configuration(s) => m@ == s,
                ErrorModel::Auth(s) => m@ == s,
                ErrorModel::Transport(s) => m@ == s,
                ErrorModel::Decode(s) => m@ == s,
            },
    {
        match self {
            ClientError::Configuration(m) => m,
            ClientError::Auth(m) => m,
            ClientError::Transport(m) => m,
            ClientError::Decode(m) => m,
        }
    }
}

} // verus!
