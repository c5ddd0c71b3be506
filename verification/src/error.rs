//! The failures a call can report.

use vstd::prelude::*;

verus! {

/// The four classes of failure that a caller can tell apart.
#[derive(Clone, Copy, Debug, PartialEq, Eq, Structural)]
pub enum ErrorKind {
    /// The request never produced an answer: connection, TLS or timeout.
    Transport,
    /// An answer arrived, but its body does not have the expected shape.
    Deserialization,
    /// The service answered and reported a failure of its own.
    Application,
    /// The call itself is malformed; no request was sent.
    Configuration,
}

/// Why a call did not yield a result.
#[derive(Clone, Debug, PartialEq, Eq)]
pub enum ClientError {
    /// The access token holds a byte that no header value may hold.
    InvalidToken,
    /// The request target does not parse as an absolute URL.
    InvalidUrl,
    /// A parameter that the endpoint needs was not supplied.
    MissingParameter,
    /// The network round trip failed; the text says how.
    Transport(String),
    /// The body is not the expected JSON; the text names the mismatch.
    Deserialize(String),
    /// The service answered a read with a failure of its own, in place of
    /// the payload: its code, message and version, as they came.
    Application { code: usize, message: String, version: usize },
}

impl ClientError {
    /// The class of each error.
    pub open spec fn spec_kind(self) -> ErrorKind {
        match self {
            ClientError::InvalidToken => ErrorKind::Configuration,
            ClientError::InvalidUrl => ErrorKind::Configuration,
            ClientError::MissingParameter => ErrorKind::Configuration,
            ClientError::Transport(_) => ErrorKind::Transport,
            ClientError::Deserialize(_) => ErrorKind::Deserialization,
            ClientError::Application { .. } => ErrorKind::Application,
        }
    }

    /// Classifies the error.
    pub fn kind(&self) -> (kind: ErrorKind)
        ensures
            kind == self.spec_kind(),
    {
        match self {
            ClientError::InvalidToken => ErrorKind::Configuration,
            ClientError::InvalidUrl => ErrorKind::Configuration,
            ClientError::MissingParameter => ErrorKind::Configuration,
            ClientError::Transport(_) => ErrorKind::Transport,
            ClientError::Deserialize(_) => ErrorKind::Deserialization,
            ClientError::Application { .. } => ErrorKind::Application,
        }
    }
}

} // verus!
