//! Error types of the library.
use vstd::prelude::*;

verus! {

/// A failure to read a scrobble log.
#[derive(Debug)]
pub enum ParserError {
    /// The log could not be read.
    Io(String),
    /// A line of the log is malformed.
    Syntax(String),
    /// The log as a whole is unusable.
    Other(String),
}

impl ParserError {
    /// The text shown for the failure: its class, then its detail.
    pub fn message(&self) -> (r: String)
        ensures
            self matches ParserError::Io(m) ==> r@ == "io error: "@ + m@,
            self matches ParserError::Syntax(m) ==> r@ == "syntax error: "@ + m@,
            self matches ParserError::Other(m) ==> r@ == m@,
    {
        match self {
            ParserError::Io(m) => prefixed("io error: ", m.as_str()),
            ParserError::Syntax(m) => prefixed("syntax error: ", m.as_str()),
            ParserError::Other(m) => m.clone(),
        }
    }
}

fn prefixed(prefix: &str, detail: &str) -> (r: String)
    ensures
        r@ == prefix@ + detail@,
{
    let mut cs = crate::text::chars_of(prefix);
    let mut rest = crate::text::chars_of(detail);
    cs.append(&mut rest);
    crate::text::string_of(&cs)
}

/// A failure of a credential store.
#[derive(Debug)]
pub enum StoreError {
    /// Nothing is stored under the key.
    Missing,
    /// The backend cannot be reached.
    Unavailable(String),
    /// What is stored cannot be read back.
    Serialization(String),
    /// Any other failure of the backend.
    Backend(String),
}

impl StoreError {
    /// A sentence that says what failed.
    pub fn describe(&self) -> (r: String)
        ensures
            self matches StoreError::Unavailable(m) ==> r@ == m@,
            self matches StoreError::Serialization(m) ==> r@ == m@,
            self matches StoreError::Backend(m) ==> r@ == m@,
    {
        match self {
            StoreError::Missing => "nothing stored under the key".to_string(),
            StoreError::Unavailable(m) => m.clone(),
            StoreError::Serialization(m) => m.clone(),
            StoreError::Backend(m) => m.clone(),
        }
    }
}

/// The broad class of an error, as it is shown to a user.
#[derive(Debug, Clone, Copy, PartialEq, Eq, Structural)]
pub enum ErrorKind {
    /// Credentials, sessions and authorization: logging in again may help.
    Auth,
    Io,
    Parse,
    Other,
}

/// Every error that a command can end with.
#[derive(Debug)]
pub enum OnyxError {
    /// No session pointer is stored: nobody is logged in.
    NotLoggedIn,
    /// A session pointer is stored, but its credentials could not be restored.
    RestoreFailed(String),
    /// Any other authentication or session failure.
    Auth(String),
    AuthStore(String),
    SessionStore(String),
    Io(String),
    Serde(String),
    Identity(String),
    OAuthError(String),
    ClientError(String),
    AgentError(String),
    ParserError(String),
    Parse(String),
    Other(String),
}

impl OnyxError {
    pub open spec fn spec_kind(&self) -> ErrorKind {
        match self {
            OnyxError::NotLoggedIn | OnyxError::RestoreFailed(_) | OnyxError::Auth(_)
            | OnyxError::AuthStore(_) | OnyxError::SessionStore(_) | OnyxError::OAuthError(_)
            | OnyxError::AgentError(_) => ErrorKind::Auth,
            OnyxError::Io(_) => ErrorKind::Io,
            OnyxError::ParserError(_) | OnyxError::Parse(_) | OnyxError::Serde(_) => ErrorKind::Parse,
            OnyxError::Identity(_) | OnyxError::ClientError(_) | OnyxError::Other(_) => ErrorKind::Other,
        }
    }

    /// The class under which the error is shown.
    pub fn kind(&self) -> (r: ErrorKind)
        ensures
            r == self.spec_kind(),
    {
        match self {
            OnyxError::NotLoggedIn | OnyxError::RestoreFailed(_) | OnyxError::Auth(_)
            | OnyxError::AuthStore(_) | OnyxError::SessionStore(_) | OnyxError::OAuthError(_)
            | OnyxError::AgentError(_) => ErrorKind::Auth,
            OnyxError::Io(_) => ErrorKind::Io,
            OnyxError::ParserError(_) | OnyxError::Parse(_) | OnyxError::Serde(_) => ErrorKind::Parse,
            OnyxError::Identity(_) | OnyxError::ClientError(_) | OnyxError::Other(_) => ErrorKind::Other,
        }
    }

    /// Whether the user should be told to log in again: only for errors of
    /// the authentication class.
    pub fn suggests_login(&self) -> (r: bool)
        ensures
            r == (self.spec_kind() == ErrorKind::Auth),
    {
        match self.kind() {
            ErrorKind::Auth => true,
            _ => false,
        }
    }
}

} // verus!
