//! The failures of authentication, and the closed set of kinds that callers
//! tell them apart by.

use vstd::prelude::*;
use vstd::string::*;

verus! {

/// What went wrong, as far as a caller needs to know in order to react.
#[derive(Clone, Copy, Debug, PartialEq, Eq, Structural)]
pub enum ErrorKind {
    /// A credential was rejected for its shape alone, before any lookup.
    InvalidFormat,
    /// A credential did not resolve: unknown, expired or corrupt.
    InvalidCredential,
    /// The backing store could not be reached or did not answer.
    StoreUnavailable,
    /// The provider refuses every credential.
    AuthDisabled,
}

/// A failure with its detail text. There is one variant for each kind.
#[derive(Clone, Debug, PartialEq, Eq)]
pub enum ServerError {
    InvalidFormat(String),
    InvalidCredential(String),
    StoreUnavailable(String),
    AuthDisabled,
}

/// A failure as contracts see it: its kind and its detail text.
pub struct ErrorView {
    pub kind: ErrorKind,
    pub detail: Seq<char>,
}

/// The detail text of a refusal by a provider that is switched off.
pub open spec fn auth_disabled_detail() -> Seq<char> {
    "Authentication is disabled"@
}

/// The words that introduce the detail in a failure's message.
pub open spec fn kind_prefix(kind: ErrorKind) -> Seq<char> {
    match kind {
        ErrorKind::InvalidFormat => "Authentication error: "@,
        ErrorKind::InvalidCredential => "Authentication error: "@,
        ErrorKind::StoreUnavailable => "Redis error: "@,
        ErrorKind::AuthDisabled => "Authentication error: "@,
    }
}

impl ErrorView {
    /// The full message: the kind's prefix, then the detail.
    pub open spec fn message(self) -> Seq<char> {
        kind_prefix(self.kind) + self.detail
    }
}

impl View for ServerError {
    type V = ErrorView;

    open spec fn view(&self) -> ErrorView {
        match self {
            ServerError::InvalidFormat(d) => ErrorView {
                kind: ErrorKind::InvalidFormat,
                detail: d@,
            },
            ServerError::InvalidCredential(d) => ErrorView {
                kind: ErrorKind::InvalidCredential,
                detail: d@,
            },
            ServerError::StoreUnavailable(d) => ErrorView {
                kind: ErrorKind::StoreUnavailable,
                detail: d@,
            },
            ServerError::AuthDisabled => ErrorView {
                kind: ErrorKind::AuthDisabled,
                detail: auth_disabled_detail(),
            },
        }
    }
}

impl ErrorKind {
    /// Whether a caller may try the same request again later. Only a store
    /// that could not be reached is worth a second try: every other kind is
    /// a definite answer.
    pub open spec fn retryable(self) -> bool {
        self == ErrorKind::StoreUnavailable
    }

    /// The words that introduce the detail in a failure's message.
    pub fn prefix(self) -> (text: &'static str)
        ensures
            text@ == kind_prefix(self),
    {
        match self {
            ErrorKind::InvalidFormat => "Authentication error: ",
            ErrorKind::InvalidCredential => "Authentication error: ",
            ErrorKind::StoreUnavailable => "Redis error: ",
            ErrorKind::AuthDisabled => "Authentication error: ",
        }
    }
}

impl ServerError {
    /// The kind of this failure.
    pub fn kind(&self) -> (kind: ErrorKind)
        ensures
            kind == self@.kind,
    {
        match self {
            ServerError::InvalidFormat(_) => ErrorKind::InvalidFormat,
            ServerError::InvalidCredential(_) => ErrorKind::InvalidCredential,
            ServerError::StoreUnavailable(_) => ErrorKind::StoreUnavailable,
            ServerError::AuthDisabled => ErrorKind::AuthDisabled,
        }
    }

    /// The detail text of this failure, without the kind's prefix.
    pub fn detail(&self) -> (text: String)
        ensures
            text@ == self@.detail,
    {
        match self {
            ServerError::InvalidFormat(d) => d.clone(),
            ServerError::InvalidCredential(d) => d.clone(),
            ServerError::StoreUnavailable(d) => d.clone(),
            ServerError::AuthDisabled => String::from_str("Authentication is disabled"),
        }
    }

    /// The message shown for this failure: the kind's prefix, then the
    /// detail.
    pub fn message(&self) -> (text: String)
        ensures
            text@ == self@.message(),
    {
        let mut text = String::from_str(self.kind().prefix());
        let detail = self.detail();
        text.append(detail.as_str());
        text
    }

    /// Whether a caller may try the same request again later.
    pub fn is_retryable(&self) -> (retry: bool)
        ensures
            retry == self@.kind.retryable(),
    {
        match self {
            ServerError::StoreUnavailable(_) => true,
            _ => false,
        }
    }
}

} // verus!
