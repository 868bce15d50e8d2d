//! A tool that performs an action for whoever a credential stands for,
//! with any authentication provider.

use super::{refusal, refuse, ToolError, ToolErrorView};
use crate::auth::{lookup, AuthData, AuthDataView, AuthProvider};
use crate::error::{ErrorKind, ErrorView};
use vstd::prelude::*;
use vstd::string::*;

verus! {

/// A request to perform an action under a credential.
#[derive(Debug, Clone, PartialEq, Eq)]
pub struct AuthenticatedRequest {
    /// An API key, a session id, or whatever the provider takes.
    pub credential: String,
    /// The action to perform.
    pub action: String,
}

/// How the identity was established, as its metadata tell it under
/// `auth_type`.
pub open spec fn auth_type_of(metadata: Seq<(Seq<char>, Seq<char>)>) -> Seq<char> {
    match lookup(metadata, "auth_type"@) {
        Some(auth_type) => auth_type,
        None => "unknown"@,
    }
}

/// The text that reports an action performed for an identity.
pub open spec fn action_report(data: AuthDataView, action: Seq<char>) -> Seq<char> {
    "Authenticated Action:\n\u{2022} User ID: "@ + data.user_id + "\n\u{2022} Action: "@ + action
        + "\n\u{2022} Auth Type: "@ + auth_type_of(data.metadata) + "\n\u{2022} Status: Success"@
}

/// The words before the message of a credential of the wrong shape.
pub open spec fn invalid_credential_step() -> Seq<char> {
    "Invalid credential: "@
}

/// The words before the message of a credential that did not resolve.
pub open spec fn authentication_step() -> Seq<char> {
    "Authentication failed: "@
}

/// The refusal `e` is the one for the failure `cause` of a provider, at the
/// step at which a provider can fail so: at the check of the shape, for a
/// credential whose shape the provider does not accept; or at the lookup,
/// for a credential that stands for nobody or a store that is unavailable.
pub open spec fn refused_for(
    e: ToolErrorView,
    cause: ErrorView,
    accepts_format: bool,
    identity: Option<Seq<char>>,
) -> bool {
    ||| (e == refusal(invalid_credential_step(), cause) && cause.kind == ErrorKind::InvalidFormat
        && !accepts_format)
    ||| (e == refusal(authentication_step(), cause) && (cause.kind == ErrorKind::StoreUnavailable
        || identity is None))
}

/// Writes the text that reports an action performed for an identity.
pub fn action_text(data: &AuthData, action: &str) -> (text: String)
    ensures
        text@ == action_report(data@, action@),
{
    let auth_type = match data.metadata_value("auth_type") {
        Some(auth_type) => auth_type,
        None => String::from_str("unknown"),
    };
    let mut text = String::from_str("Authenticated Action:\n\u{2022} User ID: ");
    text.append(data.user_id.as_str());
    text.append("\n\u{2022} Action: ");
    text.append(action);
    text.append("\n\u{2022} Auth Type: ");
    text.append(auth_type.as_str());
    text.append("\n\u{2022} Status: Success");
    text
}

/// A tool that authenticates with the provider it was made with.
pub struct AuthExampleTool<A: AuthProvider> {
    auth_provider: A,
}

impl<A: AuthProvider> AuthExampleTool<A> {
    /// The provider that the tool authenticates with.
    pub closed spec fn provider(&self) -> A {
        self.auth_provider
    }

    /// A tool that authenticates with `auth_provider`.
    pub fn new(auth_provider: A) -> (tool: Self)
        ensures
            tool.provider() == auth_provider,
    {
        AuthExampleTool { auth_provider }
    }

    /// Performs the action of the request for whoever its credential
    /// stands for.
    ///
    /// The provider checks the credential's shape and then the credential.
    /// Where both pass, the answer reports the action for the user that the
    /// credential stands for. Where one does not, the call is refused as
    /// one with invalid parameters, and the provider's failure says why.
    pub fn authenticated_action(&self, req: &AuthenticatedRequest) -> (r: Result<String, ToolError>)
        ensures
            match r {
                Ok(text) => exists|data: AuthDataView|
                    self.provider().identity_of(req.credential@) == Some(data.user_id) && text@
                        == #[trigger] action_report(data, req.action@),
                Err(e) => exists|cause: ErrorView|
                    #[trigger] refused_for(
                        e@,
                        cause,
                        self.provider().accepts_format(req.credential@),
                        self.provider().identity_of(req.credential@),
                    ),
            },
    {
        match self.auth_provider.validate_credential_format(req.credential.as_str()) {
            Err(cause) => {
                let e = refuse("Invalid credential: ", &cause);
                assert(refused_for(
                    e@,
                    cause@,
                    self.provider().accepts_format(req.credential@),
                    self.provider().identity_of(req.credential@),
                ));
                return Err(e);
            },
            Ok(_) => {},
        }
        match self.auth_provider.authenticate(req.credential.as_str()) {
            Err(cause) => {
                let e = refuse("Authentication failed: ", &cause);
                assert(refused_for(
                    e@,
                    cause@,
                    self.provider().accepts_format(req.credential@),
                    self.provider().identity_of(req.credential@),
                ));
                Err(e)
            },
            Ok(data) => {
                let text = action_text(&data, req.action.as_str());
                Ok(text)
            },
        }
    }
}

} // verus!
