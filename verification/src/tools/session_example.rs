//! A tool that shows who a session belongs to and what is known of the
//! user's account with a third-party provider.
//!
//! Each of its two actions is split like the lookups it rests on: a first
//! call checks the request and hands out the query to put to the store, and
//! a second call writes the answer from what the query came to.

use super::{refusal, refuse, tool_result_view, ToolError, ToolErrorView};
use crate::auth::session_id::is_session_id;
use crate::auth::{AuthQuery, OAuthTokenData, RedisAuthService, SessionQuery};
use crate::clock::Timestamp;
use crate::error::{ErrorKind, ErrorView, ServerError};
use crate::text::{join_strings, joined, views};
use vstd::prelude::*;
use vstd::string::*;

verus! {

/// A request for what is known of a session.
#[derive(Debug, Clone, PartialEq, Eq)]
pub struct SessionInfoRequest {
    /// The session id of an authenticated user.
    pub session_id: String,
}

/// A request for a user's profile with a third-party provider.
#[derive(Debug, Clone, PartialEq, Eq)]
pub struct UserProfileRequest {
    /// The session id of an authenticated user.
    pub session_id: String,
    /// The third-party provider, such as `google` or `github`.
    pub provider: String,
}

/// The provider of a request that names none.
pub fn default_provider() -> (provider: String)
    ensures
        provider@ == "google"@,
{
    String::from_str("google")
}

/// The refusal of a request whose session id has the wrong shape.
pub open spec fn invalid_session_id() -> ToolErrorView {
    refusal(
        "Invalid session ID: "@,
        ErrorView { kind: ErrorKind::InvalidFormat, detail: "Invalid session ID format"@ },
    )
}

/// The refusal of a request whose authentication failed.
pub open spec fn authentication_failed(cause: ErrorView) -> ToolErrorView {
    refusal("Authentication failed: "@, cause)
}

/// The text that reports a session and its user.
pub open spec fn session_info_report(session_id: Seq<char>, user_id: Seq<char>) -> Seq<char> {
    "Session Information:\n\u{2022} Session ID: "@ + session_id + "\n\u{2022} User ID: "@ + user_id
        + "\n\u{2022} Status: Valid\n\u{2022} Authentication: Enabled"@
}

/// How a report calls a token that has ended, and one that has not.
pub open spec fn token_status(expired: bool) -> Seq<char> {
    if expired {
        "Expired"@
    } else {
        "Valid"@
    }
}

/// The text that reports a user's account with a provider. The tokens
/// themselves are not part of it.
pub open spec fn user_profile_report(token: OAuthTokenData, expired: bool) -> Seq<char> {
    "User Profile:\n\u{2022} User ID: "@ + token.user_id@ + "\n\u{2022} Provider: "@
        + token.provider@ + "\n\u{2022} Email: "@ + token.email@ + "\n\u{2022} Display Name: "@
        + token.display_name@ + "\n\u{2022} Provider User ID: "@ + token.provider_user_id@
        + "\n\u{2022} Scopes: "@ + joined(views(token.scopes@), ", "@) + "\n\u{2022} Linked At: "@
        + token.linked_at@ + "\n\u{2022} Token Status: "@ + token_status(expired)
        + "\n\u{2022} Authentication: Enabled"@
}

/// What a request for a user's profile is answered with at the instant
/// `now`, given what the authentication came to: the report of the account,
/// which says whether the token has ended at `now`, or the refusal for the
/// failure of the authentication.
pub open spec fn profile_answer(
    authenticated: Result<OAuthTokenData, ServerError>,
    now: Timestamp,
) -> Result<Seq<char>, ToolErrorView> {
    match authenticated {
        Ok(token) => Ok(user_profile_report(token, token.expired_at(now))),
        Err(cause) => Err(authentication_failed(cause@)),
    }
}

/// A tool that answers from the sessions and accounts of a Redis store.
#[derive(Clone)]
pub struct SessionExampleTool {
    auth_service: RedisAuthService,
}

impl SessionExampleTool {
    /// The service that the tool authenticates with.
    pub closed spec fn service(&self) -> RedisAuthService {
        self.auth_service
    }

    /// A tool that authenticates with `auth_service`.
    pub fn new(auth_service: RedisAuthService) -> (tool: Self)
        ensures
            tool.service() == auth_service,
    {
        SessionExampleTool { auth_service }
    }

    /// The service that the tool authenticates with.
    pub fn auth_service(&self) -> (service: &RedisAuthService)
        ensures
            *service == self.service(),
    {
        &self.auth_service
    }

    /// Begins the answer to a request for a session: a session id of the
    /// wrong shape is refused, and for any other the session is looked up.
    pub fn get_session_info(&self, req: &SessionInfoRequest) -> (r: Result<SessionQuery, ToolError>)
        ensures
            r is Ok <==> is_session_id(req.session_id@),
            r matches Ok(query) ==> query.id() == req.session_id@,
            r matches Err(e) ==> e@ == invalid_session_id(),
    {
        match RedisAuthService::validate_session_format(req.session_id.as_str()) {
            Err(cause) => {
                return Err(refuse("Invalid session ID: ", &cause));
            },
            Ok(_) => {},
        }
        match self.auth_service.resolve_session(req.session_id.as_str()) {
            Ok(query) => Ok(query),
            Err(cause) => Err(refuse("Authentication failed: ", &cause)),
        }
    }

    /// Ends the answer to a request for a session, given what the lookup
    /// came to: the report of the session and its user, or the refusal for
    /// the failure of the lookup.
    pub fn session_info(req: &SessionInfoRequest, resolved: &Result<String, ServerError>) -> (r:
        Result<String, ToolError>)
        ensures
            tool_result_view(r) == match *resolved {
                Ok(user_id) => Ok::<Seq<char>, ToolErrorView>(
                    session_info_report(req.session_id@, user_id@),
                ),
                Err(cause) => Err::<Seq<char>, ToolErrorView>(authentication_failed(cause@)),
            },
    {
        match resolved {
            Ok(user_id) => {
                let mut text = String::from_str("Session Information:\n\u{2022} Session ID: ");
                text.append(req.session_id.as_str());
                text.append("\n\u{2022} User ID: ");
                text.append(user_id.as_str());
                text.append("\n\u{2022} Status: Valid\n\u{2022} Authentication: Enabled");
                Ok(text)
            },
            Err(cause) => Err(refuse("Authentication failed: ", cause)),
        }
    }

    /// Begins the answer to a request for a user's profile: a session id
    /// of the wrong shape is refused, and for any other the authentication
    /// for the provider's token begins.
    pub fn get_user_profile(&self, req: &UserProfileRequest) -> (r: Result<AuthQuery, ToolError>)
        ensures
            r is Ok <==> is_session_id(req.session_id@),
            r matches Ok(query) ==> query.id() == req.session_id@ && query.provider_name()
                == req.provider@,
            r matches Err(e) ==> e@ == invalid_session_id(),
    {
        match RedisAuthService::validate_session_format(req.session_id.as_str()) {
            Err(cause) => {
                return Err(refuse("Invalid session ID: ", &cause));
            },
            Ok(_) => {},
        }
        match self.auth_service.authenticate(req.session_id.as_str(), req.provider.as_str()) {
            Ok(query) => Ok(query),
            Err(cause) => Err(refuse("Authentication failed: ", &cause)),
        }
    }

    /// The text that reports a user's account with a provider.
    pub fn profile_text(token: &OAuthTokenData, expired: bool) -> (text: String)
        ensures
            text@ == user_profile_report(*token, expired),
    {
        let mut text = String::from_str("User Profile:\n\u{2022} User ID: ");
        text.append(token.user_id.as_str());
        text.append("\n\u{2022} Provider: ");
        text.append(token.provider.as_str());
        text.append("\n\u{2022} Email: ");
        text.append(token.email.as_str());
        text.append("\n\u{2022} Display Name: ");
        text.append(token.display_name.as_str());
        text.append("\n\u{2022} Provider User ID: ");
        text.append(token.provider_user_id.as_str());
        text.append("\n\u{2022} Scopes: ");
        text.append(join_strings(&token.scopes, ", ").as_str());
        text.append("\n\u{2022} Linked At: ");
        text.append(token.linked_at.as_str());
        text.append("\n\u{2022} Token Status: ");
        text.append(
            if expired {
                "Expired"
            } else {
                "Valid"
            },
        );
        text.append("\n\u{2022} Authentication: Enabled");
        text
    }

    /// Ends the answer to a request for a user's profile at the instant
    /// `now`, given what the authentication came to.
    pub fn user_profile_at(authenticated: &Result<OAuthTokenData, ServerError>, now: Timestamp) -> (r:
        Result<String, ToolError>)
        ensures
            tool_result_view(r) == profile_answer(*authenticated, now),
    {
        match authenticated {
            Ok(token) => Ok(Self::profile_text(token, token.is_expired_at(now))),
            Err(cause) => Err(refuse("Authentication failed: ", cause)),
        }
    }

    /// Ends the answer to a request for a user's profile by the system
    /// clock: the answer is the one that `user_profile_at` gives for some
    /// instant.
    pub fn user_profile(authenticated: &Result<OAuthTokenData, ServerError>) -> (r: Result<
        String,
        ToolError,
    >)
        ensures
            exists|now: Timestamp| tool_result_view(r) == profile_answer(*authenticated, now),
    {
        Self::user_profile_at(authenticated, Timestamp::now())
    }
}

} // verus!
