//! The provider that resolves session ids, and a user's linked third-party
//! accounts, through records in a Redis store.
//!
//! Reading the store is left to the caller. Each lookup is therefore split
//! in two: a first call checks the request and hands out a query, which
//! names the key to read, and a second call on the query decides from what
//! the store returned.

use super::records::{OAuthTokenData, SessionData};
use super::session_id::{is_session_id, is_valid_session_id};
use super::{AuthData, AuthDataView};
use crate::clock::Timestamp;
use crate::error::{ErrorKind, ErrorView, ServerError};
use vstd::prelude::*;
use vstd::string::*;

verus! {

/// `redis::Client`, which holds where the store is and how to reach it.
/// Nothing of what it holds is visible here.
#[verifier::external_type_specification]
#[verifier::external_body]
pub struct ExRedisClient(redis::Client);

/// `redis::RedisError`, the error of every operation of the `redis` crate.
/// Nothing of what it holds is visible here.
#[verifier::external_type_specification]
#[verifier::external_body]
pub struct ExRedisError(redis::RedisError);

/// What came of reading one record from the store.
pub enum Fetched<T> {
    /// The store could not be reached. The text says why.
    ConnectFailed(String),
    /// The store was reached and the read failed. The text says why.
    ReadFailed(String),
    /// The store holds nothing under the key.
    Missing,
    /// The store holds something under the key that is not a record of the
    /// kind asked for. The text says why.
    Malformed(String),
    /// The record.
    Found(T),
}

/// The key under which the store holds the record of a session.
pub open spec fn session_key_of(session_id: Seq<char>) -> Seq<char> {
    "mcp_session:"@ + session_id
}

/// The key under which the store holds a user's account with a provider.
pub open spec fn token_key_of(user_id: Seq<char>, provider: Seq<char>) -> Seq<char> {
    "linked_account:"@ + user_id + ":"@ + provider
}

/// The failure for a session id of the wrong shape, met during a lookup.
pub open spec fn malformed_session_id() -> ErrorView {
    ErrorView { kind: ErrorKind::InvalidCredential, detail: "Invalid session ID format"@ }
}

/// The failure for a store that could not be reached.
pub open spec fn connect_failure(why: Seq<char>) -> ErrorView {
    ErrorView { kind: ErrorKind::StoreUnavailable, detail: "Failed to connect to Redis: "@ + why }
}

/// What a session lookup comes to, given what the store returned: the
/// user of the session, or the failure.
///
/// A store that could not be reached or read is `StoreUnavailable`. A
/// session that is not there, the store having dropped it when it ended or
/// never having had it, and a record that cannot be read are both
/// `InvalidCredential`.
pub open spec fn session_outcome(fetched: Fetched<SessionData>) -> Result<Seq<char>, ErrorView> {
    match fetched {
        Fetched::ConnectFailed(why) => Err(connect_failure(why@)),
        Fetched::ReadFailed(why) => Err(
            ErrorView {
                kind: ErrorKind::StoreUnavailable,
                detail: "Failed to get session: "@ + why@,
            },
        ),
        Fetched::Missing => Err(
            ErrorView {
                kind: ErrorKind::InvalidCredential,
                detail: "Session not found or expired"@,
            },
        ),
        Fetched::Malformed(why) => Err(
            ErrorView {
                kind: ErrorKind::InvalidCredential,
                detail: "Invalid session data: "@ + why@,
            },
        ),
        Fetched::Found(record) => Ok(record.user_id@),
    }
}

/// What a lookup of a linked account comes to at the instant `now`, given
/// what the store returned: the record, or the failure.
///
/// A record whose token has ended at `now`, or whose end cannot be read,
/// is refused like a record that is not there.
pub open spec fn token_outcome(fetched: Fetched<OAuthTokenData>, now: Timestamp) -> Result<
    OAuthTokenData,
    ErrorView,
> {
    match fetched {
        Fetched::ConnectFailed(why) => Err(connect_failure(why@)),
        Fetched::ReadFailed(why) => Err(
            ErrorView {
                kind: ErrorKind::StoreUnavailable,
                detail: "Failed to get OAuth token: "@ + why@,
            },
        ),
        Fetched::Missing => Err(
            ErrorView { kind: ErrorKind::InvalidCredential, detail: "OAuth token not found"@ },
        ),
        Fetched::Malformed(why) => Err(
            ErrorView {
                kind: ErrorKind::InvalidCredential,
                detail: "Invalid OAuth token data: "@ + why@,
            },
        ),
        Fetched::Found(record) => if record.expired_at(now) {
            Err(ErrorView { kind: ErrorKind::InvalidCredential, detail: "OAuth token expired"@ })
        } else {
            Ok(record)
        },
    }
}

/// What authentication for a provider's token comes to: the session is
/// resolved first, and its user's account is looked up only if that
/// succeeds.
pub open spec fn authenticate_outcome(
    session_id: Seq<char>,
    session: Fetched<SessionData>,
    token: Fetched<OAuthTokenData>,
    now: Timestamp,
) -> Result<OAuthTokenData, ErrorView> {
    if !is_session_id(session_id) {
        Err(malformed_session_id())
    } else {
        match session_outcome(session) {
            Ok(_) => token_outcome(token, now),
            Err(failure) => Err(failure),
        }
    }
}

/// The identity that a session stands for: its user, with the session id
/// and the kind of authentication as metadata.
pub open spec fn session_identity(session_id: Seq<char>, user_id: Seq<char>) -> AuthDataView {
    AuthDataView {
        user_id,
        metadata: seq![("auth_type"@, "redis_session"@), ("session_id"@, session_id)],
    }
}

/// A text made of a fixed beginning and a detail.
fn with_detail(beginning: &str, detail: &String) -> (text: String)
    ensures
        text@ == beginning@ + detail@,
{
    let mut text = String::from_str(beginning);
    text.append(detail.as_str());
    text
}

/// A session lookup that waits for the store: the session id has the right
/// shape, and the record under `key` decides.
pub struct SessionQuery {
    session_id: String,
}

impl SessionQuery {
    #[verifier::type_invariant]
    spec fn well_formed(self) -> bool {
        is_session_id(self.session_id@)
    }

    /// The session id that is looked up.
    pub closed spec fn id(&self) -> Seq<char> {
        self.session_id@
    }

    /// The key to read from the store.
    pub fn key(&self) -> (key: String)
        ensures
            key@ == session_key_of(self.id()),
            is_session_id(self.id()),
    {
        proof {
            use_type_invariant(self);
        }
        with_detail("mcp_session:", &self.session_id)
    }

    /// Decides the lookup from what the store returned under `key`: the
    /// user of the session, or the failure.
    pub fn resolve(&self, fetched: Fetched<SessionData>) -> (r: Result<String, ServerError>)
        ensures
            match r {
                Ok(user_id) => session_outcome(fetched) == Ok::<Seq<char>, ErrorView>(user_id@),
                Err(e) => session_outcome(fetched) == Err::<Seq<char>, ErrorView>(e@),
            },
    {
        match fetched {
            Fetched::ConnectFailed(why) => Err(
                ServerError::StoreUnavailable(with_detail("Failed to connect to Redis: ", &why)),
            ),
            Fetched::ReadFailed(why) => Err(
                ServerError::StoreUnavailable(with_detail("Failed to get session: ", &why)),
            ),
            Fetched::Missing => Err(
                ServerError::InvalidCredential(String::from_str("Session not found or expired")),
            ),
            Fetched::Malformed(why) => Err(
                ServerError::InvalidCredential(with_detail("Invalid session data: ", &why)),
            ),
            Fetched::Found(record) => Ok(record.user_id),
        }
    }

    /// Decides the lookup as `resolve` does, and on success names the
    /// identity that the session stands for.
    pub fn identity(&self, fetched: Fetched<SessionData>) -> (r: Result<AuthData, ServerError>)
        ensures
            match r {
                Ok(data) => session_outcome(fetched) == Ok::<Seq<char>, ErrorView>(data@.user_id)
                    && data@ == session_identity(self.id(), data@.user_id),
                Err(e) => session_outcome(fetched) == Err::<Seq<char>, ErrorView>(e@),
            },
    {
        match self.resolve(fetched) {
            Ok(user_id) => {
                let mut metadata: Vec<(String, String)> = Vec::new();
                metadata.push((String::from_str("auth_type"), String::from_str("redis_session")));
                metadata.push((String::from_str("session_id"), self.session_id.clone()));
                let data = AuthData { user_id, metadata };
                assert(data@.metadata =~= session_identity(self.id(), data@.user_id).metadata);
                Ok(data)
            },
            Err(e) => Err(e),
        }
    }
}

/// A lookup of a user's account with a provider that waits for the store:
/// the record under `key` decides.
pub struct TokenQuery {
    user_id: String,
    provider: String,
}

impl TokenQuery {
    /// The user whose account is looked up.
    pub closed spec fn user(&self) -> Seq<char> {
        self.user_id@
    }

    /// The third-party provider of the account.
    pub closed spec fn provider_name(&self) -> Seq<char> {
        self.provider@
    }

    /// The key to read from the store.
    pub fn key(&self) -> (key: String)
        ensures
            key@ == token_key_of(self.user(), self.provider_name()),
    {
        let mut key = String::from_str("linked_account:");
        key.append(self.user_id.as_str());
        key.append(":");
        key.append(self.provider.as_str());
        key
    }

    /// Decides the lookup at the instant `now` from what the store returned
    /// under `key`: the record, or the failure.
    pub fn resolve_at(&self, fetched: Fetched<OAuthTokenData>, now: Timestamp) -> (r: Result<
        OAuthTokenData,
        ServerError,
    >)
        ensures
            match r {
                Ok(record) => token_outcome(fetched, now) == Ok::<OAuthTokenData, ErrorView>(
                    record,
                ),
                Err(e) => token_outcome(fetched, now) == Err::<OAuthTokenData, ErrorView>(e@),
            },
    {
        match fetched {
            Fetched::ConnectFailed(why) => Err(
                ServerError::StoreUnavailable(with_detail("Failed to connect to Redis: ", &why)),
            ),
            Fetched::ReadFailed(why) => Err(
                ServerError::StoreUnavailable(with_detail("Failed to get OAuth token: ", &why)),
            ),
            Fetched::Missing => Err(
                ServerError::InvalidCredential(String::from_str("OAuth token not found")),
            ),
            Fetched::Malformed(why) => Err(
                ServerError::InvalidCredential(with_detail("Invalid OAuth token data: ", &why)),
            ),
            Fetched::Found(record) => {
                if record.is_expired_at(now) {
                    Err(ServerError::InvalidCredential(String::from_str("OAuth token expired")))
                } else {
                    Ok(record)
                }
            },
        }
    }

    /// Decides the lookup by the system clock. Whatever the clock shows,
    /// the answer is the one that `resolve_at` gives for some instant: a
    /// failure of the store, a missing or unreadable record and a record
    /// without a readable end are refused, and a record that is returned is
    /// the one that the store held.
    pub fn resolve(&self, fetched: Fetched<OAuthTokenData>) -> (r: Result<
        OAuthTokenData,
        ServerError,
    >)
        ensures
            exists|now: Timestamp|
                match r {
                    Ok(record) => #[trigger] token_outcome(fetched, now) == Ok::<
                        OAuthTokenData,
                        ErrorView,
                    >(record),
                    Err(e) => token_outcome(fetched, now) == Err::<OAuthTokenData, ErrorView>(e@),
                },
    {
        self.resolve_at(fetched, Timestamp::now())
    }
}

/// An authentication for a provider's token that waits for the store: the
/// session id has the right shape, and the session record under `key`
/// decides whose account is looked up next.
pub struct AuthQuery {
    session: SessionQuery,
    provider: String,
}

impl AuthQuery {
    /// The session id that is looked up.
    pub closed spec fn id(&self) -> Seq<char> {
        self.session.id()
    }

    /// The third-party provider whose token is wanted.
    pub closed spec fn provider_name(&self) -> Seq<char> {
        self.provider@
    }

    /// The key to read from the store.
    pub fn key(&self) -> (key: String)
        ensures
            key@ == session_key_of(self.id()),
            is_session_id(self.id()),
    {
        self.session.key()
    }

    /// Decides the first half from what the store returned under `key`. On
    /// success the lookup of the account of the session's user with the
    /// provider is next. A failure ends the authentication.
    pub fn resolve(self, fetched: Fetched<SessionData>) -> (r: Result<TokenQuery, ServerError>)
        ensures
            match r {
                Ok(next) => session_outcome(fetched) == Ok::<Seq<char>, ErrorView>(next.user())
                    && next.provider_name() == self.provider_name(),
                Err(e) => session_outcome(fetched) == Err::<Seq<char>, ErrorView>(e@),
            },
    {
        match self.session.resolve(fetched) {
            Ok(user_id) => Ok(TokenQuery { user_id, provider: self.provider }),
            Err(e) => Err(e),
        }
    }
}

/// Authentication by session id, with the sessions and the linked accounts
/// held in a Redis store.
#[derive(Clone)]
pub struct RedisAuthService {
    redis_client: redis::Client,
}

/// `redis::Client` is cloned with the service that holds it. Nothing is
/// claimed of the copy.
pub assume_specification[ <redis::Client as Clone>::clone ](client: &redis::Client) -> (copy:
    redis::Client)
;

/// Calls `redis::Client::open` on a URL. The call reads the URL and opens
/// no connection. Nothing is claimed of its result: which URLs it accepts
/// depends on the platform and on how the crate was built.
#[verifier::external_body]
fn open_client(redis_url: &str) -> (opened: Result<redis::Client, redis::RedisError>) {
    redis::Client::open(redis_url)
}

/// The text that `redis::RedisError` shows through `Display`. Nothing is
/// claimed of it.
#[verifier::external_body]
fn redis_error_text(error: &redis::RedisError) -> (text: String) {
    format!("{}", error)
}

impl RedisAuthService {
    /// The client that the service holds.
    pub closed spec fn held_client(&self) -> redis::Client {
        self.redis_client
    }

    /// A service for the store at `redis_url`. No connection is opened. A
    /// URL that the client refuses is reported as `StoreUnavailable`.
    pub fn new(redis_url: &str) -> (r: Result<Self, ServerError>)
        ensures
            r matches Err(e) ==> e@.kind == ErrorKind::StoreUnavailable,
    {
        RedisAuthService::from_opened(open_client(redis_url))
    }

    /// A service around a client, if there is one, and else the reason why
    /// there is none as a `StoreUnavailable` failure.
    pub fn from_opened(opened: Result<redis::Client, redis::RedisError>) -> (r: Result<
        Self,
        ServerError,
    >)
        ensures
            match r {
                Ok(service) => opened == Ok::<redis::Client, redis::RedisError>(
                    service.held_client(),
                ),
                Err(e) => opened is Err && e@.kind == ErrorKind::StoreUnavailable,
            },
    {
        match opened {
            Ok(redis_client) => Ok(RedisAuthService { redis_client }),
            Err(error) => Err(ServerError::StoreUnavailable(redis_error_text(&error))),
        }
    }

    /// The client to open connections with.
    pub fn client(&self) -> (client: &redis::Client)
        ensures
            *client == self.held_client(),
    {
        &self.redis_client
    }

    /// Checks that a session id has the right shape, without asking the
    /// store: it is accepted exactly if it is a hyphenated UUID of
    /// version 4, whether or not such a session exists.
    pub fn validate_session_format(session_id: &str) -> (r: Result<(), ServerError>)
        ensures
            r is Ok <==> is_session_id(session_id@),
            r matches Err(e) ==> e@ == (ErrorView {
                kind: ErrorKind::InvalidFormat,
                detail: "Invalid session ID format"@,
            }),
    {
        if is_valid_session_id(session_id) {
            Ok(())
        } else {
            Err(ServerError::InvalidFormat(String::from_str("Invalid session ID format")))
        }
    }

    /// Checks the shape of a credential, which for this provider is a
    /// session id.
    pub fn validate_credential_format(&self, credential: &str) -> (r: Result<(), ServerError>)
        ensures
            r is Ok <==> is_session_id(credential@),
            r matches Err(e) ==> e@ == (ErrorView {
                kind: ErrorKind::InvalidFormat,
                detail: "Invalid session ID format"@,
            }),
    {
        RedisAuthService::validate_session_format(credential)
    }

    /// Begins the lookup of a session: a session id of the wrong shape is
    /// refused without a read, and for any other the record under the
    /// query's key decides.
    pub fn resolve_session(&self, session_id: &str) -> (r: Result<SessionQuery, ServerError>)
        ensures
            r is Ok <==> is_session_id(session_id@),
            r matches Ok(query) ==> query.id() == session_id@,
            r matches Err(e) ==> e@ == malformed_session_id(),
    {
        if is_valid_session_id(session_id) {
            Ok(SessionQuery { session_id: String::from_str(session_id) })
        } else {
            Err(ServerError::InvalidCredential(String::from_str("Invalid session ID format")))
        }
    }

    /// Begins the lookup of a user's account with a provider: the record
    /// under the query's key decides.
    pub fn get_oauth_token(&self, user_id: &str, provider: &str) -> (query: TokenQuery)
        ensures
            query.user() == user_id@,
            query.provider_name() == provider@,
    {
        TokenQuery { user_id: String::from_str(user_id), provider: String::from_str(provider) }
    }

    /// Begins an authentication for a provider's token: from the session
    /// id to the user, and from the user to the account with the provider.
    /// A session id of the wrong shape is refused without a read.
    pub fn authenticate(&self, session_id: &str, provider: &str) -> (r: Result<
        AuthQuery,
        ServerError,
    >)
        ensures
            r is Ok <==> is_session_id(session_id@),
            r matches Ok(query) ==> query.id() == session_id@ && query.provider_name()
                == provider@,
            r matches Err(e) ==> e@ == malformed_session_id(),
    {
        match self.resolve_session(session_id) {
            Ok(session) => Ok(AuthQuery { session, provider: String::from_str(provider) }),
            Err(e) => Err(e),
        }
    }

    /// Decides a whole authentication from both answers of the store, at
    /// the instant `now`: `session` is what the store returned under the key
    /// of the session, and `token` what it returned under the key of the
    /// account.
    ///
    /// A server reads the store between the steps and so goes by
    /// `authenticate` and the queries. This is the same decision in one
    /// piece, for an exchange with the store that has been recorded.
    pub fn authenticate_with(
        &self,
        session_id: &str,
        provider: &str,
        session: Fetched<SessionData>,
        token: Fetched<OAuthTokenData>,
        now: Timestamp,
    ) -> (r: Result<OAuthTokenData, ServerError>)
        ensures
            match r {
                Ok(record) => authenticate_outcome(session_id@, session, token, now) == Ok::<
                    OAuthTokenData,
                    ErrorView,
                >(record),
                Err(e) => authenticate_outcome(session_id@, session, token, now) == Err::<
                    OAuthTokenData,
                    ErrorView,
                >(e@),
            },
    {
        let query = match self.authenticate(session_id, provider) {
            Ok(query) => query,
            Err(e) => {
                return Err(e);
            },
        };
        match query.resolve(session) {
            Ok(next) => next.resolve_at(token, now),
            Err(e) => Err(e),
        }
    }
}

/// Authentication gives the same answer whenever it is asked, as long as
/// the store returns the same records and the token has not ended: for a
/// session id of the right shape, a session record and a token record that
/// is valid at both instants, the answer at both is that token record.
pub proof fn authentication_repeats(
    session_id: Seq<char>,
    session: SessionData,
    token: OAuthTokenData,
    first: Timestamp,
    second: Timestamp,
)
    requires
        is_session_id(session_id),
        !token.expired_at(first),
        !token.expired_at(second),
    ensures
        authenticate_outcome(session_id, Fetched::Found(session), Fetched::Found(token), first)
            == Ok::<OAuthTokenData, ErrorView>(token),
        authenticate_outcome(session_id, Fetched::Found(session), Fetched::Found(token), second)
            == authenticate_outcome(
            session_id,
            Fetched::Found(session),
            Fetched::Found(token),
            first,
        ),
{
}

} // verus!
