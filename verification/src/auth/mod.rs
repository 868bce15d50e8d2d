//! Authentication providers: the common interface, what a successful
//! authentication returns, the provider that refuses everyone, and the
//! provider that a server chooses when it starts.

use crate::error::{ErrorKind, ErrorView, ServerError};
use vstd::prelude::*;
use vstd::string::*;

pub mod apikey;
pub mod records;
pub mod session;
pub mod session_id;

pub use apikey::ApiKeyAuthService;
pub use records::{OAuthTokenData, SessionData};
pub use session::{AuthQuery, Fetched, RedisAuthService, SessionQuery, TokenQuery};

use apikey::api_key_outcome;
use session::malformed_session_id;
use session_id::is_session_id;

verus! {

/// Who a credential stands for, with what the provider has to say about how
/// it found out.
#[derive(Clone, Debug, PartialEq, Eq)]
pub struct AuthData {
    pub user_id: String,
    /// Entries of an open key-value map, in the order of their keys.
    pub metadata: Vec<(String, String)>,
}

/// An `AuthData` as contracts see it.
pub struct AuthDataView {
    pub user_id: Seq<char>,
    pub metadata: Seq<(Seq<char>, Seq<char>)>,
}

/// The value of the first entry with the given key.
pub open spec fn lookup(entries: Seq<(Seq<char>, Seq<char>)>, key: Seq<char>) -> Option<Seq<char>>
    decreases entries.len(),
{
    if entries.len() == 0 {
        None
    } else if entries[0].0 == key {
        Some(entries[0].1)
    } else {
        lookup(entries.drop_first(), key)
    }
}

impl View for AuthData {
    type V = AuthDataView;

    open spec fn view(&self) -> AuthDataView {
        AuthDataView {
            user_id: self.user_id@,
            metadata: self.metadata@.map_values(|e: (String, String)| (e.0@, e.1@)),
        }
    }
}

impl AuthData {
    /// The metadata value stored under `key`, if there is one.
    pub fn metadata_value(&self, key: &str) -> (value: Option<String>)
        ensures
            match value {
                Some(v) => lookup(self@.metadata, key@) == Some(v@),
                None => lookup(self@.metadata, key@) is None,
            },
    {
        let wanted = String::from_str(key);
        let mut i: usize = 0;
        assert(self@.metadata.skip(0) =~= self@.metadata);
        while i < self.metadata.len()
            invariant
                i <= self.metadata.len(),
                wanted@ == key@,
                lookup(self@.metadata, key@) == lookup(self@.metadata.skip(i as int), key@),
            decreases self.metadata.len() - i,
        {
            assert(self@.metadata.skip(i as int).drop_first() =~= self@.metadata.skip(i + 1));
            if self.metadata[i].0 == wanted {
                return Some(self.metadata[i].1.clone());
            }
            i += 1;
        }
        None
    }
}

/// The view of what `authenticate` returns.
pub open spec fn auth_result_view(r: Result<AuthData, ServerError>) -> Result<
    AuthDataView,
    ErrorView,
> {
    match r {
        Ok(d) => Ok(d@),
        Err(e) => Err(e@),
    }
}

/// An authentication strategy: it turns a credential into an identity.
///
/// A provider describes itself by two specification functions, and its two
/// operations are held to them.
pub trait AuthProvider {
    /// Whether the credential has the shape that this provider's
    /// credentials have. A provider without a checkable shape accepts all.
    spec fn accepts_format(&self, credential: Seq<char>) -> bool;

    /// The user that the credential stands for, if it stands for one.
    spec fn identity_of(&self, credential: Seq<char>) -> Option<Seq<char>>;

    /// Resolves a credential. It succeeds with the user that the credential
    /// stands for. It fails only where the credential stands for nobody, or
    /// where a store that the provider depends on is unavailable, and never
    /// with `InvalidFormat`: that kind is for the check before the lookup.
    fn authenticate(&self, credential: &str) -> (r: Result<AuthData, ServerError>)
        ensures
            match r {
                Ok(d) => self.identity_of(credential@) == Some(d@.user_id),
                Err(e) => {
                    &&& e@.kind == ErrorKind::StoreUnavailable || self.identity_of(credential@)
                        is None
                    &&& e@.kind == ErrorKind::InvalidCredential || e@.kind
                        == ErrorKind::AuthDisabled || e@.kind == ErrorKind::StoreUnavailable
                },
            },
    ;

    /// Checks the shape of a credential before any lookup. A credential of
    /// the right shape is never rejected, and a rejection is always of kind
    /// `InvalidFormat`. Unless a provider says otherwise, every shape passes.
    fn validate_credential_format(&self, credential: &str) -> (r: Result<(), ServerError>)
        ensures
            r matches Err(e) ==> !self.accepts_format(credential@) && e@.kind
                == ErrorKind::InvalidFormat,
    {
        Ok(())
    }
}

/// The provider for a server whose authentication is switched off: it
/// refuses every credential.
#[derive(Clone, Copy, Debug)]
pub struct NoOpAuthProvider;

impl AuthProvider for NoOpAuthProvider {
    open spec fn accepts_format(&self, credential: Seq<char>) -> bool {
        true
    }

    open spec fn identity_of(&self, credential: Seq<char>) -> Option<Seq<char>> {
        None
    }

    fn authenticate(&self, credential: &str) -> (r: Result<AuthData, ServerError>)
        ensures
            r == Err::<AuthData, ServerError>(ServerError::AuthDisabled),
    {
        Err(ServerError::AuthDisabled)
    }
}

/// The provider that a server runs with, chosen when it starts: one of the
/// three strategies, behind one interface.
pub enum Provider {
    /// Credentials are API keys of a fixed table.
    ApiKey(ApiKeyAuthService),
    /// Credentials are session ids, resolved through a Redis store.
    Session(RedisAuthService),
    /// Authentication is switched off.
    Disabled,
}

/// How far an authentication has come.
pub enum AuthStep {
    /// It is over: this is the identity or the failure.
    Done(Result<AuthData, ServerError>),
    /// The store has to be read: the record under the query's key decides,
    /// and `SessionQuery::identity` says how.
    Lookup(SessionQuery),
}

impl Provider {
    /// Whether the credential has the shape that the provider's credentials
    /// have: an API key is not empty, a session id is a hyphenated UUID of
    /// version 4, and a provider that is switched off has nothing to say
    /// against any shape.
    pub open spec fn accepts_format(&self, credential: Seq<char>) -> bool {
        match self {
            Provider::ApiKey(_) => credential.len() > 0,
            Provider::Session(_) => is_session_id(credential),
            Provider::Disabled => true,
        }
    }

    /// The client of the store that the provider reads, if it reads one:
    /// only the session provider does.
    pub fn store(&self) -> (client: Option<&redis::Client>)
        ensures
            match *self {
                Provider::Session(sessions) => client == Some(&sessions.held_client()),
                _ => client is None,
            },
    {
        match self {
            Provider::Session(sessions) => Some(sessions.client()),
            _ => None,
        }
    }

    /// Checks the shape of a credential before any lookup.
    pub fn validate_credential_format(&self, credential: &str) -> (r: Result<(), ServerError>)
        ensures
            r is Ok <==> self.accepts_format(credential@),
            r matches Err(e) ==> e@.kind == ErrorKind::InvalidFormat,
    {
        match self {
            Provider::ApiKey(keys) => keys.validate_credential_format(credential),
            Provider::Session(sessions) => sessions.validate_credential_format(credential),
            Provider::Disabled => Ok(()),
        }
    }

    /// Resolves a credential as far as that can be done without the store.
    ///
    /// An API key is looked up in the table, and a provider that is
    /// switched off refuses: both are over at once. A session id of the
    /// wrong shape is refused, and for any other the store has to be read.
    pub fn authenticate(&self, credential: &str) -> (step: AuthStep)
        ensures
            match *self {
                Provider::ApiKey(keys) => (step matches AuthStep::Done(r) && auth_result_view(r)
                    == api_key_outcome(keys.table(), credential@)),
                Provider::Session(_) => if is_session_id(credential@) {
                    step matches AuthStep::Lookup(query) && query.id() == credential@
                } else {
                    step matches AuthStep::Done(Err(e)) && e@ == malformed_session_id()
                },
                Provider::Disabled => step == AuthStep::Done(
                    Err::<AuthData, ServerError>(ServerError::AuthDisabled),
                ),
            },
    {
        match self {
            Provider::ApiKey(keys) => AuthStep::Done(keys.authenticate(credential)),
            Provider::Session(sessions) => match sessions.resolve_session(credential) {
                Ok(query) => AuthStep::Lookup(query),
                Err(e) => AuthStep::Done(Err(e)),
            },
            Provider::Disabled => AuthStep::Done(NoOpAuthProvider.authenticate(credential)),
        }
    }
}

} // verus!
