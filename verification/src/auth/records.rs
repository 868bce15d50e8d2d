//! The records that the store holds: sessions, and users' accounts with
//! third-party providers.

use crate::clock::{timestamp_of, Timestamp};
use crate::text::{contains_str, is_substring};
use vstd::prelude::*;
use vstd::string::*;

verus! {

/// A session record as the store holds it.
#[derive(Clone, Debug, PartialEq, Eq)]
pub struct SessionData {
    pub session_id: String,
    pub user_id: String,
    pub created_at: String,
    pub expires_at: String,
}

/// A user's account with a third-party provider, with the tokens that give
/// access to it, as the store holds it.
///
/// The two tokens are secrets: they are overwritten with zeros when the
/// record is dropped, and `scrub` does so at once.
#[derive(Clone)]
pub struct OAuthTokenData {
    pub user_id: String,
    pub provider: String,
    pub provider_user_id: String,
    pub email: String,
    pub display_name: String,
    pub access_token: String,
    pub refresh_token: Option<String>,
    /// When the access token ends, as an RFC 3339 text.
    pub expires_at: String,
    pub scopes: Vec<String>,
    pub linked_at: String,
}

/// Whether a token that ends at `expires_at` has ended at `now`. A token
/// without a readable end counts as ended.
pub open spec fn expired_given(expires_at: Option<Timestamp>, now: Timestamp) -> bool {
    match expires_at {
        Some(end) => now.at_or_after(end),
        None => true,
    }
}

impl OAuthTokenData {
    /// Whether the access token has ended at `now`.
    pub open spec fn expired_at(&self, now: Timestamp) -> bool {
        expired_given(timestamp_of(self.expires_at@), now)
    }

    /// Whether one of the scopes contains `required` as a part.
    pub open spec fn grants(&self, required: Seq<char>) -> bool {
        exists|i: int|
            0 <= i < self.scopes@.len() && is_substring(#[trigger] self.scopes@[i]@, required)
    }

    /// Whether a token that ends at `expires_at` has ended at `now`: it has
    /// if `now` is the end or later, and also if it has no readable end.
    pub fn expiry_reached(expires_at: Option<Timestamp>, now: Timestamp) -> (expired: bool)
        ensures
            expired == expired_given(expires_at, now),
    {
        match expires_at {
            Some(end) => now.is_at_or_after(&end),
            None => true,
        }
    }

    /// Whether the access token has ended at `now`.
    pub fn is_expired_at(&self, now: Timestamp) -> (expired: bool)
        ensures
            expired == self.expired_at(now),
    {
        OAuthTokenData::expiry_reached(Timestamp::parse_rfc3339(self.expires_at.as_str()), now)
    }

    /// Whether the access token has ended by the system clock. Whatever the
    /// clock shows, a token without a readable end has ended.
    pub fn is_expired(&self) -> (expired: bool)
        ensures
            timestamp_of(self.expires_at@) is None ==> expired,
    {
        self.is_expired_at(Timestamp::now())
    }

    /// Whether one of the scopes contains `required_scope` as a part. The
    /// match is on parts, not on whole scopes, so that the long and the short
    /// form of a scope both count.
    pub fn has_scope(&self, required_scope: &str) -> (found: bool)
        ensures
            found == self.grants(required_scope@),
            self.scopes@.len() == 0 ==> !found,
    {
        let mut i: usize = 0;
        while i < self.scopes.len()
            invariant
                i <= self.scopes.len(),
                forall|j: int| 0 <= j < i ==> !is_substring(#[trigger] self.scopes@[j]@, required_scope@),
            decreases self.scopes.len() - i,
        {
            if contains_str(self.scopes[i].as_str(), required_scope) {
                return true;
            }
            i += 1;
        }
        false
    }

    /// Overwrites both tokens with zeros and forgets them.
    pub fn scrub(&mut self)
        ensures
            final(self).access_token@.len() == 0,
            final(self).refresh_token is None,
            final(self).user_id == old(self).user_id,
            final(self).provider == old(self).provider,
            final(self).provider_user_id == old(self).provider_user_id,
            final(self).email == old(self).email,
            final(self).display_name == old(self).display_name,
            final(self).expires_at == old(self).expires_at,
            final(self).scopes == old(self).scopes,
            final(self).linked_at == old(self).linked_at,
    {
        zero_string(&mut self.access_token);
        match self.refresh_token.take() {
            Some(mut token) => {
                zero_string(&mut token);
            },
            None => {},
        }
    }
}

/// Calls `zeroize::Zeroize::zeroize` on a string: the string's bytes are
/// overwritten with zeros, and the string is empty afterwards.
#[verifier::external_body]
fn zero_string(secret: &mut String)
    ensures
        final(secret)@.len() == 0,
{
    zeroize::Zeroize::zeroize(secret)
}

impl Drop for OAuthTokenData {
    /// Calls `zeroize::Zeroize::zeroize` on both tokens, so that no copy of
    /// them stays behind in the memory that the record gives back.
    #[verifier::external_body]
    fn drop(&mut self)
        opens_invariants none
        no_unwind
    {
        zeroize::Zeroize::zeroize(&mut self.access_token);
        zeroize::Zeroize::zeroize(&mut self.refresh_token);
    }
}

/// A token that ends at `now` or earlier has ended, one that ends later
/// has not, and one whose end cannot be read has ended, whatever `now` is.
pub proof fn expiry_follows_the_end(token: OAuthTokenData, now: Timestamp)
    ensures
        timestamp_of(token.expires_at@) matches Some(end) ==> (token.expired_at(now)
            <==> now.at_or_after(end)),
        timestamp_of(token.expires_at@) is None ==> token.expired_at(now),
{
}

} // verus!
