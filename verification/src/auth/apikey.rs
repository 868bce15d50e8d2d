//! The provider that holds a fixed table of API keys.

use super::{auth_result_view, AuthData, AuthDataView, AuthProvider};
use crate::error::{ErrorKind, ErrorView, ServerError};
use crate::text::{split_on, split_str, views};
use vstd::hash_map::StringHashMap;
use vstd::prelude::*;
use vstd::string::*;

verus! {

/// The views of a list of `(key, user)` pairs.
pub open spec fn pair_views(pairs: Seq<(String, String)>) -> Seq<(Seq<char>, Seq<char>)> {
    pairs.map_values(|p: (String, String)| (p.0@, p.1@))
}

/// The table that a list of `(key, user)` pairs stands for. Where a key
/// occurs more than once, its last pair counts.
pub open spec fn table_of(pairs: Seq<(Seq<char>, Seq<char>)>) -> Map<Seq<char>, Seq<char>>
    decreases pairs.len(),
{
    if pairs.len() == 0 {
        Map::empty()
    } else {
        table_of(pairs.drop_last()).insert(pairs.last().0, pairs.last().1)
    }
}

/// The place of the pair that decides what `key` stands for: the last pair
/// with that key.
pub open spec fn decides(pairs: Seq<(Seq<char>, Seq<char>)>, key: Seq<char>, i: int) -> bool {
    &&& 0 <= i < pairs.len()
    &&& pairs[i].0 == key
    &&& forall|j: int| i < j < pairs.len() ==> (#[trigger] pairs[j]).0 != key
}

/// A table holds the keys of its pairs and no others, and each key stands
/// for the user of the last pair with that key.
pub proof fn table_holds_last_pairs(pairs: Seq<(Seq<char>, Seq<char>)>, key: Seq<char>)
    ensures
        table_of(pairs).contains_key(key) <==> exists|i: int| decides(pairs, key, i),
        forall|i: int| decides(pairs, key, i) ==> table_of(pairs)[key] == pairs[i].1,
    decreases pairs.len(),
{
    if pairs.len() > 0 {
        let before = pairs.drop_last();
        let last = pairs.len() - 1;
        table_holds_last_pairs(before, key);
        if pairs.last().0 == key {
            assert(decides(pairs, key, last));
        } else {
            assert forall|i: int| decides(before, key, i) implies decides(pairs, key, i) by {
                assert forall|j: int| i < j < pairs.len() implies (#[trigger] pairs[j]).0 != key by {
                    if j < last {
                        assert(pairs[j] == before[j]);
                    }
                }
            }
            assert forall|i: int| decides(pairs, key, i) implies decides(before, key, i) by {
                assert forall|j: int| i < j < before.len() implies (#[trigger] before[j]).0
                    != key by {}
            }
            assert forall|i: int| decides(pairs, key, i) implies table_of(pairs)[key]
                == pairs[i].1 by {}
        }
    }
}

/// The pair that one piece of a key list stands for: a piece with exactly
/// one colon is a key and a user. Any other piece stands for nothing.
pub open spec fn key_pair(piece: Seq<char>) -> Option<(Seq<char>, Seq<char>)> {
    let parts = split_on(piece, ':');
    if parts.len() == 2 {
        Some((parts[0], parts[1]))
    } else {
        None
    }
}

/// The pairs that the pieces of a key list stand for, in order.
pub open spec fn key_pairs(pieces: Seq<Seq<char>>) -> Seq<(Seq<char>, Seq<char>)>
    decreases pieces.len(),
{
    if pieces.len() == 0 {
        Seq::empty()
    } else {
        let before = key_pairs(pieces.drop_last());
        match key_pair(pieces.last()) {
            Some(pair) => before.push(pair),
            None => before,
        }
    }
}

/// The pairs that a key list of the form `key1:user1,key2:user2` names.
pub open spec fn parse_key_list(text: Seq<char>) -> Seq<(Seq<char>, Seq<char>)> {
    key_pairs(split_on(text, ','))
}

/// The detail text for a key that the table does not hold.
pub open spec fn unknown_key_detail() -> Seq<char> {
    "Invalid API key"@
}

/// The detail text for an empty key.
pub open spec fn empty_key_detail() -> Seq<char> {
    "API key cannot be empty"@
}

/// What the key-table provider with the given table answers to a
/// credential.
pub open spec fn api_key_outcome(table: Map<Seq<char>, Seq<char>>, credential: Seq<char>) -> Result<
    AuthDataView,
    ErrorView,
> {
    if table.contains_key(credential) {
        Ok(
            AuthDataView {
                user_id: table[credential],
                metadata: seq![("auth_type"@, "api_key"@)],
            },
        )
    } else {
        Err(ErrorView { kind: ErrorKind::InvalidCredential, detail: unknown_key_detail() })
    }
}

/// Reads a key list of the form `key1:user1,key2:user2`. Pieces that are
/// not one key and one user are passed over.
pub fn parse_key_pairs(keys_str: &str) -> (pairs: Vec<(String, String)>)
    ensures
        pair_views(pairs@) == parse_key_list(keys_str@),
{
    let pieces = split_str(keys_str, ',');
    let mut pairs: Vec<(String, String)> = Vec::new();
    let mut i: usize = 0;
    while i < pieces.len()
        invariant
            i <= pieces.len(),
            pair_views(pairs@) == key_pairs(views(pieces@).take(i as int)),
        decreases pieces.len() - i,
    {
        let parts = split_str(pieces[i].as_str(), ':');
        proof {
            let upto = views(pieces@).take(i + 1);
            assert(upto.drop_last() =~= views(pieces@).take(i as int));
        }
        if parts.len() == 2 {
            pairs.push((parts[0].clone(), parts[1].clone()));
        }
        i += 1;
    }
    assert(views(pieces@).take(pieces.len() as int) =~= views(pieces@));
    pairs
}

/// Authentication by a fixed table from API key to user.
pub struct ApiKeyAuthService {
    api_keys: StringHashMap<String>,
}

impl ApiKeyAuthService {
    /// The table that this provider answers from.
    pub closed spec fn table(&self) -> Map<Seq<char>, Seq<char>> {
        self.api_keys@.map_values(|user: String| user@)
    }

    /// A provider for the given `(key, user)` pairs. Where a key occurs
    /// more than once, its last pair counts.
    pub fn new(api_keys: Vec<(String, String)>) -> (service: Self)
        ensures
            service.table() == table_of(pair_views(api_keys@)),
    {
        let mut table: StringHashMap<String> = StringHashMap::new();
        let mut i: usize = 0;
        while i < api_keys.len()
            invariant
                i <= api_keys.len(),
                table@.map_values(|user: String| user@) == table_of(
                    pair_views(api_keys@).take(i as int),
                ),
            decreases api_keys.len() - i,
        {
            let key = api_keys[i].0.clone();
            let user = api_keys[i].1.clone();
            table.insert(key, user);
            proof {
                let upto = pair_views(api_keys@).take(i + 1);
                assert(upto.drop_last() =~= pair_views(api_keys@).take(i as int));
            }
            i += 1;
        }
        assert(pair_views(api_keys@).take(api_keys.len() as int) =~= pair_views(api_keys@));
        ApiKeyAuthService { api_keys: table }
    }

    /// A provider for the key list that the environment holds, if it holds
    /// one: a text of the form `key1:user1,key2:user2`. Without a key list
    /// the table is empty.
    pub fn from_env_value(api_keys: Option<&str>) -> (service: Self)
        ensures
            service.table() == match api_keys {
                Some(text) => table_of(parse_key_list(text@)),
                None => Map::<Seq<char>, Seq<char>>::empty(),
            },
    {
        match api_keys {
            Some(text) => ApiKeyAuthService::new(parse_key_pairs(text)),
            None => ApiKeyAuthService::new(Vec::new()),
        }
    }
}

impl AuthProvider for ApiKeyAuthService {
    open spec fn accepts_format(&self, credential: Seq<char>) -> bool {
        credential.len() > 0
    }

    open spec fn identity_of(&self, credential: Seq<char>) -> Option<Seq<char>> {
        if self.table().contains_key(credential) {
            Some(self.table()[credential])
        } else {
            None
        }
    }

    /// Looks the credential up in the table, as it stands.
    fn authenticate(&self, credential: &str) -> (r: Result<AuthData, ServerError>)
        ensures
            auth_result_view(r) == api_key_outcome(self.table(), credential@),
    {
        match self.api_keys.get(credential) {
            Some(user_id) => {
                let mut metadata: Vec<(String, String)> = Vec::new();
                metadata.push((String::from_str("auth_type"), String::from_str("api_key")));
                let data = AuthData { user_id: user_id.clone(), metadata };
                assert(data@.metadata =~= seq![("auth_type"@, "api_key"@)]);
                Ok(data)
            },
            None => Err(ServerError::InvalidCredential(String::from_str("Invalid API key"))),
        }
    }

    /// Rejects the empty key, and no other.
    fn validate_credential_format(&self, credential: &str) -> (r: Result<(), ServerError>)
        ensures
            r is Ok <==> credential@.len() > 0,
            r matches Err(e) ==> e@ == (ErrorView {
                kind: ErrorKind::InvalidFormat,
                detail: empty_key_detail(),
            }),
    {
        if credential.is_empty() {
            return Err(ServerError::InvalidFormat(String::from_str("API key cannot be empty")));
        }
        Ok(())
    }
}

/// The answer of a key-table provider depends on its table and on the
/// credential alone: two providers with the same table answer every
/// credential alike, and so does one provider asked twice.
pub proof fn answer_depends_on_table_alone(
    first: ApiKeyAuthService,
    second: ApiKeyAuthService,
    credential: Seq<char>,
)
    requires
        first.table() == second.table(),
    ensures
        api_key_outcome(first.table(), credential) == api_key_outcome(second.table(), credential),
        first.identity_of(credential) == second.identity_of(credential),
{
}

} // verus!
