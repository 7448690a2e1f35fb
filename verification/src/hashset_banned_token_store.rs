use vstd::hash_set::StringHashSet;
use vstd::prelude::*;

use crate::errors::BannedTokenStoreError;
use crate::stores::BannedTokenStore;

verus! {

/// The in-memory token revocation registry: a hash set of token strings.
/// It keeps entries for the life of the process; only the expiring backends
/// enforce the TTL.
pub struct HashSetBannedTokenStore {
    banned_tokens: StringHashSet,
}

impl HashSetBannedTokenStore {
    pub fn new() -> (r: Self)
        ensures
            r.tokens() == Set::<Seq<char>>::empty(),
    {
        HashSetBannedTokenStore { banned_tokens: StringHashSet::new() }
    }

    /// Whether a token has been revoked, under the registry's older name.
    pub fn is_token_banned(&self, token: &str) -> (r: Result<bool, BannedTokenStoreError>)
        ensures
            r == Ok::<bool, BannedTokenStoreError>(self.tokens().contains(token@)),
    {
        Ok(self.banned_tokens.contains(token))
    }
}

impl Default for HashSetBannedTokenStore {
    fn default() -> (r: Self)
        ensures
            r.tokens() == Set::<Seq<char>>::empty(),
    {
        HashSetBannedTokenStore::new()
    }
}

impl BannedTokenStore for HashSetBannedTokenStore {
    closed spec fn tokens(&self) -> Set<Seq<char>> {
        self.banned_tokens@
    }

    fn add_token(&mut self, token: String) -> (r: Result<(), BannedTokenStoreError>) {
        let fresh = self.banned_tokens.insert(token);
        if fresh {
            Ok(())
        } else {
            Err(BannedTokenStoreError::UnexpectedError)
        }
    }

    fn contains_token(&self, token: &str) -> (r: Result<bool, BannedTokenStoreError>) {
        Ok(self.banned_tokens.contains(token))
    }
}

} // verus!
