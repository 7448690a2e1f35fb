use vstd::hash_map::StringHashMap;
use vstd::prelude::*;

use crate::email::Email;
use crate::errors::TwoFACodeStoreError;
use crate::stores::TwoFACodeStore;
use crate::two_fa::LoginAttemptId;
use crate::two_fa::TwoFACode;

verus! {

/// The in-memory two-factor challenge store: a hash map from the email
/// string to the pending (attempt id, code) pair.
pub struct HashMapTwoFACodeStore {
    codes: StringHashMap<(LoginAttemptId, TwoFACode)>,
}

impl HashMapTwoFACodeStore {
    pub fn new() -> (r: Self)
        ensures
            r.codes() == Map::<Seq<char>, (Seq<char>, Seq<char>)>::empty(),
    {
        let r = HashMapTwoFACodeStore { codes: StringHashMap::new() };
        proof {
            assert(r.codes() =~= Map::<Seq<char>, (Seq<char>, Seq<char>)>::empty());
        }
        r
    }
}

impl Default for HashMapTwoFACodeStore {
    fn default() -> (r: Self)
        ensures
            r.codes() == Map::<Seq<char>, (Seq<char>, Seq<char>)>::empty(),
    {
        HashMapTwoFACodeStore::new()
    }
}

impl TwoFACodeStore for HashMapTwoFACodeStore {
    closed spec fn codes(&self) -> Map<Seq<char>, (Seq<char>, Seq<char>)> {
        self.codes@.map_values(|p: (LoginAttemptId, TwoFACode)| (p.0@, p.1@))
    }

    fn add_code(&mut self, email: Email, login_attempt_id: LoginAttemptId, code: TwoFACode) -> (r:
        Result<(), TwoFACodeStoreError>) {
        let key = email.as_ref().clone();
        self.codes.insert(key, (login_attempt_id, code));
        proof {
            assert(self.codes() =~= old(self).codes().insert(
                email@,
                (login_attempt_id@, code@),
            ));
        }
        Ok(())
    }

    fn get_code(&self, email: &Email) -> (r: Result<
        (LoginAttemptId, TwoFACode),
        TwoFACodeStoreError,
    >) {
        match self.codes.get(email.as_ref().as_str()) {
            Some(pair) => Ok((pair.0.clone(), pair.1.clone())),
            None => Err(TwoFACodeStoreError::LoginAttemptIdNotFound),
        }
    }

    fn remove_code(&mut self, email: &Email) -> (r: Result<(), TwoFACodeStoreError>) {
        if self.codes.contains_key(email.as_ref().as_str()) {
            self.codes.remove(email.as_ref().as_str());
            proof {
                assert(self.codes() =~= old(self).codes().remove(email@));
            }
            Ok(())
        } else {
            Err(TwoFACodeStoreError::LoginAttemptIdNotFound)
        }
    }
}

} // verus!
