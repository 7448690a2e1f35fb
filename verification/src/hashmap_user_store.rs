use vstd::hash_map::StringHashMap;
use vstd::prelude::*;

use crate::email::Email;
use crate::errors::UserStoreError;
use crate::password::Password;
use crate::stores::UserStore;
use crate::user::User;
use crate::user::UserView;

verus! {

/// The in-memory credential store: a hash map keyed by the email string.
/// It holds passwords as given (this demo backend does not hash), so a
/// presented password matches exactly when it equals the stored one.
pub struct HashMapUserStore {
    users: StringHashMap<User>,
}

impl HashMapUserStore {
    pub fn new() -> (r: Self)
        ensures
            r.users() == Map::<Seq<char>, UserView>::empty(),
    {
        let r = HashMapUserStore { users: StringHashMap::new() };
        proof {
            assert(r.users() =~= Map::<Seq<char>, UserView>::empty());
        }
        r
    }

    /// The number of stored records.
    pub fn len(&self) -> (r: usize)
        ensures
            r == self.users().len(),
    {
        proof {
            assert(self.users().dom() =~= self.users@.dom());
        }
        self.users.len()
    }
}

impl Default for HashMapUserStore {
    fn default() -> (r: Self)
        ensures
            r.users() == Map::<Seq<char>, UserView>::empty(),
    {
        HashMapUserStore::new()
    }
}

impl UserStore for HashMapUserStore {
    closed spec fn users(&self) -> Map<Seq<char>, UserView> {
        self.users@.map_values(|u: User| u@)
    }

    open spec fn pw_matches(stored: Seq<char>, given: Seq<char>) -> bool {
        stored == given
    }

    fn add_user(&mut self, user: User) -> (r: Result<(), UserStoreError>) {
        let key = user.email.as_ref().clone();
        if self.users.contains_key(key.as_str()) {
            return Err(UserStoreError::UserAlreadyExists);
        }
        self.users.insert(key, user);
        proof {
            assert(self.users() =~= old(self).users().insert(user@.email, user@));
        }
        Ok(())
    }

    fn get_user(&self, email: &Email) -> (r: Result<User, UserStoreError>) {
        match self.users.get(email.as_ref().as_str()) {
            Some(user) => Ok(user.clone()),
            None => Err(UserStoreError::UserNotFound),
        }
    }

    fn validate_user(&self, email: &Email, password: &Password) -> (r: Result<
        (),
        UserStoreError,
    >) {
        match self.users.get(email.as_ref().as_str()) {
            Some(user) => {
                if user.password == *password {
                    Ok(())
                } else {
                    Err(UserStoreError::InvalidCredentials)
                }
            },
            None => Err(UserStoreError::UserNotFound),
        }
    }

    fn delete_user(&mut self, email: &Email) -> (r: Result<(), UserStoreError>) {
        if self.users.contains_key(email.as_ref().as_str()) {
            self.users.remove(email.as_ref().as_str());
            proof {
                assert(self.users() =~= old(self).users().remove(email@));
            }
            Ok(())
        } else {
            Err(UserStoreError::UserNotFound)
        }
    }
}

} // verus!
