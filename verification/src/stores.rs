//! The capability traits of the three stores and of the email transport.
//!
//! Each store trait specifies its operations over an abstract model — a map
//! or set of character sequences — exactly: what each call returns and how
//! the model changes, for every input.  The in-memory backends in this
//! crate are proved against these contracts.  Backends that reach out over
//! a network cannot be verified and live outside the library; they offer
//! the same capability sets and surface their own failures as the
//! `UnexpectedError` variants of the same error enums.

use vstd::prelude::*;

use crate::email::Email;
use crate::errors::BannedTokenStoreError;
use crate::errors::TwoFACodeStoreError;
use crate::errors::UserStoreError;
use crate::password::Password;
use crate::two_fa::LoginAttemptId;
use crate::two_fa::TwoFACode;
use crate::user::User;
use crate::user::UserView;

verus! {

/// Storage of credential records, keyed by email.  The contract describes a
/// conforming store as a map from email strings to records; which password
/// presentation counts as a match is the backend's choice, stated by
/// `pw_matches` (the in-memory backend compares the stored string itself, a
/// hashing backend compares against the stored hash).
pub trait UserStore: Sized {
    /// The records the store holds, keyed by email.
    spec fn users(&self) -> Map<Seq<char>, UserView>;

    /// Whether a presented password matches a stored one.
    spec fn pw_matches(stored: Seq<char>, given: Seq<char>) -> bool;

    /// Inserts a record; all-or-nothing per email key, and a second record
    /// under an existing email is refused.
    fn add_user(&mut self, user: User) -> (r: Result<(), UserStoreError>)
        ensures
            old(self).users().contains_key(user@.email) ==> r == Err::<(), UserStoreError>(
                UserStoreError::UserAlreadyExists,
            ) && final(self).users() == old(self).users(),
            !old(self).users().contains_key(user@.email) ==> r == Ok::<(), UserStoreError>(())
                && final(self).users() == old(self).users().insert(user@.email, user@),
    ;

    /// Looks a record up by email.
    fn get_user(&self, email: &Email) -> (r: Result<User, UserStoreError>)
        ensures
            self.users().contains_key(email@) ==> (r matches Ok(u) && u@ == self.users()[email@]),
            !self.users().contains_key(email@) ==> r == Err::<User, UserStoreError>(
                UserStoreError::UserNotFound,
            ),
    ;

    /// Checks a presented password against the stored record.
    fn validate_user(&self, email: &Email, password: &Password) -> (r: Result<
        (),
        UserStoreError,
    >)
        ensures
            !self.users().contains_key(email@) ==> r == Err::<(), UserStoreError>(
                UserStoreError::UserNotFound,
            ),
            self.users().contains_key(email@) && Self::pw_matches(
                self.users()[email@].password,
                password@,
            ) ==> r == Ok::<(), UserStoreError>(()),
            self.users().contains_key(email@) && !Self::pw_matches(
                self.users()[email@].password,
                password@,
            ) ==> r == Err::<(), UserStoreError>(UserStoreError::InvalidCredentials),
    ;

    /// Removes a record by email.
    fn delete_user(&mut self, email: &Email) -> (r: Result<(), UserStoreError>)
        ensures
            old(self).users().contains_key(email@) ==> r == Ok::<(), UserStoreError>(())
                && final(self).users() == old(self).users().remove(email@),
            !old(self).users().contains_key(email@) ==> r == Err::<(), UserStoreError>(
                UserStoreError::UserNotFound,
            ) && final(self).users() == old(self).users(),
    ;
}

/// The token revocation registry: a set of revoked session-token strings.
/// Backends with expiry drop entries after the fixed TTL, which only ever
/// shrinks the set; the contract speaks of the set as the call sees it.
pub trait BannedTokenStore: Sized {
    /// The revoked tokens the registry holds.
    spec fn tokens(&self) -> Set<Seq<char>>;

    /// Marks a token revoked; re-adding an already revoked token is
    /// reported as an error, as the in-memory registry does.
    fn add_token(&mut self, token: String) -> (r: Result<(), BannedTokenStoreError>)
        ensures
            final(self).tokens() == old(self).tokens().insert(token@),
            r is Ok <==> !old(self).tokens().contains(token@),
            r is Err ==> r == Err::<(), BannedTokenStoreError>(
                BannedTokenStoreError::UnexpectedError,
            ),
    ;

    /// Whether a token has been revoked.
    fn contains_token(&self, token: &str) -> (r: Result<bool, BannedTokenStoreError>)
        ensures
            r == Ok::<bool, BannedTokenStoreError>(self.tokens().contains(token@)),
    ;
}

/// The two-factor challenge store: at most one pending challenge per email,
/// a new login overwriting any prior one.
pub trait TwoFACodeStore: Sized {
    /// The pending challenges, keyed by email: (attempt id, code).
    spec fn codes(&self) -> Map<Seq<char>, (Seq<char>, Seq<char>)>;

    /// Stores the challenge for an email, overwriting any prior one.
    fn add_code(&mut self, email: Email, login_attempt_id: LoginAttemptId, code: TwoFACode) -> (r:
        Result<(), TwoFACodeStoreError>)
        ensures
            r == Ok::<(), TwoFACodeStoreError>(()),
            final(self).codes() == old(self).codes().insert(
                email@,
                (login_attempt_id@, code@),
            ),
    ;

    /// Reads the pending challenge for an email.
    fn get_code(&self, email: &Email) -> (r: Result<
        (LoginAttemptId, TwoFACode),
        TwoFACodeStoreError,
    >)
        ensures
            self.codes().contains_key(email@) ==> (r matches Ok(p) && p.0@ == self.codes()[email@].0
                && p.1@ == self.codes()[email@].1),
            !self.codes().contains_key(email@) ==> r == Err::<
                (LoginAttemptId, TwoFACode),
                TwoFACodeStoreError,
            >(TwoFACodeStoreError::LoginAttemptIdNotFound),
    ;

    /// Removes the pending challenge for an email.
    fn remove_code(&mut self, email: &Email) -> (r: Result<(), TwoFACodeStoreError>)
        ensures
            old(self).codes().contains_key(email@) ==> r == Ok::<(), TwoFACodeStoreError>(())
                && final(self).codes() == old(self).codes().remove(email@),
            !old(self).codes().contains_key(email@) ==> r == Err::<(), TwoFACodeStoreError>(
                TwoFACodeStoreError::LoginAttemptIdNotFound,
            ) && final(self).codes() == old(self).codes(),
    ;
}

/// The outbound email transport failed.
#[derive(Clone, Copy, Debug, PartialEq, Eq, Structural)]
pub struct EmailClientError;

/// The outbound email transport.  Nothing can be promised of a transport in
/// general; a caller only learns whether the dispatch was accepted.
pub trait EmailClient: Sized {
    fn send_email(&self, recipient: &Email, subject: &str, content: &str) -> Result<
        (),
        EmailClientError,
    >;
}

} // verus!
