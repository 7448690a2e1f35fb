use vstd::prelude::*;

use crate::app_state::AppState;
use crate::email::Email;
use crate::email::email_ok;
use crate::errors::AuthAPIError;
use crate::stores::BannedTokenStore;
use crate::stores::EmailClient;
use crate::stores::TwoFACodeStore;
use crate::stores::UserStore;
use crate::user::UserView;

verus! {

/// The parsed body of an account deletion request.
pub struct DeleteAccountRequest {
    pub email: String,
}

/// What an account deletion decides: the store after the removal, or the
/// exact error.  Unlike login, a missing account is reported as such — the
/// caller already named the exact email, so nothing is left to enumerate.
pub open spec fn delete_account_outcome(
    users: Map<Seq<char>, UserView>,
    email: Seq<char>,
) -> Result<Map<Seq<char>, UserView>, AuthAPIError> {
    if !email_ok(email) {
        Err(AuthAPIError::InvalidCredentials)
    } else if !users.contains_key(email) {
        Err(AuthAPIError::UserNotFound)
    } else {
        Ok(users.remove(email))
    }
}

/// Deletes the account named by the request.  Only the credential store
/// changes.
pub fn delete_account<U: UserStore, B: BannedTokenStore, T: TwoFACodeStore, E: EmailClient>(
    state: &mut AppState<U, B, T, E>,
    request: DeleteAccountRequest,
) -> (r: Result<(), AuthAPIError>)
    ensures
        match delete_account_outcome(old(state).user_store.users(), request.email@) {
            Ok(m) => r is Ok && final(state).user_store.users() == m,
            Err(e) => r == Err::<(), AuthAPIError>(e) && final(state).user_store.users() == old(state).user_store.users(),
        },
        final(state).banned_token_store == old(state).banned_token_store,
        final(state).two_fa_code_store == old(state).two_fa_code_store,
        final(state).email_client == old(state).email_client,
        final(state).jwt_secret == old(state).jwt_secret,
{
    let email = match Email::parse(request.email) {
        Ok(e) => e,
        Err(_) => return Err(AuthAPIError::InvalidCredentials),
    };
    match state.user_store.delete_user(&email) {
        Ok(()) => Ok(()),
        Err(_) => Err(AuthAPIError::UserNotFound),
    }
}

} // verus!
