use vstd::prelude::*;
use vstd::string::StringExecFns;

use crate::app_state::AppState;
use crate::email::Email;
use crate::email::email_ok;
use crate::errors::AuthAPIError;
use crate::errors::UserStoreError;
use crate::password::Password;
use crate::password::password_ok;
use crate::stores::BannedTokenStore;
use crate::stores::EmailClient;
use crate::stores::TwoFACodeStore;
use crate::stores::UserStore;
use crate::user::User;
use crate::user::UserView;

verus! {

/// The parsed body of a signup request.
pub struct SignupRequest {
    pub email: String,
    pub password: String,
    pub requires_2fa: bool,
}

/// The success body of a signup.
pub struct SignupResponse {
    pub message: String,
}

/// What a signup decides, as a function of the stored records and the raw
/// request: either the store after the new record, or the exact error —
/// malformed inputs before existence, so the two cannot be told apart from
/// the outside by validity alone.
pub open spec fn signup_outcome(
    users: Map<Seq<char>, UserView>,
    email: Seq<char>,
    password: Seq<char>,
    requires_2fa: bool,
) -> Result<Map<Seq<char>, UserView>, AuthAPIError> {
    if !email_ok(email) || !password_ok(password) {
        Err(AuthAPIError::InvalidCredentials)
    } else if users.contains_key(email) {
        Err(AuthAPIError::UserAlreadyExists)
    } else {
        Ok(users.insert(email, UserView { email, password, requires_2fa }))
    }
}

/// Registers a new user: parse the credentials, store the record, confirm.
/// Only the credential store changes.
pub fn signup<U: UserStore, B: BannedTokenStore, T: TwoFACodeStore, E: EmailClient>(
    state: &mut AppState<U, B, T, E>,
    request: SignupRequest,
) -> (r: Result<SignupResponse, AuthAPIError>)
    ensures
        match signup_outcome(
            old(state).user_store.users(),
            request.email@,
            request.password@,
            request.requires_2fa,
        ) {
            Ok(m) => (r matches Ok(resp) && resp.message@ == "User created successfully!"@)
                && final(state).user_store.users() == m,
            Err(e) => r matches Err(e2) && e2 == e && final(state).user_store.users() == old(state).user_store.users(),
        },
        final(state).banned_token_store == old(state).banned_token_store,
        final(state).two_fa_code_store == old(state).two_fa_code_store,
        final(state).email_client == old(state).email_client,
        final(state).jwt_secret == old(state).jwt_secret,
{
    let email = match Email::parse(request.email) {
        Ok(e) => e,
        Err(_) => return Err(AuthAPIError::InvalidCredentials),
    };
    let password = match Password::parse(request.password) {
        Ok(p) => p,
        Err(_) => return Err(AuthAPIError::InvalidCredentials),
    };
    let user = User::new(email, password, request.requires_2fa);
    match state.user_store.add_user(user) {
        Ok(()) => Ok(
            SignupResponse { message: String::from_str("User created successfully!") },
        ),
        Err(UserStoreError::UserAlreadyExists) => Err(AuthAPIError::UserAlreadyExists),
        Err(_) => Err(AuthAPIError::UnexpectedError),
    }
}

} // verus!
