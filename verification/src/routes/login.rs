use vstd::prelude::*;
use vstd::string::StringExecFns;

use crate::app_state::AppState;
use crate::auth::AuthCookie;
use crate::auth::auth_cookie_for;
use crate::auth::generate_auth_cookie;
use crate::email::Email;
use crate::email::email_ok;
use crate::errors::AuthAPIError;
use crate::password::Password;
use crate::password::password_ok;
use crate::stores::BannedTokenStore;
use crate::stores::EmailClient;
use crate::stores::TwoFACodeStore;
use crate::stores::UserStore;
use crate::two_fa::LoginAttemptId;
use crate::two_fa::TwoFACode;
use crate::two_fa::two_fa_code_ok;
use crate::two_fa::uuid_canonical;
use crate::user::UserView;

verus! {

/// The parsed body of a login request.
pub struct LoginRequest {
    pub email: String,
    pub password: String,
}

/// The partial-success body of a two-factor login: the attempt id the
/// client must echo back to `verify-2fa`.
pub struct TwoFactorAuthResponse {
    pub message: String,
    pub login_attempt_id: String,
}

/// What a successful login answers: a plain success carrying the session
/// cookie, or a partial success that still owes the second factor.
pub enum LoginResponse {
    RegularAuth,
    TwoFactorAuth(TwoFactorAuthResponse),
}

/// Whether both raw login inputs are well-formed.
pub open spec fn login_input_ok(email: Seq<char>, password: Seq<char>) -> bool {
    email_ok(email) && password_ok(password)
}

/// Whether the presented credentials match a stored record, under the
/// store's own notion of a password match.
pub open spec fn credentials_ok<U: UserStore>(
    users: Map<Seq<char>, UserView>,
    email: Seq<char>,
    password: Seq<char>,
) -> bool {
    users.contains_key(email) && U::pw_matches(users[email].password, password)
}

/// Authenticates a user.  Malformed inputs earn `InvalidCredentials`; an
/// unknown email and a wrong password collapse uniformly into
/// `IncorrectCredentials`, so the caller cannot enumerate accounts.  With
/// the second factor off, a session cookie is issued at once; with it on, a
/// fresh challenge is stored under the email and its attempt id is returned,
/// with no cookie yet.
pub fn login<U: UserStore, B: BannedTokenStore, T: TwoFACodeStore, E: EmailClient>(
    state: &mut AppState<U, B, T, E>,
    request: LoginRequest,
) -> (r: Result<(LoginResponse, Option<AuthCookie>), AuthAPIError>)
    ensures
        final(state).user_store == old(state).user_store,
        final(state).banned_token_store == old(state).banned_token_store,
        final(state).email_client == old(state).email_client,
        final(state).jwt_secret == old(state).jwt_secret,
        !login_input_ok(request.email@, request.password@) ==> r == Err::<
            (LoginResponse, Option<AuthCookie>),
            AuthAPIError,
        >(AuthAPIError::InvalidCredentials) && final(state).two_fa_code_store == old(state).two_fa_code_store,
        r == Err::<(LoginResponse, Option<AuthCookie>), AuthAPIError>(
            AuthAPIError::InvalidCredentials,
        ) ==> !login_input_ok(request.email@, request.password@),
        login_input_ok(request.email@, request.password@) && !credentials_ok::<U>(
            old(state).user_store.users(),
            request.email@,
            request.password@,
        ) ==> r == Err::<(LoginResponse, Option<AuthCookie>), AuthAPIError>(
            AuthAPIError::IncorrectCredentials,
        ) && final(state).two_fa_code_store == old(state).two_fa_code_store,
        login_input_ok(request.email@, request.password@) && credentials_ok::<U>(
            old(state).user_store.users(),
            request.email@,
            request.password@,
        ) && !old(state).user_store.users()[request.email@].requires_2fa ==> final(state).two_fa_code_store == old(state).two_fa_code_store && (match r {
            Ok((resp, cookie)) => resp is RegularAuth && (cookie matches Some(c)
                && auth_cookie_for(c, request.email@, old(state).jwt_secret@)),
            Err(e) => e == AuthAPIError::UnexpectedError,
        }),
        login_input_ok(request.email@, request.password@) && credentials_ok::<U>(
            old(state).user_store.users(),
            request.email@,
            request.password@,
        ) && old(state).user_store.users()[request.email@].requires_2fa ==> (match r {
            Ok((resp, cookie)) => cookie is None && (resp matches LoginResponse::TwoFactorAuth(t)
                && t.message@ == "2FA required"@ && uuid_canonical(t.login_attempt_id@) == Some(
                t.login_attempt_id@,
            ) && (exists|c: Seq<char>|
                two_fa_code_ok(c) && final(state).two_fa_code_store.codes() == #[trigger] old(state).two_fa_code_store.codes().insert(request.email@, (t.login_attempt_id@, c)))),
            Err(e) => e == AuthAPIError::UnexpectedError && (final(state).two_fa_code_store.codes()
                == old(state).two_fa_code_store.codes() || (exists|id: Seq<char>, c: Seq<char>|
                final(state).two_fa_code_store.codes() == #[trigger] old(state).two_fa_code_store.codes().insert(request.email@, (id, c)))),
        }),
{
    let email = match Email::parse(request.email) {
        Ok(e) => e,
        Err(_) => return Err(AuthAPIError::InvalidCredentials),
    };
    let password = match Password::parse(request.password) {
        Ok(p) => p,
        Err(_) => return Err(AuthAPIError::InvalidCredentials),
    };
    match state.user_store.validate_user(&email, &password) {
        Ok(()) => (),
        Err(_) => return Err(AuthAPIError::IncorrectCredentials),
    }
    let user = match state.user_store.get_user(&email) {
        Ok(u) => u,
        Err(_) => return Err(AuthAPIError::IncorrectCredentials),
    };
    if user.requires_2fa {
        handle_2fa(state, &email)
    } else {
        handle_no_2fa(state, &email)
    }
}

/// The no-second-factor tail of a login: issue the session cookie.
fn handle_no_2fa<U: UserStore, B: BannedTokenStore, T: TwoFACodeStore, E: EmailClient>(
    state: &AppState<U, B, T, E>,
    email: &Email,
) -> (r: Result<(LoginResponse, Option<AuthCookie>), AuthAPIError>)
    ensures
        match r {
            Ok((resp, cookie)) => resp is RegularAuth && (cookie matches Some(c)
                && auth_cookie_for(c, email@, state.jwt_secret@)),
            Err(e) => e == AuthAPIError::UnexpectedError,
        },
{
    match generate_auth_cookie(email, state.jwt_secret.as_str()) {
        Ok(c) => Ok((LoginResponse::RegularAuth, Some(c))),
        Err(_) => Err(AuthAPIError::UnexpectedError),
    }
}

/// The second-factor tail of a login: draw a fresh challenge, store it
/// under the email (replacing any pending one), dispatch the code by email,
/// and hand the attempt id back.  A failed dispatch is reported, not
/// swallowed; the stored challenge then remains pending.
fn handle_2fa<U: UserStore, B: BannedTokenStore, T: TwoFACodeStore, E: EmailClient>(
    state: &mut AppState<U, B, T, E>,
    email: &Email,
) -> (r: Result<(LoginResponse, Option<AuthCookie>), AuthAPIError>)
    ensures
        final(state).user_store == old(state).user_store,
        final(state).banned_token_store == old(state).banned_token_store,
        final(state).email_client == old(state).email_client,
        final(state).jwt_secret == old(state).jwt_secret,
        match r {
            Ok((resp, cookie)) => cookie is None && (resp matches LoginResponse::TwoFactorAuth(t)
                && t.message@ == "2FA required"@ && uuid_canonical(t.login_attempt_id@) == Some(
                t.login_attempt_id@,
            ) && (exists|c: Seq<char>|
                two_fa_code_ok(c) && final(state).two_fa_code_store.codes() == #[trigger] old(state).two_fa_code_store.codes().insert(email@, (t.login_attempt_id@, c)))),
            Err(e) => e == AuthAPIError::UnexpectedError && (final(state).two_fa_code_store.codes()
                == old(state).two_fa_code_store.codes() || (exists|id: Seq<char>, c: Seq<char>|
                final(state).two_fa_code_store.codes() == #[trigger] old(state).two_fa_code_store.codes().insert(email@, (id, c)))),
        },
{
    let code = TwoFACode::default();
    let login_attempt_id = LoginAttemptId::default();
    match state.two_fa_code_store.add_code(
        email.clone(),
        login_attempt_id.clone(),
        code.clone(),
    ) {
        Ok(()) => (),
        Err(_) => return Err(AuthAPIError::UnexpectedError),
    }
    match state.email_client.send_email(email, "2FA code", code.expose_secret().as_str()) {
        Ok(()) => (),
        Err(_) => {
            proof {
                assert(exists|id: Seq<char>, c: Seq<char>|
                    state.two_fa_code_store.codes() == #[trigger] old(state).two_fa_code_store.codes().insert(email@, (id, c))) by {
                    assert(state.two_fa_code_store.codes() == old(state).two_fa_code_store.codes().insert(email@, (login_attempt_id@, code@)));
                }
            }
            return Err(AuthAPIError::UnexpectedError);
        },
    }
    let response = TwoFactorAuthResponse {
        message: String::from_str("2FA required"),
        login_attempt_id: login_attempt_id.expose_secret().clone(),
    };
    proof {
        assert(exists|c: Seq<char>|
            two_fa_code_ok(c) && state.two_fa_code_store.codes() == #[trigger] old(state).two_fa_code_store.codes().insert(email@, (login_attempt_id@, c))) by {
            assert(state.two_fa_code_store.codes() == old(state).two_fa_code_store.codes().insert(
                email@,
                (login_attempt_id@, code@),
            ));
            assert(two_fa_code_ok(code@));
        }
    }
    Ok((LoginResponse::TwoFactorAuth(response), None))
}

} // verus!
