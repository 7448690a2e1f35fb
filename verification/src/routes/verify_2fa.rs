use vstd::prelude::*;

use crate::app_state::AppState;
use crate::auth::AuthCookie;
use crate::auth::auth_cookie_for;
use crate::auth::generate_auth_cookie;
use crate::email::Email;
use crate::email::email_ok;
use crate::errors::AuthAPIError;
use crate::stores::BannedTokenStore;
use crate::stores::EmailClient;
use crate::stores::TwoFACodeStore;
use crate::stores::UserStore;
use crate::two_fa::LoginAttemptId;
use crate::two_fa::TwoFACode;
use crate::two_fa::two_fa_code_ok;
use crate::two_fa::uuid_canonical;

verus! {

/// The parsed body of a two-factor verification request.
pub struct VerifyTwoFactorAuthToken {
    pub email: String,
    pub login_attempt_id: String,
    pub code: String,
}

/// Whether a two-factor verification succeeds: all three raw inputs parse,
/// a challenge is pending for the email, and both the attempt id (after
/// normalisation) and the code equal the stored pair.  Anything less fails,
/// and with one answer, so the caller cannot tell which part was wrong.
pub open spec fn verify_2fa_accepts(
    codes: Map<Seq<char>, (Seq<char>, Seq<char>)>,
    email: Seq<char>,
    id_raw: Seq<char>,
    code: Seq<char>,
) -> bool {
    &&& email_ok(email)
    &&& uuid_canonical(id_raw) is Some
    &&& two_fa_code_ok(code)
    &&& codes.contains_key(email)
    &&& codes[email].0 == uuid_canonical(id_raw).unwrap()
    &&& codes[email].1 == code
}

/// Completes a two-factor login.  On the full match the challenge is
/// consumed — removed before the answer goes out — so the same
/// (attempt id, code) pair verifies exactly once; a session cookie is
/// issued.  Every mismatch earns the one `IncorrectCredentials` answer.
pub fn verify_2fa<U: UserStore, B: BannedTokenStore, T: TwoFACodeStore, E: EmailClient>(
    state: &mut AppState<U, B, T, E>,
    request: VerifyTwoFactorAuthToken,
) -> (r: Result<AuthCookie, AuthAPIError>)
    ensures
        final(state).user_store == old(state).user_store,
        final(state).banned_token_store == old(state).banned_token_store,
        final(state).email_client == old(state).email_client,
        final(state).jwt_secret == old(state).jwt_secret,
        !verify_2fa_accepts(
            old(state).two_fa_code_store.codes(),
            request.email@,
            request.login_attempt_id@,
            request.code@,
        ) ==> r == Err::<AuthCookie, AuthAPIError>(AuthAPIError::IncorrectCredentials) && final(state).two_fa_code_store == old(state).two_fa_code_store,
        verify_2fa_accepts(
            old(state).two_fa_code_store.codes(),
            request.email@,
            request.login_attempt_id@,
            request.code@,
        ) ==> (match r {
            Ok(c) => auth_cookie_for(c, request.email@, old(state).jwt_secret@) && final(state).two_fa_code_store.codes() == old(state).two_fa_code_store.codes().remove(
                request.email@,
            ),
            Err(e) => e == AuthAPIError::UnexpectedError && final(state).two_fa_code_store == old(state).two_fa_code_store,
        }),
{
    let email = match Email::parse(request.email) {
        Ok(e) => e,
        Err(_) => return Err(AuthAPIError::IncorrectCredentials),
    };
    let login_attempt_id = match LoginAttemptId::parse(request.login_attempt_id) {
        Ok(l) => l,
        Err(_) => return Err(AuthAPIError::IncorrectCredentials),
    };
    let two_fa_code = match TwoFACode::parse(request.code) {
        Ok(c) => c,
        Err(_) => return Err(AuthAPIError::IncorrectCredentials),
    };
    let stored = match state.two_fa_code_store.get_code(&email) {
        Ok(p) => p,
        Err(_) => return Err(AuthAPIError::IncorrectCredentials),
    };
    if !(stored.0 == login_attempt_id) || !(stored.1 == two_fa_code) {
        return Err(AuthAPIError::IncorrectCredentials);
    }
    let cookie = match generate_auth_cookie(&email, state.jwt_secret.as_str()) {
        Ok(c) => c,
        Err(_) => return Err(AuthAPIError::UnexpectedError),
    };
    match state.two_fa_code_store.remove_code(&email) {
        Ok(()) => (),
        Err(_) => return Err(AuthAPIError::UnexpectedError),
    }
    Ok(cookie)
}

} // verus!
