use vstd::prelude::*;

use crate::app_state::AppState;
use crate::auth::jwt_claims;
use crate::auth::validate_token;
use crate::auth::validate_token_rejects;
use crate::errors::AuthAPIError;
use crate::stores::BannedTokenStore;
use crate::stores::EmailClient;
use crate::stores::TwoFACodeStore;
use crate::stores::UserStore;

verus! {

/// Ends a session.  The token comes from the session cookie; with no cookie
/// the request fails with `MissingToken` (so a second logout in a row fails
/// that way).  A token that does not validate fails with `InvalidToken`.  A
/// valid token is added to the revocation registry, and the caller clears
/// the cookie.
pub fn logout<U: UserStore, B: BannedTokenStore, T: TwoFACodeStore, E: EmailClient>(
    state: &mut AppState<U, B, T, E>,
    token: Option<String>,
) -> (r: Result<(), AuthAPIError>)
    ensures
        final(state).user_store == old(state).user_store,
        final(state).two_fa_code_store == old(state).two_fa_code_store,
        final(state).email_client == old(state).email_client,
        final(state).jwt_secret == old(state).jwt_secret,
        token is None ==> r == Err::<(), AuthAPIError>(AuthAPIError::MissingToken) && final(state).banned_token_store == old(state).banned_token_store,
        token matches Some(t) ==> (match r {
            Ok(()) => !old(state).banned_token_store.tokens().contains(t@) && jwt_claims(
                t@,
                old(state).jwt_secret@,
            ) is Some && final(state).banned_token_store.tokens() == old(state).banned_token_store.tokens().insert(t@),
            Err(e) => e == AuthAPIError::InvalidToken && final(state).banned_token_store == old(state).banned_token_store,
        }),
        (token matches Some(t) && validate_token_rejects(
            old(state).banned_token_store.tokens(),
            t@,
            old(state).jwt_secret@,
        )) ==> r == Err::<(), AuthAPIError>(AuthAPIError::InvalidToken),
{
    let t = match token {
        Some(t) => t,
        None => return Err(AuthAPIError::MissingToken),
    };
    match validate_token(t.as_str(), &state.banned_token_store, state.jwt_secret.as_str()) {
        Ok(_) => (),
        Err(_) => return Err(AuthAPIError::InvalidToken),
    }
    match state.banned_token_store.add_token(t) {
        Ok(()) => Ok(()),
        Err(_) => Err(AuthAPIError::UnexpectedError),
    }
}

} // verus!
