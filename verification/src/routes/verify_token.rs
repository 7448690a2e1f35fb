use vstd::prelude::*;

use crate::app_state::AppState;
use crate::auth::jwt_claims;
use crate::auth::validate_token;
use crate::auth::validate_token_rejects;
use crate::errors::AuthAPIError;
use crate::stores::BannedTokenStore;
use crate::stores::EmailClient;
use crate::stores::TwoFACodeStore;
use crate::stores::UserStore;

verus! {

/// The parsed body of a token verification request.
pub struct VerifyTokenRequest {
    pub token: String,
}

/// Checks a presented session token: revoked or signature-invalid tokens
/// are rejected (the registry is consulted on every call), and an expired
/// one is rejected by the clock check.  Every failure is `InvalidToken`.
pub fn verify_token<U: UserStore, B: BannedTokenStore, T: TwoFACodeStore, E: EmailClient>(
    state: &AppState<U, B, T, E>,
    request: VerifyTokenRequest,
) -> (r: Result<(), AuthAPIError>)
    ensures
        validate_token_rejects(
            state.banned_token_store.tokens(),
            request.token@,
            state.jwt_secret@,
        ) ==> r == Err::<(), AuthAPIError>(AuthAPIError::InvalidToken),
        r is Ok ==> !state.banned_token_store.tokens().contains(request.token@) && jwt_claims(
            request.token@,
            state.jwt_secret@,
        ) is Some,
        r is Err ==> r == Err::<(), AuthAPIError>(AuthAPIError::InvalidToken),
{
    match validate_token(
        request.token.as_str(),
        &state.banned_token_store,
        state.jwt_secret.as_str(),
    ) {
        Ok(_) => Ok(()),
        Err(_) => Err(AuthAPIError::InvalidToken),
    }
}

} // verus!
