use vstd::prelude::*;

use crate::stores::BannedTokenStore;
use crate::stores::EmailClient;
use crate::stores::TwoFACodeStore;
use crate::stores::UserStore;

verus! {

/// The handles a running service owns: one store of each kind, the email
/// transport, and the process-wide signing secret, all injected once at
/// startup.
pub struct AppState<U: UserStore, B: BannedTokenStore, T: TwoFACodeStore, E: EmailClient> {
    pub user_store: U,
    pub banned_token_store: B,
    pub two_fa_code_store: T,
    pub email_client: E,
    pub jwt_secret: String,
}

impl<U: UserStore, B: BannedTokenStore, T: TwoFACodeStore, E: EmailClient> AppState<U, B, T, E> {
    pub fn new(
        user_store: U,
        banned_token_store: B,
        two_fa_code_store: T,
        email_client: E,
        jwt_secret: String,
    ) -> (r: Self)
        ensures
            r.user_store == user_store,
            r.banned_token_store == banned_token_store,
            r.two_fa_code_store == two_fa_code_store,
            r.email_client == email_client,
            r.jwt_secret == jwt_secret,
    {
        AppState { user_store, banned_token_store, two_fa_code_store, email_client, jwt_secret }
    }
}

} // verus!
