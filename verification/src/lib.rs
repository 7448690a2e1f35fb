//! Credential-and-session lifecycle engine for an authentication service.
//!
//! The library owns user credential storage, password hashing, signed
//! session-token issuance, validation and revocation, and the two-factor
//! challenge flow.  Value types validate their raw inputs once and keep the
//! invariant from then on; the three stores are specified as maps and sets
//! over character sequences; the request-level workflows compose them and
//! state exactly which response each input earns.

pub mod app_state;
pub mod auth;
pub mod cache_codec;
pub mod email;
pub mod errors;
pub mod hashing;
pub mod hashmap_two_fa_code_store;
pub mod hashmap_user_store;
pub mod hashset_banned_token_store;
pub mod laws;
pub mod mock_email_client;
pub mod password;
pub mod routes;
pub mod stores;
pub mod two_fa;
pub mod user;

pub use app_state::AppState;
pub use auth::Claims;
pub use auth::generate_auth_cookie;
pub use auth::validate_token;
pub use cache_codec::get_key;
pub use email::Email;
pub use errors::AuthAPIError;
pub use errors::ErrorResponse;
pub use errors::ValidationError;
pub use errors::log_error_chain;
pub use hashmap_two_fa_code_store::HashMapTwoFACodeStore;
pub use hashmap_user_store::HashMapUserStore;
pub use hashset_banned_token_store::HashSetBannedTokenStore;
pub use mock_email_client::MockEmailClient;
pub use password::Password;
pub use routes::delete_account::delete_account;
pub use routes::login::login;
pub use routes::logout::logout;
pub use routes::signup::signup;
pub use routes::verify_2fa::verify_2fa;
pub use routes::verify_token::verify_token;
pub use two_fa::LoginAttemptId;
pub use two_fa::TwoFACode;
pub use user::User;
