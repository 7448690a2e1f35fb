use auth_service::AppState;
use auth_service::AuthAPIError;
use auth_service::HashMapTwoFACodeStore;
use auth_service::HashMapUserStore;
use auth_service::HashSetBannedTokenStore;
use auth_service::MockEmailClient;
use auth_service::delete_account;
use auth_service::login;
use auth_service::logout;
use auth_service::routes::delete_account::DeleteAccountRequest;
use auth_service::routes::login::LoginRequest;
use auth_service::routes::login::LoginResponse;
use auth_service::routes::signup::SignupRequest;
use auth_service::routes::verify_2fa::VerifyTwoFactorAuthToken;
use auth_service::routes::verify_token::VerifyTokenRequest;
use auth_service::signup;
use auth_service::stores::BannedTokenStore;
use auth_service::stores::TwoFACodeStore;
use auth_service::verify_2fa;
use auth_service::verify_token;

type TestState = AppState<
    HashMapUserStore,
    HashSetBannedTokenStore,
    HashMapTwoFACodeStore,
    MockEmailClient,
>;

const TEST_SECRET: &str = "workflow-test-secret";

fn expect_err<T>(result: Result<T, AuthAPIError>) -> AuthAPIError {
    match result {
        Ok(_) => panic!("expected an error"),
        Err(e) => e,
    }
}

fn test_state() -> TestState {
    AppState::new(
        HashMapUserStore::new(),
        HashSetBannedTokenStore::new(),
        HashMapTwoFACodeStore::new(),
        MockEmailClient,
        TEST_SECRET.to_owned(),
    )
}

fn signup_request(email: &str, password: &str, requires_2fa: bool) -> SignupRequest {
    SignupRequest {
        email: email.to_owned(),
        password: password.to_owned(),
        requires_2fa,
    }
}

fn login_request(email: &str, password: &str) -> LoginRequest {
    LoginRequest { email: email.to_owned(), password: password.to_owned() }
}

#[test]
fn should_return_201_if_valid_input() {
    let mut state = test_state();
    let response = signup(&mut state, signup_request("user@example.com", "password123", true))
        .expect("Failed for valid input");
    assert_eq!(response.message, "User created successfully!");
}

#[test]
fn signup_should_return_400_if_invalid_input() {
    // Empty email, email without '@', and a too-short password.
    let mut state = test_state();
    let cases = [
        ("", "password123", true),
        ("123456", "password123", true),
        ("user@example.com", "12345", true),
    ];
    for (email, password, requires_2fa) in cases {
        let err = expect_err(signup(&mut state, signup_request(email, password, requires_2fa)));
        assert_eq!(err, AuthAPIError::InvalidCredentials, "Failed for input {:?}", email);
        assert_eq!(err.status_code(), 400);
        assert_eq!(err.to_error_response().error, "Invalid credentials");
    }
}

#[test]
fn should_return_409_if_email_already_exists() {
    let mut state = test_state();
    signup(&mut state, signup_request("user@example.com", "password123", true))
        .expect("first signup should pass");
    let err = expect_err(signup(&mut state, signup_request("user@example.com", "password123", true)));
    assert_eq!(err, AuthAPIError::UserAlreadyExists);
    assert_eq!(err.status_code(), 409);
    assert_eq!(err.to_error_response().error, "User already exists");
}

#[test]
fn login_should_return_400_if_invalid_input() {
    let mut state = test_state();
    let err = expect_err(login(&mut state, login_request("test@rand.email", "pass")));
    assert_eq!(err, AuthAPIError::InvalidCredentials);
    let err = expect_err(login(&mut state, login_request("no-at-sign", "password123")));
    assert_eq!(err, AuthAPIError::InvalidCredentials);
}

#[test]
fn login_should_return_401_if_incorrect_credentials() {
    let mut state = test_state();
    signup(&mut state, signup_request("test@e.mail", "StrongPassword", false))
        .expect("signup should pass");
    let err = expect_err(login(&mut state, login_request("test@e.mail", "incorrect_password")));
    assert_eq!(err, AuthAPIError::IncorrectCredentials);
    assert_eq!(err.status_code(), 401);
    assert_eq!(err.to_error_response().error, "Incorrect credentials");
    // Unknown email answers with the same error, so accounts cannot be
    // enumerated through login.
    let err = expect_err(login(&mut state, login_request("other@e.mail", "StrongPassword")));
    assert_eq!(err, AuthAPIError::IncorrectCredentials);
}

#[test]
fn should_return_200_if_valid_credentials_and_2fa_disabled() {
    let mut state = test_state();
    signup(&mut state, signup_request("user@example.com", "strong_password", false))
        .expect("signup should pass");
    let (response, cookie) = login(&mut state, login_request("user@example.com", "strong_password"))
        .expect("login should pass");
    assert!(matches!(response, LoginResponse::RegularAuth));
    let cookie = cookie.expect("No auth cookie found");
    assert!(!cookie.value().is_empty());
}

#[test]
fn should_return_206_if_valid_credentials_and_2fa_enabled() {
    let mut state = test_state();
    signup(&mut state, signup_request("user@example.com", "strong_password", true))
        .expect("signup should pass");
    let (response, cookie) = login(&mut state, login_request("user@example.com", "strong_password"))
        .expect("login should pass");
    assert!(cookie.is_none());
    let body = match response {
        LoginResponse::TwoFactorAuth(body) => body,
        LoginResponse::RegularAuth => panic!("expected the two-factor response"),
    };
    assert_eq!(body.message, "2FA required");

    let email = auth_service::Email::parse("user@example.com".to_owned())
        .expect("Could not parse email.");
    let (stored_id, _stored_code) = state
        .two_fa_code_store
        .get_code(&email)
        .expect("2FA store should contain code and attempt id.");
    assert_eq!(stored_id.expose_secret(), &body.login_attempt_id);
}

#[test]
fn should_return_400_if_jwt_cookie_missing() {
    let mut state = test_state();
    let err = expect_err(logout(&mut state, None));
    assert_eq!(err, AuthAPIError::MissingToken);
    assert_eq!(err.status_code(), 400);
    assert_eq!(err.to_error_response().error, "Missing cookie");
}

#[test]
fn logout_should_return_401_if_invalid_token() {
    let mut state = test_state();
    let err = expect_err(logout(&mut state, Some("invalid_token".to_owned())));
    assert_eq!(err, AuthAPIError::InvalidToken);
    assert_eq!(err.status_code(), 401);
    assert_eq!(err.to_error_response().error, "Invalid auth token");
}

#[test]
fn should_return_200_if_valid_jwt_cookie() {
    let mut state = test_state();
    signup(&mut state, signup_request("user@example.com", "password123", false))
        .expect("signup should pass");
    let (_, cookie) = login(&mut state, login_request("user@example.com", "password123"))
        .expect("Failed to login");
    let cookie = cookie.expect("No auth cookie found");
    let token = cookie.value().to_owned();

    logout(&mut state, Some(token.clone())).expect("Failed to logout");

    let banned = state
        .banned_token_store
        .contains_token(&token)
        .expect("Failed to check if token is banned");
    assert!(banned);
}

#[test]
fn should_return_400_if_logout_called_twice_in_a_row() {
    let mut state = test_state();
    signup(&mut state, signup_request("user@example.com", "password123", false))
        .expect("signup should pass");
    let (_, cookie) = login(&mut state, login_request("user@example.com", "password123"))
        .expect("Failed to login");
    let cookie = cookie.expect("Could not generate cookie");

    logout(&mut state, Some(cookie.value().to_owned())).expect("first logout should pass");
    // The first logout cleared the cookie, so the second request carries none.
    let err = expect_err(logout(&mut state, None));
    assert_eq!(err, AuthAPIError::MissingToken);
}

fn verify_request(email: &str, id: &str, code: &str) -> VerifyTwoFactorAuthToken {
    VerifyTwoFactorAuthToken {
        email: email.to_owned(),
        login_attempt_id: id.to_owned(),
        code: code.to_owned(),
    }
}

fn two_fa_login(state: &mut TestState, email: &str, password: &str) -> (String, String) {
    signup(state, signup_request(email, password, true)).expect("Failed to sign up user.");
    let (response, _) = login(state, login_request(email, password))
        .expect("Could not dispatch response for login attempt");
    let body = match response {
        LoginResponse::TwoFactorAuth(body) => body,
        LoginResponse::RegularAuth => panic!("expected the two-factor response"),
    };
    let parsed = auth_service::Email::parse(email.to_owned()).expect("Failed to parse email");
    let (_, stored_code) = state
        .two_fa_code_store
        .get_code(&parsed)
        .expect("Could not obtain code from app state");
    (body.login_attempt_id, stored_code.expose_secret().clone())
}

#[test]
fn verify_2fa_should_return_401_if_incorrect_credentials() {
    let mut state = test_state();
    let (attempt_id, code) = two_fa_login(&mut state, "user@example.com", "TestPassword");

    // Wrong email, wrong attempt id, wrong code: one answer for all three.
    let other_id = auth_service::LoginAttemptId::default();
    let wrong_code = if code == "111111" { "111112".to_owned() } else { "111111".to_owned() };
    let cases = [
        verify_request("other@example.com", &attempt_id, &code),
        verify_request("user@example.com", other_id.expose_secret(), &code),
        verify_request("user@example.com", &attempt_id, &wrong_code),
    ];
    for request in cases {
        let err = expect_err(verify_2fa(&mut state, request));
        assert_eq!(err, AuthAPIError::IncorrectCredentials);
        assert_eq!(err.to_error_response().error, "Incorrect credentials");
    }
    // The challenge is still pending: the right triple still verifies.
    verify_2fa(&mut state, verify_request("user@example.com", &attempt_id, &code))
        .expect("Verify request fails");
}

#[test]
fn should_return_401_if_old_code() {
    let mut state = test_state();
    let (old_attempt_id, old_code) = two_fa_login(&mut state, "user@example.com", "TestPassword");

    // A second login overwrites the pending challenge for the email.
    login(&mut state, login_request("user@example.com", "TestPassword"))
        .expect("Could not dispatch response for login attempt");

    let err = verify_2fa(
        &mut state,
        verify_request("user@example.com", &old_attempt_id, &old_code),
    );
    assert!(
        matches!(err, Err(AuthAPIError::IncorrectCredentials)),
        "Failed to refuse old code verification."
    );
}

#[test]
fn should_return_200_if_correct_code() {
    let mut state = test_state();
    let (attempt_id, code) = two_fa_login(&mut state, "user@example.com", "TesPassword");

    let cookie = verify_2fa(&mut state, verify_request("user@example.com", &attempt_id, &code))
        .expect("Verify request fails");
    assert!(!cookie.value().is_empty(), "No auth cookie found");
    verify_token(&state, VerifyTokenRequest { token: cookie.value().to_owned() })
        .expect("issued cookie should verify");
}

#[test]
fn should_return_401_if_correct_code_used_twice() {
    let mut state = test_state();
    let (attempt_id, code) = two_fa_login(&mut state, "user@example.com", "TesPassword");

    verify_2fa(&mut state, verify_request("user@example.com", &attempt_id, &code))
        .expect("Verify request fails");

    let err = expect_err(verify_2fa(&mut state, verify_request("user@example.com", &attempt_id, &code)));
    assert_eq!(err, AuthAPIError::IncorrectCredentials, "Failed to refuse old code verification.");
    assert_eq!(err.to_error_response().error, "Incorrect credentials");
}

#[test]
fn verify_token_should_return_401_if_invalid_token() {
    let state = test_state();
    let err = expect_err(verify_token(&state, VerifyTokenRequest { token: "Invalid".to_owned() }));
    assert_eq!(err, AuthAPIError::InvalidToken);
    assert_eq!(err.to_error_response().error, "Invalid auth token");
}

#[test]
fn should_return_401_if_banned_token() {
    let mut state = test_state();
    signup(&mut state, signup_request("user@example.com", "password123", false))
        .expect("signup should pass");
    let (_, cookie) = login(&mut state, login_request("user@example.com", "password123"))
        .expect("login should pass");
    let token = cookie.expect("Could not find auth cookie").value().to_owned();
    logout(&mut state, Some(token.clone())).expect("logout should pass");

    let err = expect_err(verify_token(&state, VerifyTokenRequest { token }));
    assert_eq!(err, AuthAPIError::InvalidToken);
    assert_eq!(err.to_error_response().error, "Invalid auth token");
}

#[test]
fn should_return_200_if_valid_token() {
    let mut state = test_state();
    signup(&mut state, signup_request("user@example.com", "some_strong_passwd", false))
        .expect("signup should pass");
    let (_, cookie) = login(&mut state, login_request("user@example.com", "some_strong_passwd"))
        .expect("login should pass");
    let token = cookie.expect("Failed to find auth Cooke").value().to_owned();

    assert!(verify_token(&state, VerifyTokenRequest { token }).is_ok());
}

#[test]
fn should_return_204_if_valid_input_and_user_is_deleted() {
    let mut state = test_state();
    signup(&mut state, signup_request("user@example.com", "password123", false))
        .expect("signup should pass");
    let result = delete_account(
        &mut state,
        DeleteAccountRequest { email: "user@example.com".to_owned() },
    );
    assert!(result.is_ok(), "Failed for input {:?}", "user@example.com");
}

#[test]
fn should_return_404_if_user_not_found() {
    let mut state = test_state();
    let err = expect_err(delete_account(
        &mut state,
        DeleteAccountRequest { email: "user@example.com".to_owned() },
    ));
    assert_eq!(err, AuthAPIError::UserNotFound);
    assert_eq!(err.status_code(), 404);
    assert_eq!(err.to_error_response().error, "User not found");
}

#[test]
fn should_return_400_if_email_is_malformed() {
    let mut state = test_state();
    let err = expect_err(delete_account(&mut state, DeleteAccountRequest { email: "wrong-email".to_owned() }));
    assert_eq!(err, AuthAPIError::InvalidCredentials);
    assert_eq!(err.status_code(), 400);
    assert_eq!(err.to_error_response().error, "Invalid credentials");
}

#[test]
fn full_session_scenario_without_2fa() {
    // signup 201, login 200 with cookie, verify-token 200, logout 200,
    // verify-token 401.
    let mut state = test_state();
    let response = signup(&mut state, signup_request("a@b.com", "password1", false))
        .expect("signup should pass");
    assert_eq!(response.message, "User created successfully!");

    let (response, cookie) = login(&mut state, login_request("a@b.com", "password1"))
        .expect("login should pass");
    assert!(matches!(response, LoginResponse::RegularAuth));
    let token = cookie.expect("No auth cookie found").value().to_owned();

    verify_token(&state, VerifyTokenRequest { token: token.clone() })
        .expect("fresh token should verify");

    logout(&mut state, Some(token.clone())).expect("logout should pass");

    let err = expect_err(verify_token(&state, VerifyTokenRequest { token }));
    assert_eq!(err, AuthAPIError::InvalidToken);
}

#[test]
fn full_session_scenario_with_2fa() {
    // signup 201, login 206 with attempt id, stored pair matches, verify-2fa
    // 200 with cookie, second verify-2fa 401.
    let mut state = test_state();
    signup(&mut state, signup_request("a@b.com", "password1", true)).expect("signup should pass");

    let (response, cookie) = login(&mut state, login_request("a@b.com", "password1"))
        .expect("login should pass");
    assert!(cookie.is_none());
    let body = match response {
        LoginResponse::TwoFactorAuth(body) => body,
        LoginResponse::RegularAuth => panic!("expected the two-factor response"),
    };

    let email = auth_service::Email::parse("a@b.com".to_owned()).expect("Failed to parse email");
    let (stored_id, stored_code) = state
        .two_fa_code_store
        .get_code(&email)
        .expect("Could not obtain code from app state");
    assert_eq!(stored_id.expose_secret(), &body.login_attempt_id);

    let code = stored_code.expose_secret().clone();
    let cookie = verify_2fa(
        &mut state,
        verify_request("a@b.com", &body.login_attempt_id, &code),
    )
    .expect("Verify request fails");
    assert!(!cookie.value().is_empty(), "No auth cookie found");

    let err = expect_err(verify_2fa(
        &mut state,
        verify_request("a@b.com", &body.login_attempt_id, &code),
    ));
    assert_eq!(err, AuthAPIError::IncorrectCredentials);
}
