use auth_service::Email;
use auth_service::LoginAttemptId;
use auth_service::Password;
use auth_service::TwoFACode;

#[test]
fn test_valid_email() {
    let email = Email::parse("user@example.com".to_owned());
    assert!(email.is_ok());
}

#[test]
fn test_invalid_email() {
    let email = Email::parse("userexample.com".to_owned());
    assert!(email.is_err());
}

#[test]
fn email_accepts_dotted_tld_address() {
    assert!(Email::parse("user@domain.tld".to_owned()).is_ok());
}

#[test]
fn email_rejects_missing_at_sign() {
    assert!(Email::parse("userdomain.com".to_owned()).is_err());
}

#[test]
fn email_rejects_empty_string() {
    assert!(Email::parse("".to_owned()).is_err());
}

#[test]
fn email_keeps_accepted_string() {
    let email = Email::parse("user@example.com".to_owned()).unwrap();
    assert_eq!(email.expose_secret(), "user@example.com");
    let copy = email.clone();
    assert!(copy == email);
}

#[test]
fn empty_string_is_rejected() {
    let password = "".to_string();
    assert!(Password::parse(password).is_err());
}

#[test]
fn string_less_than_8_characters_is_rejected() {
    let password = "1234567".to_string();
    assert!(Password::parse(password).is_err());
}

#[test]
fn string_with_at_least_8_characters_are_ok() {
    let password = "12345678".to_string();
    assert!(Password::parse(password).is_ok());
}

#[test]
fn two_fa_code_rejects_five_digits() {
    assert!(TwoFACode::parse("12345".to_owned()).is_err());
}

#[test]
fn two_fa_code_rejects_seven_digits() {
    assert!(TwoFACode::parse("1234567".to_owned()).is_err());
}

#[test]
fn two_fa_code_rejects_letter_inside() {
    assert!(TwoFACode::parse("12a456".to_owned()).is_err());
}

#[test]
fn two_fa_code_accepts_six_digits() {
    let code = TwoFACode::parse("123456".to_owned()).unwrap();
    assert_eq!(code.expose_secret(), "123456");
}

#[test]
fn two_fa_code_rejects_leading_zero() {
    // Codes are drawn from 100000..=999999, so a leading zero never occurs.
    assert!(TwoFACode::parse("012345".to_owned()).is_err());
}

#[test]
fn two_fa_code_rejects_plus_sign() {
    assert!(TwoFACode::parse("+23456".to_owned()).is_err());
}

#[test]
fn generated_two_fa_code_is_in_range() {
    for _ in 0..16 {
        let code = TwoFACode::default();
        let value: u32 = code.expose_secret().parse().unwrap();
        assert!((100000..=999999).contains(&value));
        assert_eq!(code.expose_secret().len(), 6);
        let reparsed = TwoFACode::parse(code.expose_secret().clone()).unwrap();
        assert!(reparsed == code);
    }
}

#[test]
fn login_attempt_id_accepts_uuid() {
    let id = LoginAttemptId::parse("550e8400-e29b-41d4-a716-446655440000".to_owned()).unwrap();
    assert_eq!(id.expose_secret(), "550e8400-e29b-41d4-a716-446655440000");
}

#[test]
fn login_attempt_id_normalizes_simple_form() {
    // The parser accepts the un-hyphenated form and renders it canonically,
    // so the wrapper demonstrably transforms its input.
    let id = LoginAttemptId::parse("550e8400e29b41d4a716446655440000".to_owned()).unwrap();
    assert_eq!(id.expose_secret(), "550e8400-e29b-41d4-a716-446655440000");
}

#[test]
fn login_attempt_id_rejects_garbage() {
    assert!(LoginAttemptId::parse("not-a-uuid".to_owned()).is_err());
    assert!(LoginAttemptId::parse("".to_owned()).is_err());
}

#[test]
fn generated_login_attempt_id_round_trips() {
    let id = LoginAttemptId::default();
    assert_eq!(id.expose_secret().len(), 36);
    let reparsed = LoginAttemptId::parse(id.expose_secret().clone()).unwrap();
    assert!(reparsed == id);
    let other = LoginAttemptId::default();
    assert!(!(other == id));
}
