pub mod delete_account;
pub mod login;
pub mod logout;
pub mod signup;
pub mod verify_2fa;
pub mod verify_token;
