use vstd::prelude::*;

use crate::email::Email;
use crate::password::Password;

verus! {

/// The mathematical model of a credential record: the raw character data of
/// its fields.
pub ghost struct UserView {
    pub email: Seq<char>,
    pub password: Seq<char>,
    pub requires_2fa: bool,
}

/// A credential record: email (the store key), password (raw or hashed,
/// depending on the backend) and the two-factor flag.
pub struct User {
    pub email: Email,
    pub password: Password,
    pub requires_2fa: bool,
}

impl View for User {
    type V = UserView;

    open spec fn view(&self) -> UserView {
        UserView {
            email: self.email@,
            password: self.password@,
            requires_2fa: self.requires_2fa,
        }
    }
}

impl User {
    pub fn new(email: Email, password: Password, requires_2fa: bool) -> (u: User)
        ensures
            u@.email == email@,
            u@.password == password@,
            u@.requires_2fa == requires_2fa,
    {
        User { email, password, requires_2fa }
    }
}

impl Clone for User {
    fn clone(&self) -> (r: Self)
        ensures
            r@ == self@,
    {
        User {
            email: self.email.clone(),
            password: self.password.clone(),
            requires_2fa: self.requires_2fa,
        }
    }
}

} // verus!
