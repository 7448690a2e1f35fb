use vstd::prelude::*;
use vstd::string::StrSliceExecFns;

use crate::errors::ValidationError;

verus! {

/// Whether a string is an acceptable raw password: at least 8 characters.
pub open spec fn password_ok(s: Seq<char>) -> bool {
    s.len() >= 8
}

/// A validated password (raw at the input boundary, or a stored hash).  The
/// raw value is read only through an explicit call, and the type has no
/// `Debug`, so it cannot leak into diagnostics by accident.
pub struct Password {
    raw: String,
}

impl View for Password {
    type V = Seq<char>;

    closed spec fn view(&self) -> Seq<char> {
        self.raw@
    }
}

fn validate_password(s: &str) -> (r: bool)
    ensures
        r == password_ok(s@),
{
    s.unicode_len() >= 8
}

impl Password {
    #[verifier::type_invariant]
    closed spec fn inv(self) -> bool {
        password_ok(self.raw@)
    }

    /// Accepts exactly the strings of length 8 or more, unchanged.
    pub fn parse(password: String) -> (r: Result<Password, ValidationError>)
        ensures
            r is Ok <==> password_ok(password@),
            r matches Ok(p) ==> p@ == password@,
    {
        if validate_password(password.as_str()) {
            Ok(Password { raw: password })
        } else {
            Err(ValidationError)
        }
    }

    /// Reads the raw password; the name makes the exposure explicit.
    pub fn expose_secret(&self) -> (r: &String)
        ensures
            r@ == self@,
            password_ok(self@),
    {
        proof {
            use_type_invariant(self);
        }
        &self.raw
    }

    /// Reads the raw password.
    pub fn as_ref(&self) -> (r: &String)
        ensures
            r@ == self@,
            password_ok(self@),
    {
        self.expose_secret()
    }
}

impl Clone for Password {
    fn clone(&self) -> (r: Self)
        ensures
            r@ == self@,
    {
        proof {
            use_type_invariant(self);
        }
        Password { raw: self.raw.clone() }
    }
}

impl PartialEq for Password {
    fn eq(&self, other: &Self) -> (r: bool) {
        self.raw == other.raw
    }
}

impl Eq for Password {
}

impl vstd::std_specs::cmp::PartialEqSpecImpl for Password {
    open spec fn obeys_eq_spec() -> bool {
        true
    }

    open spec fn eq_spec(&self, other: &Self) -> bool {
        self@ == other@
    }
}

} // verus!
