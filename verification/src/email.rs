use vstd::prelude::*;

use crate::errors::ValidationError;

verus! {

/// Whether a string is an acceptable email address.  The judgement is the
/// one `validator::validate_email` makes; it is a function of the
/// characters alone.
pub uninterp spec fn email_ok(s: Seq<char>) -> bool;

/// Relies on `validator::validate_email` (validator 0.16): a deterministic
/// check of the string against the HTML5 address shape.  Its source rejects
/// the empty string and any string without an `'@'` before all other tests.
#[verifier::external_body]
fn check_email(s: &str) -> (r: bool)
    ensures
        r == email_ok(s@),
        s@.len() == 0 ==> !r,
        (forall|i: int| 0 <= i < s@.len() ==> s@[i] != '@') ==> !r,
{
    validator::validate_email(s)
}

/// A validated email address.  The store keys records by it, so equality is
/// defined on the full string.  The raw value is read only through an
/// explicit call, and the type has no `Debug`, so it cannot leak into
/// diagnostics by accident.
pub struct Email {
    address: String,
}

impl View for Email {
    type V = Seq<char>;

    closed spec fn view(&self) -> Seq<char> {
        self.address@
    }
}

impl Email {
    #[verifier::type_invariant]
    closed spec fn inv(self) -> bool {
        email_ok(self.address@)
    }

    /// Accepts exactly the strings that the address check accepts, and keeps
    /// the accepted string unchanged.
    pub fn parse(email: String) -> (r: Result<Email, ValidationError>)
        ensures
            r is Ok <==> email_ok(email@),
            r matches Ok(e) ==> e@ == email@,
    {
        if check_email(email.as_str()) {
            Ok(Email { address: email })
        } else {
            Err(ValidationError)
        }
    }

    /// Reads the raw address; the name makes the exposure explicit.
    pub fn expose_secret(&self) -> (r: &String)
        ensures
            r@ == self@,
            email_ok(self@),
    {
        proof {
            use_type_invariant(self);
        }
        &self.address
    }

    /// Reads the raw address.
    pub fn as_ref(&self) -> (r: &String)
        ensures
            r@ == self@,
            email_ok(self@),
    {
        self.expose_secret()
    }
}

impl Clone for Email {
    fn clone(&self) -> (r: Self)
        ensures
            r@ == self@,
    {
        proof {
            use_type_invariant(self);
        }
        Email { address: self.address.clone() }
    }
}

impl PartialEq for Email {
    fn eq(&self, other: &Self) -> (r: bool) {
        self.address == other.address
    }
}

impl Eq for Email {
}

impl vstd::std_specs::cmp::PartialEqSpecImpl for Email {
    open spec fn obeys_eq_spec() -> bool {
        true
    }

    open spec fn eq_spec(&self, other: &Self) -> bool {
        self@ == other@
    }
}

} // verus!
