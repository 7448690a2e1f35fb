use rand::Rng;
use vstd::prelude::*;
use vstd::string::StrSliceExecFns;

use crate::errors::ValidationError;

verus! {

/// The canonical (lowercase hyphenated) rendering of a UUID string, or
/// `None` when the string is not a UUID.  The judgement and the rendering
/// are those of `uuid::Uuid::parse_str` followed by its `Display` form; both
/// are functions of the characters alone.
pub uninterp spec fn uuid_canonical(s: Seq<char>) -> Option<Seq<char>>;

/// Relies on `uuid::Uuid::parse_str` (uuid 1.x), a deterministic parser, and
/// on the hyphenated 36-character `Display` form; parsing a rendering it
/// produced yields the same rendering back.
#[verifier::external_body]
fn uuid_normalize(s: &str) -> (r: Result<String, ()>)
    ensures
        r matches Ok(c) ==> uuid_canonical(s@) == Some(c@) && c@.len() == 36
            && uuid_canonical(c@) == Some(c@),
        r is Err ==> uuid_canonical(s@) is None,
{
    match uuid::Uuid::parse_str(s) {
        Ok(u) => Ok(u.to_string()),
        Err(_) => Err(()),
    }
}

/// Relies on `uuid::Uuid::new_v4`: the value is random, so only its shape is
/// promised — a canonical 36-character rendering.
#[verifier::external_body]
fn uuid_generate() -> (r: String)
    ensures
        r@.len() == 36,
        uuid_canonical(r@) == Some(r@),
{
    uuid::Uuid::new_v4().to_string()
}

/// Relies on `rand::Rng::gen_range` over `100000..=999999`: the draw is
/// random, and lies in the inclusive range.
#[verifier::external_body]
fn random_six_digit_number() -> (r: u32)
    ensures
        100000 <= r <= 999999,
{
    rand::thread_rng().gen_range(100000..=999999)
}

/// Relies on std's `String::push`, which vstd does not specify.
#[verifier::external_body]
fn push_char(s: &mut String, c: char)
    ensures
        final(s)@ == old(s)@ + seq![c],
{
    s.push(c);
}

/// An opaque identifier for one pending two-factor login, in canonical UUID
/// textual form.
pub struct LoginAttemptId {
    id: String,
}

impl View for LoginAttemptId {
    type V = Seq<char>;

    closed spec fn view(&self) -> Seq<char> {
        self.id@
    }
}

impl LoginAttemptId {
    #[verifier::type_invariant]
    closed spec fn inv(self) -> bool {
        self.id@.len() == 36 && uuid_canonical(self.id@) == Some(self.id@)
    }

    /// Accepts exactly the syntactically valid UUID strings, normalised to
    /// their canonical rendering.
    pub fn parse(id: String) -> (r: Result<LoginAttemptId, ValidationError>)
        ensures
            r is Ok <==> uuid_canonical(id@) is Some,
            r matches Ok(l) ==> Some(l@) == uuid_canonical(id@),
    {
        match uuid_normalize(id.as_str()) {
            Ok(c) => Ok(LoginAttemptId { id: c }),
            Err(_) => Err(ValidationError),
        }
    }

    /// A fresh random identifier.
    pub fn generate() -> (r: LoginAttemptId)
        ensures
            r@.len() == 36,
            uuid_canonical(r@) == Some(r@),
    {
        LoginAttemptId { id: uuid_generate() }
    }

    /// Reads the raw identifier; the name makes the exposure explicit.
    pub fn expose_secret(&self) -> (r: &String)
        ensures
            r@ == self@,
            self@.len() == 36,
            uuid_canonical(self@) == Some(self@),
    {
        proof {
            use_type_invariant(self);
        }
        &self.id
    }

    /// Reads the raw identifier.
    pub fn as_ref(&self) -> (r: &String)
        ensures
            r@ == self@,
            self@.len() == 36,
            uuid_canonical(self@) == Some(self@),
    {
        self.expose_secret()
    }
}

impl Default for LoginAttemptId {
    /// A fresh random identifier, as the original challenge creation draws it.
    fn default() -> (r: Self)
        ensures
            r@.len() == 36,
            uuid_canonical(r@) == Some(r@),
    {
        LoginAttemptId::generate()
    }
}

impl Clone for LoginAttemptId {
    fn clone(&self) -> (r: Self)
        ensures
            r@ == self@,
    {
        proof {
            use_type_invariant(self);
        }
        LoginAttemptId { id: self.id.clone() }
    }
}

impl PartialEq for LoginAttemptId {
    fn eq(&self, other: &Self) -> (r: bool) {
        self.id == other.id
    }
}

impl Eq for LoginAttemptId {
}

impl vstd::std_specs::cmp::PartialEqSpecImpl for LoginAttemptId {
    open spec fn obeys_eq_spec() -> bool {
        true
    }

    open spec fn eq_spec(&self, other: &Self) -> bool {
        self@ == other@
    }
}

/// Whether a string is an acceptable two-factor code: exactly six decimal
/// digits, the first one nonzero (codes are drawn from 100000..=999999).
pub open spec fn two_fa_code_ok(s: Seq<char>) -> bool {
    &&& s.len() == 6
    &&& (forall|i: int| 0 <= i < s.len() ==> '0' <= #[trigger] s[i] <= '9')
    &&& s[0] != '0'
}

/// A six-digit one-time code.  The raw value is read only through an
/// explicit call, and the type has no `Debug`, so it cannot leak into
/// diagnostics by accident.
pub struct TwoFACode {
    code: String,
}

impl View for TwoFACode {
    type V = Seq<char>;

    closed spec fn view(&self) -> Seq<char> {
        self.code@
    }
}

impl TwoFACode {
    #[verifier::type_invariant]
    closed spec fn inv(self) -> bool {
        two_fa_code_ok(self.code@)
    }

    /// Accepts exactly the six-digit codes a challenge can hold, unchanged.
    pub fn parse(code: String) -> (r: Result<TwoFACode, ValidationError>)
        ensures
            r is Ok <==> two_fa_code_ok(code@),
            r matches Ok(c) ==> c@ == code@,
    {
        let s = code.as_str();
        if s.unicode_len() != 6 {
            return Err(ValidationError);
        }
        let mut i: usize = 0;
        while i < 6
            invariant
                s@ == code@,
                s@.len() == 6,
                0 <= i <= 6,
                forall|j: int| 0 <= j < i ==> '0' <= #[trigger] s@[j] <= '9',
            decreases 6 - i,
        {
            let c = s.get_char(i);
            if c < '0' || c > '9' {
                proof {
                    assert(!('0' <= s@[i as int] <= '9'));
                    assert(!two_fa_code_ok(code@));
                }
                return Err(ValidationError);
            }
            i = i + 1;
        }
        if s.get_char(0) == '0' {
            return Err(ValidationError);
        }
        Ok(TwoFACode { code })
    }

    /// A fresh uniformly random code in 100000..=999999.
    pub fn generate() -> (r: TwoFACode)
        ensures
            two_fa_code_ok(r@),
    {
        let n = random_six_digit_number();
        let mut s = String::new();
        push_char(&mut s, digit_char(n / 100000));
        push_char(&mut s, digit_char((n / 10000) % 10));
        push_char(&mut s, digit_char((n / 1000) % 10));
        push_char(&mut s, digit_char((n / 100) % 10));
        push_char(&mut s, digit_char((n / 10) % 10));
        push_char(&mut s, digit_char(n % 10));
        proof {
            assert(1 <= n / 100000 <= 9);
            assert(s@.len() == 6);
            assert(two_fa_code_ok(s@));
        }
        TwoFACode { code: s }
    }

    /// Reads the raw code; the name makes the exposure explicit.
    pub fn expose_secret(&self) -> (r: &String)
        ensures
            r@ == self@,
            two_fa_code_ok(self@),
    {
        proof {
            use_type_invariant(self);
        }
        &self.code
    }

    /// Reads the raw code.
    pub fn as_ref(&self) -> (r: &String)
        ensures
            r@ == self@,
            two_fa_code_ok(self@),
    {
        self.expose_secret()
    }
}

/// The character for one decimal digit.
fn digit_char(d: u32) -> (c: char)
    requires
        d <= 9,
    ensures
        c as int == '0' as int + d,
        '0' <= c <= '9',
        d != 0 ==> c != '0',
{
    let b: u8 = 48 + (d as u8);
    let c = b as char;
    assert(c as int == '0' as int + d);
    c
}

impl Default for TwoFACode {
    /// A fresh random code, as the original challenge creation draws it.
    fn default() -> (r: Self)
        ensures
            two_fa_code_ok(r@),
    {
        TwoFACode::generate()
    }
}

impl Clone for TwoFACode {
    fn clone(&self) -> (r: Self)
        ensures
            r@ == self@,
    {
        proof {
            use_type_invariant(self);
        }
        TwoFACode { code: self.code.clone() }
    }
}

impl PartialEq for TwoFACode {
    fn eq(&self, other: &Self) -> (r: bool) {
        self.code == other.code
    }
}

impl Eq for TwoFACode {
}

impl vstd::std_specs::cmp::PartialEqSpecImpl for TwoFACode {
    open spec fn obeys_eq_spec() -> bool {
        true
    }

    open spec fn eq_spec(&self, other: &Self) -> bool {
        self@ == other@
    }
}

} // verus!
