use vstd::prelude::*;
use vstd::string::StrSliceExecFns;
use vstd::string::StringExecFns;

use crate::email::Email;
use crate::errors::ValidationError;
use crate::two_fa::LoginAttemptId;
use crate::two_fa::TwoFACode;
use crate::two_fa::two_fa_code_ok;
use crate::two_fa::uuid_canonical;

verus! {

/// The cache key under which a revoked token is stored by the expiring
/// registry backend.
pub fn get_key(token: &str) -> (r: String)
    ensures
        r@ == "banned_token:"@ + token@,
{
    let mut r = String::from_str("banned_token:");
    r.append(token);
    r
}

/// The cache key under which an email's pending challenge is stored by the
/// expiring challenge-store backend.
pub fn two_fa_key(email: &Email) -> (r: String)
    ensures
        r@ == "two_fa_code:"@ + email@,
{
    let mut r = String::from_str("two_fa_code:");
    r.append(email.as_ref().as_str());
    r
}

/// One cache value holding a whole pending challenge: the 36-character
/// attempt id followed by the 6-digit code.
pub fn encode_challenge(login_attempt_id: &LoginAttemptId, code: &TwoFACode) -> (r: String)
    ensures
        r@ == login_attempt_id@ + code@,
        r@.len() == 42,
{
    let mut r = login_attempt_id.as_ref().clone();
    r.append(code.as_ref().as_str());
    r
}

/// Reads a challenge back from its cache value, checking both parts; the
/// attempt id is normalised just as `LoginAttemptId::parse` does.
pub fn decode_challenge(s: &str) -> (r: Result<(LoginAttemptId, TwoFACode), ValidationError>)
    ensures
        r matches Ok(p) ==> s@.len() == 42 && Some(p.0@) == uuid_canonical(s@.subrange(0, 36))
            && p.1@ == s@.subrange(36, 42),
        (s@.len() == 42 && uuid_canonical(s@.subrange(0, 36)) is Some && two_fa_code_ok(
            s@.subrange(36, 42),
        )) ==> r is Ok,
{
    let n = s.unicode_len();
    if n != 42 {
        return Err(ValidationError);
    }
    let id_part = s.substring_char(0, 36);
    let code_part = s.substring_char(36, 42);
    let login_attempt_id = LoginAttemptId::parse(id_part.to_owned())?;
    let code = TwoFACode::parse(code_part.to_owned())?;
    Ok((login_attempt_id, code))
}

} // verus!
