use vstd::prelude::*;

use crate::auth::jwt_claims;
use crate::auth::validate_token_rejects;
use crate::email::email_ok;
use crate::errors::AuthAPIError;
use crate::password::password_ok;
use crate::routes::signup::signup_outcome;
use crate::routes::verify_2fa::verify_2fa_accepts;
use crate::two_fa::two_fa_code_ok;
use crate::two_fa::uuid_canonical;
use crate::user::UserView;

verus! {

/// Two signups with one email: the first creates the account, the second is
/// refused with `UserAlreadyExists`, whatever password or two-factor flag it
/// carries.
pub proof fn lemma_signup_twice_conflicts(
    users: Map<Seq<char>, UserView>,
    email: Seq<char>,
    pw1: Seq<char>,
    f1: bool,
    pw2: Seq<char>,
    f2: bool,
)
    requires
        email_ok(email),
        password_ok(pw1),
        password_ok(pw2),
        !users.contains_key(email),
    ensures
        signup_outcome(users, email, pw1, f1) is Ok,
        signup_outcome(signup_outcome(users, email, pw1, f1).unwrap(), email, pw2, f2) == Err::<
            Map<Seq<char>, UserView>,
            AuthAPIError,
        >(AuthAPIError::UserAlreadyExists),
{
}

/// A challenge a two-factor login has just stored is retrievable: the store
/// holds, under that email, exactly the attempt id the login answered with
/// and the code it dispatched.
pub proof fn lemma_login_challenge_retrievable(
    codes: Map<Seq<char>, (Seq<char>, Seq<char>)>,
    email: Seq<char>,
    id: Seq<char>,
    code: Seq<char>,
)
    ensures
        codes.insert(email, (id, code)).contains_key(email),
        codes.insert(email, (id, code))[email] == (id, code),
{
}

/// Anti-replay: a triple that has just been consumed (its challenge removed)
/// no longer verifies, even though the very same triple verified before.
pub proof fn lemma_verify_2fa_replay_rejected(
    codes: Map<Seq<char>, (Seq<char>, Seq<char>)>,
    email: Seq<char>,
    id_raw: Seq<char>,
    code: Seq<char>,
)
    requires
        verify_2fa_accepts(codes, email, id_raw, code),
    ensures
        !verify_2fa_accepts(codes.remove(email), email, id_raw, code),
{
}

/// A wrong email (no pending challenge), a wrong attempt id and a wrong code
/// each make the verification fail; the workflow answers all three with the
/// same `IncorrectCredentials`.
pub proof fn lemma_verify_2fa_mismatch_rejected(
    codes: Map<Seq<char>, (Seq<char>, Seq<char>)>,
    email: Seq<char>,
    id_raw: Seq<char>,
    code: Seq<char>,
)
    ensures
        !codes.contains_key(email) ==> !verify_2fa_accepts(codes, email, id_raw, code),
        (codes.contains_key(email) && uuid_canonical(id_raw) is Some && codes[email].0
            != uuid_canonical(id_raw).unwrap()) ==> !verify_2fa_accepts(codes, email, id_raw, code),
        (codes.contains_key(email) && codes[email].1 != code) ==> !verify_2fa_accepts(
            codes,
            email,
            id_raw,
            code,
        ),
{
}

/// A token the logout has just revoked is rejected by every later
/// validation, however sound its signature still is.
pub proof fn lemma_logout_revokes(tokens: Set<Seq<char>>, token: Seq<char>, secret: Seq<char>)
    ensures
        validate_token_rejects(tokens.insert(token), token, secret),
{
}

/// A token whose signature verifies under the secret and which is not in
/// the revocation registry is rejected for no clock-independent reason;
/// only its expiry can still turn it away.
pub proof fn lemma_fresh_token_not_revoked(
    tokens: Set<Seq<char>>,
    token: Seq<char>,
    secret: Seq<char>,
)
    requires
        !tokens.contains(token),
        jwt_claims(token, secret) is Some,
    ensures
        !validate_token_rejects(tokens, token, secret),
{
}

/// A challenge value decodes back to the pair it was encoded from: the
/// round trip behind the single-value cache backend.
pub proof fn lemma_challenge_codec_round_trip(id: Seq<char>, code: Seq<char>)
    requires
        id.len() == 36,
        code.len() == 6,
    ensures
        (id + code).len() == 42,
        (id + code).subrange(0, 36) == id,
        (id + code).subrange(36, 42) == code,
{
    assert((id + code).subrange(0, 36) =~= id);
    assert((id + code).subrange(36, 42) =~= code);
}

} // verus!
