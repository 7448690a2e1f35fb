use vstd::prelude::*;

use crate::email::Email;
use crate::errors::AuthAPIError;
use crate::stores::BannedTokenStore;

verus! {

/// The fixed name of the session cookie.
pub const JWT_COOKIE_NAME: &'static str = "jwt";

/// Session tokens live this many seconds from issuance.
pub const TOKEN_TTL_SECONDS: i64 = 600;

/// The claims carried by a session token: the subject (the email it was
/// issued for) and the absolute expiry as a Unix timestamp.
pub struct Claims {
    pub sub: String,
    pub exp: u64,
}

/// The claims that signature verification under a given secret extracts
/// from a token, independent of the clock: `Some((subject, expiry))` when
/// the token is a well-formed HS256 token whose signature matches the
/// secret and whose payload carries a string `sub` and an integer `exp`,
/// `None` otherwise.  The extraction is the one `jsonwebtoken::decode`
/// makes; it is a function of the token and the secret alone.
pub uninterp spec fn jwt_claims(token: Seq<char>, secret: Seq<char>) -> Option<(Seq<char>, int)>;

/// Relies on `jsonwebtoken::encode` (jsonwebtoken 9) with the default HS256
/// header: deterministic in the claims and the secret, and the token it
/// returns carries exactly these claims — `jsonwebtoken::decode` under the
/// same secret verifies its signature and reads them back.
#[verifier::external_body]
fn create_token(claims: &Claims, secret: &str) -> (r: Result<String, ()>)
    ensures
        r matches Ok(t) ==> jwt_claims(t@, secret@) == Some((claims.sub@, claims.exp as int)),
{
    let mut payload = serde_json::Map::new();
    payload.insert("sub".to_owned(), serde_json::Value::String(claims.sub.clone()));
    payload.insert("exp".to_owned(), serde_json::Value::from(claims.exp));
    jsonwebtoken::encode(
        &jsonwebtoken::Header::default(),
        &serde_json::Value::Object(payload),
        &jsonwebtoken::EncodingKey::from_secret(secret.as_bytes()),
    ).map_err(|_| ())
}

/// Relies on `jsonwebtoken::decode` (jsonwebtoken 9) with
/// `Validation::default()` (HS256, expiry checked against the clock with
/// its fixed leeway): it succeeds only when the signature verifies under
/// this secret and the token is unexpired, and the claims it returns are
/// read from the verified payload.
#[verifier::external_body]
fn decode_token(token: &str, secret: &str) -> (r: Result<Claims, ()>)
    ensures
        r matches Ok(c) ==> jwt_claims(token@, secret@) == Some((c.sub@, c.exp as int)),
        jwt_claims(token@, secret@) is None ==> r is Err,
{
    let data = jsonwebtoken::decode::<serde_json::Value>(
        token,
        &jsonwebtoken::DecodingKey::from_secret(secret.as_bytes()),
        &jsonwebtoken::Validation::default(),
    ).map_err(|_| ())?;
    let sub = data.claims.get("sub").and_then(|v| v.as_str()).ok_or(())?.to_owned();
    let exp = data.claims.get("exp").and_then(|v| v.as_u64()).ok_or(())?;
    Ok(Claims { sub, exp })
}

/// Relies on `chrono::Utc::now`: nothing can be promised of the clock.
#[verifier::external_body]
fn now_timestamp() -> (r: i64) {
    chrono::Utc::now().timestamp()
}

/// Issues a signed session token for an email, expiring
/// [`TOKEN_TTL_SECONDS`] from now.  Any token it returns carries the email
/// as its subject under the given secret.
pub fn generate_auth_token(email: &Email, secret: &str) -> (r: Result<String, AuthAPIError>)
    ensures
        r matches Ok(t) ==> (jwt_claims(t@, secret@) matches Some(c) && c.0 == email@),
        r is Err ==> r == Err::<String, AuthAPIError>(AuthAPIError::UnexpectedError),
{
    let now = now_timestamp();
    let exp_signed = match now.checked_add(TOKEN_TTL_SECONDS) {
        Some(v) => v,
        None => return Err(AuthAPIError::UnexpectedError),
    };
    if exp_signed < 0 {
        return Err(AuthAPIError::UnexpectedError);
    }
    let claims = Claims { sub: email.expose_secret().clone(), exp: exp_signed as u64 };
    match create_token(&claims, secret) {
        Ok(t) => Ok(t),
        Err(_) => Err(AuthAPIError::UnexpectedError),
    }
}

/// The session cookie descriptor: fixed name, http-only, SameSite=Lax,
/// path "/", carrying the signed token as its value.  The HTTP layer turns
/// it into a real `Set-Cookie` header.
pub struct AuthCookie {
    pub name: String,
    pub value: String,
    pub path: String,
    pub http_only: bool,
    pub same_site_lax: bool,
}

/// The shape every session cookie has: the fixed attributes, and a value
/// whose claims name `email` as the subject under `secret`.
pub open spec fn auth_cookie_for(c: AuthCookie, email: Seq<char>, secret: Seq<char>) -> bool {
    &&& c.name@ == "jwt"@
    &&& c.path@ == "/"@
    &&& c.http_only
    &&& c.same_site_lax
    &&& (jwt_claims(c.value@, secret) matches Some(p) && p.0 == email)
}

impl AuthCookie {
    pub fn name(&self) -> (r: &str)
        ensures
            r@ == self.name@,
    {
        self.name.as_str()
    }

    pub fn value(&self) -> (r: &str)
        ensures
            r@ == self.value@,
    {
        self.value.as_str()
    }

    pub fn path(&self) -> (r: &str)
        ensures
            r@ == self.path@,
    {
        self.path.as_str()
    }

    pub fn http_only(&self) -> (r: bool)
        ensures
            r == self.http_only,
    {
        self.http_only
    }

    pub fn same_site_lax(&self) -> (r: bool)
        ensures
            r == self.same_site_lax,
    {
        self.same_site_lax
    }
}

/// Wraps an already signed token in the session cookie descriptor.
pub fn create_auth_cookie(token: String) -> (c: AuthCookie)
    ensures
        c.value@ == token@,
        c.name@ == "jwt"@,
        c.path@ == "/"@,
        c.http_only,
        c.same_site_lax,
{
    AuthCookie {
        name: JWT_COOKIE_NAME.to_owned(),
        value: token,
        path: "/".to_owned(),
        http_only: true,
        same_site_lax: true,
    }
}

/// Issues a session token for an email and wraps it in the cookie
/// descriptor.
pub fn generate_auth_cookie(email: &Email, secret: &str) -> (r: Result<AuthCookie, AuthAPIError>)
    ensures
        r matches Ok(c) ==> auth_cookie_for(c, email@, secret@),
        r is Err ==> r == Err::<AuthCookie, AuthAPIError>(AuthAPIError::UnexpectedError),
{
    let token = generate_auth_token(email, secret)?;
    Ok(create_auth_cookie(token))
}

/// The reasons a token is rejected that do not depend on the clock: it has
/// been revoked, or its signature does not verify under the secret.  (An
/// unexpired signature-valid token can still be rejected once its expiry
/// passes.)
pub open spec fn validate_token_rejects(
    tokens: Set<Seq<char>>,
    token: Seq<char>,
    secret: Seq<char>,
) -> bool {
    tokens.contains(token) || jwt_claims(token, secret) is None
}

/// Validates a session token: the revocation registry is consulted first,
/// so a revoked token is rejected even while its signature still verifies;
/// then the signature and the expiry are checked.  Every failure collapses
/// to `InvalidToken`.
pub fn validate_token<B: BannedTokenStore>(
    token: &str,
    banned_token_store: &B,
    secret: &str,
) -> (r: Result<Claims, AuthAPIError>)
    ensures
        validate_token_rejects(banned_token_store.tokens(), token@, secret@) ==> r == Err::<
            Claims,
            AuthAPIError,
        >(AuthAPIError::InvalidToken),
        r matches Ok(c) ==> !banned_token_store.tokens().contains(token@) && jwt_claims(
            token@,
            secret@,
        ) == Some((c.sub@, c.exp as int)),
        r is Err ==> r == Err::<Claims, AuthAPIError>(AuthAPIError::InvalidToken),
{
    match banned_token_store.contains_token(token) {
        Ok(true) => Err(AuthAPIError::InvalidToken),
        Ok(false) => match decode_token(token, secret) {
            Ok(claims) => Ok(claims),
            Err(_) => Err(AuthAPIError::InvalidToken),
        },
        Err(_) => Err(AuthAPIError::InvalidToken),
    }
}

} // verus!
