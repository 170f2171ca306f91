//! Issuance of signed, time-bounded session tokens.
use vstd::prelude::*;
use crate::models::{AuthError, Claims, User};
use crate::text::{decimal_of, decimal_text, digits_of, json_quoted, json_string_of, push_digits};

verus! {

/// How long a session token stays valid: 48 hours, in seconds.
pub const TOKEN_TTL_SECS: usize = 172800;

#[verifier::external_type_specification]
#[verifier::external_body]
pub struct ExJwtError(jsonwebtoken::errors::Error);

/// The compact token (header, payload, signature) that HS256 signing of the JSON
/// `payload` with `secret` yields.
pub uninterp spec fn hs256_token(payload: Seq<char>, secret: Seq<u8>) -> Seq<char>;

/// Relies on jsonwebtoken::encode with an HS256 header and a key made from the secret's
/// bytes. The payload is JSON text, handed over verbatim through serde_json's RawValue, which
/// refuses only text that is not JSON; HMAC signing itself does not fail. The token joins
/// three parts with dots, so it is never empty.
#[verifier::external_body]
fn encode_hs256(payload: String, secret: &[u8]) -> (r: Result<String, jsonwebtoken::errors::Error>)
    ensures
        (exists|sub: Seq<char>, exp: nat, iat: nat, email: Seq<char>|
            payload@ == #[trigger] claims_text(sub, exp, iat, email)) ==> r is Ok,
        r is Ok ==> r->Ok_0@ == hs256_token(payload@, secret@),
        r is Ok ==> r->Ok_0@.len() > 0,
{
    let raw = serde_json::value::RawValue::from_string(payload)?;
    let header = jsonwebtoken::Header::new(jsonwebtoken::Algorithm::HS256);
    jsonwebtoken::encode(&header, &raw, &jsonwebtoken::EncodingKey::from_secret(secret))
}

/// Relies on chrono::Utc::now: the current time, in whole seconds since the Unix epoch.
#[verifier::external_body]
fn unix_now() -> (r: i64) {
    chrono::Utc::now().timestamp()
}

/// The JSON object of a claim set, fields in the order sub, exp, iat, email.
pub open spec fn claims_text(sub: Seq<char>, exp: nat, iat: nat, email: Seq<char>) -> Seq<char> {
    "{\"sub\":"@ + json_quoted(sub) + ",\"exp\":"@ + digits_of(exp) + ",\"iat\":"@
        + digits_of(iat) + ",\"email\":"@ + json_quoted(email) + "}"@
}

/// The JSON object of `c`.
pub open spec fn claims_json(c: Claims) -> Seq<char> {
    claims_text(c.sub@, c.exp as nat, c.iat as nat, c.email@)
}

/// Whether a token issued at `now` can carry its issue and expiry times.
pub open spec fn issuable_at(now: int) -> bool {
    0 <= now && now + TOKEN_TTL_SECS <= usize::MAX
}

/// The claims of a session of `user` that begins at `now`.
pub open spec fn session_of(c: Claims, user: User, now: int) -> bool {
    &&& c.sub@ == decimal_text(user.id as int)
    &&& c.iat == now
    &&& c.exp == now + TOKEN_TTL_SECS
    &&& c.email@ == user.email@
}

/// The payload of the token of a session of `user` that begins at `now`.
pub open spec fn session_payload(user: User, now: int) -> Seq<char>
    recommends
        issuable_at(now),
{
    claims_text(decimal_text(user.id as int), (now + TOKEN_TTL_SECS) as nat, now as nat, user.email@)
}

/// The signing side of session tokens: holds the process-wide secret, which is never empty.
pub struct TokenIssuer {
    secret: Vec<u8>,
}

impl TokenIssuer {
    /// The secret that tokens are signed with.
    pub closed spec fn secret(&self) -> Seq<u8> {
        self.secret@
    }

    /// An issuer for `secret`; none for an empty secret, which would sign nothing.
    pub fn new(secret: Vec<u8>) -> (r: Option<TokenIssuer>)
        ensures
            r is Some <==> secret@.len() > 0,
            r is Some ==> r->Some_0.secret() == secret@,
    {
        if secret.len() == 0 {
            None
        } else {
            Some(TokenIssuer { secret })
        }
    }
}

/// The claims of a session of `user` that begins at `now`, where they can be held.
pub fn session_claims(user: &User, now: i64) -> (r: Option<Claims>)
    ensures
        r is Some <==> issuable_at(now as int),
        r is Some ==> session_of(r->Some_0, *user, now as int),
        r is Some ==> r->Some_0.exp - r->Some_0.iat == TOKEN_TTL_SECS,
{
    if now < 0 || now as u64 > usize::MAX as u64 || (usize::MAX - (now as u64 as usize)) < TOKEN_TTL_SECS {
        return None;
    }
    let iat = now as u64 as usize;
    Some(Claims { sub: decimal_of(user.id), exp: iat + TOKEN_TTL_SECS, iat, email: user.email.clone() })
}

/// The JSON text of a claim set.
pub fn claims_to_json(c: &Claims) -> (r: String)
    ensures
        r@ == claims_json(*c),
{
    let mut r = String::from_str("{\"sub\":");
    let sub = json_string_of(c.sub.as_str());
    r.append(sub.as_str());
    r.append(",\"exp\":");
    push_digits(c.exp as u64, &mut r);
    r.append(",\"iat\":");
    push_digits(c.iat as u64, &mut r);
    r.append(",\"email\":");
    let email = json_string_of(c.email.as_str());
    r.append(email.as_str());
    r.append("}");
    assert(r@ =~= claims_json(*c));
    r
}

/// Signs the session of `user` that begins at `now`. It fails, with
/// `TokenGenerationFailure`, exactly where the times cannot be held.
pub fn issue_token_at(issuer: &TokenIssuer, user: &User, now: i64) -> (r: Result<String, AuthError>)
    ensures
        !issuable_at(now as int) ==> r == Err::<String, AuthError>(AuthError::TokenGenerationFailure),
        issuable_at(now as int) ==> r is Ok,
        r is Ok ==> r->Ok_0@ == hs256_token(session_payload(*user, now as int), issuer.secret()),
        r is Ok ==> r->Ok_0@.len() > 0,
{
    match session_claims(user, now) {
        None => Err(AuthError::TokenGenerationFailure),
        Some(c) => {
            let payload = claims_to_json(&c);
            assert(payload@ == session_payload(*user, now as int));
            assert(payload@ == claims_text(c.sub@, c.exp as nat, c.iat as nat, c.email@));
            match encode_hs256(payload, issuer.secret.as_slice()) {
                Ok(t) => Ok(t),
                Err(_) => Err(AuthError::TokenGenerationFailure),
            }
        }
    }
}

/// Signs a session of `user` that begins now.
pub fn generate_token(user: &User, issuer: &TokenIssuer) -> (r: Result<String, AuthError>)
    ensures
        r is Ok ==> exists|now: int|
            issuable_at(now) && r->Ok_0@ == #[trigger] hs256_token(session_payload(*user, now), issuer.secret()),
        r is Ok ==> r->Ok_0@.len() > 0,
        r is Err ==> r->Err_0 == AuthError::TokenGenerationFailure,
{
    let now = unix_now();
    issue_token_at(issuer, user, now)
}

/// The token of a session carries exactly the claims of that session: its payload is the JSON
/// of claims whose subject is the user's id, whose email is the user's, and whose expiry lies
/// the fixed lifetime after their issue.
pub proof fn session_token_claims(c: Claims, user: User, now: int)
    requires
        issuable_at(now),
        session_of(c, user, now),
    ensures
        claims_json(c) == session_payload(user, now),
        c.exp - c.iat == TOKEN_TTL_SECS,
        c.sub@ == decimal_text(user.id as int),
        c.email@ == user.email@,
{
}

}
