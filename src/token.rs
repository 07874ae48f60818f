use vstd::prelude::*;
use crate::error::{ErrorMessage, HttpError};

verus! {

/// The claims a bearer token carries: subject, issued-at and expires-at, the
/// two instants in seconds since the Unix epoch.
pub struct TokenClaims {
    pub sub: String,
    pub exp: usize,
    pub iat: usize,
}

impl View for TokenClaims {
    /// `(subject, issued-at, expires-at)`.
    type V = (Seq<char>, int, int);

    open spec fn view(&self) -> (Seq<char>, int, int) {
        (self.sub@, self.iat as int, self.exp as int)
    }
}

/// Why a token could not be issued.
#[derive(Debug, Clone, Copy, PartialEq, Eq, Structural)]
pub enum TokenError {
    /// The subject is empty.
    InvalidSubject,
    /// The issue time or the expiry falls outside the representable instants.
    InvalidExpiry,
}

/// The compact HS256 token (default header) for the claims `{sub, iat, exp}`.
pub uninterp spec fn jwt_hs256(sub: Seq<char>, iat: int, exp: int, secret: Seq<u8>) -> Seq<char>;

/// The `(sub, iat, exp)` claims of `token` when it is a well-formed HS256 token
/// whose signature checks under `secret` and whose claims hold a string `sub`
/// and unsigned integers `iat` and `exp`; `None` otherwise. No time check.
pub uninterp spec fn jwt_claims(token: Seq<char>, secret: Seq<u8>) -> Option<(Seq<char>, int, int)>;

/// Relies on `chrono::Utc::now` and `DateTime::timestamp`: the clock, read in
/// whole seconds since the Unix epoch (`Utc::now` does not return an instant
/// before the epoch).
#[verifier::external_body]
pub(crate) fn current_time() -> (r: i64)
    ensures
        r >= 0,
{
    chrono::Utc::now().timestamp()
}

/// Relies on `jsonwebtoken::encode` with the default HS256 header and a key
/// from `EncodingKey::from_secret`: the key family matches the algorithm, a
/// `serde_json::Map` always serialises and HMAC signing cannot fail, so it
/// succeeds; the token is a function of the claims and the secret, and
/// `jsonwebtoken::decode` under the same secret gives those claims back.
#[verifier::external_body]
fn jwt_encode(sub: &str, iat: usize, exp: usize, secret: &[u8]) -> (r: Option<String>)
    ensures
        r is Some,
        r matches Some(t) ==> t@ == jwt_hs256(sub@, iat as int, exp as int, secret@)
            && jwt_claims(t@, secret@) == Some((sub@, iat as int, exp as int)),
{
    let mut claims = serde_json::Map::new();
    claims.insert("sub".to_string(), serde_json::Value::from(sub));
    claims.insert("iat".to_string(), serde_json::Value::from(iat));
    claims.insert("exp".to_string(), serde_json::Value::from(exp));
    let key = jsonwebtoken::EncodingKey::from_secret(secret);
    jsonwebtoken::encode(&jsonwebtoken::Header::default(), &claims, &key).ok()
}

/// Relies on `jsonwebtoken::decode` with HS256 and without its own time checks
/// (expiry is checked by `validate_claims`): the structure, the signature and
/// the claims' shape.
#[verifier::external_body]
fn jwt_decode(token: &str, secret: &[u8]) -> (r: Option<TokenClaims>)
    ensures
        r matches Some(c) ==> jwt_claims(token@, secret@) == Some(c@),
        r is None ==> jwt_claims(token@, secret@) is None,
{
    let mut rules = jsonwebtoken::Validation::new(jsonwebtoken::Algorithm::HS256);
    rules.validate_exp = false;
    rules.required_spec_claims.clear();
    let key = jsonwebtoken::DecodingKey::from_secret(secret);
    let data = jsonwebtoken::decode::<serde_json::Value>(token, &key, &rules).ok()?;
    let sub = data.claims.get("sub")?.as_str()?.to_string();
    let iat = data.claims.get("iat")?.as_u64()? as usize;
    let exp = data.claims.get("exp")?.as_u64()? as usize;
    Some(TokenClaims { sub, exp, iat })
}

/// Issue time and expiry are both representable instants.
pub open spec fn issue_window(now: int, ttl: int) -> bool {
    0 <= now && now <= usize::MAX && 0 <= now + ttl && now + ttl <= usize::MAX
}

/// `token` is the token issued for `subject` at `now`, valid for `ttl` seconds.
pub open spec fn issued_by(token: Seq<char>, subject: Seq<char>, secret: Seq<u8>, ttl: int, now: int) -> bool {
    &&& subject.len() > 0
    &&& issue_window(now, ttl)
    &&& token == jwt_hs256(subject, now, now + ttl, secret)
    &&& jwt_claims(token, secret) == Some((subject, now, now + ttl))
}

/// The subject that `claims` vouch for at time `now`: the expiry check is
/// strict (`now > exp` rejects) and grants no leeway; `iat` is not checked.
pub open spec fn claims_verdict(claims: Option<(Seq<char>, int, int)>, now: int) -> Option<Seq<char>> {
    match claims {
        Some((sub, _iat, exp)) => if now > exp { None } else { Some(sub) },
        None => None,
    }
}

/// `r` is what verification yields for the verdict `v`: the subject, or an
/// unauthorized error with the invalid-token message.
pub open spec fn verification_result(r: Result<String, HttpError>, v: Option<Seq<char>>) -> bool {
    match v {
        Some(sub) => r matches Ok(s) && s@ == sub,
        None => r matches Err(e) && e.status == 401 && e.message@ == ErrorMessage::InvalidToken.text(),
    }
}

/// Issues a token for `user_id` at time `now`, valid for `expires_in_second`
/// seconds.
pub fn create_token_at(user_id: &str, secret: &[u8], expires_in_second: i64, now: i64) -> (r: Result<String, TokenError>)
    ensures
        user_id@.len() == 0 ==> r == Err::<String, TokenError>(TokenError::InvalidSubject),
        user_id@.len() > 0 && !issue_window(now as int, expires_in_second as int)
            ==> r == Err::<String, TokenError>(TokenError::InvalidExpiry),
        user_id@.len() > 0 && issue_window(now as int, expires_in_second as int) ==> (r matches Ok(t)
            && issued_by(t@, user_id@, secret@, expires_in_second as int, now as int)),
{
    if user_id.is_empty() {
        return Err(TokenError::InvalidSubject);
    }
    let exp_wide: i128 = now as i128 + expires_in_second as i128;
    if now < 0 || now as i128 > usize::MAX as i128 || exp_wide < 0 || exp_wide > usize::MAX as i128 {
        return Err(TokenError::InvalidExpiry);
    }
    let iat = now as usize;
    let exp = exp_wide as usize;
    match jwt_encode(user_id, iat, exp, secret) {
        Some(t) => Ok(t),
        None => {
            proof {
                assert(false);
            }
            Err(TokenError::InvalidExpiry)
        },
    }
}

/// Issues a token for `user_id`, valid for `expires_in_second` seconds from now.
pub fn create_token(user_id: &str, secret: &[u8], expires_in_second: i64) -> (r: Result<String, TokenError>)
    ensures
        user_id@.len() == 0 ==> r == Err::<String, TokenError>(TokenError::InvalidSubject),
        user_id@.len() > 0 ==> r != Err::<String, TokenError>(TokenError::InvalidSubject),
        r is Err ==> r == Err::<String, TokenError>(TokenError::InvalidSubject)
            || r == Err::<String, TokenError>(TokenError::InvalidExpiry),
        r matches Ok(t) ==> exists|now: i64| issued_by(t@, user_id@, secret@, expires_in_second as int, now as int),
        r == Err::<String, TokenError>(TokenError::InvalidExpiry) ==> exists|now: i64|
            now >= 0 && !#[trigger] issue_window(now as int, expires_in_second as int),
{
    let now = current_time();
    create_token_at(user_id, secret, expires_in_second, now)
}

/// The subject of decoded `claims` at time `now`, or an unauthorized error that
/// does not say which check failed.
pub fn validate_claims(claims: Option<TokenClaims>, now: i64) -> (r: Result<String, HttpError>)
    ensures
        verification_result(r, claims_verdict(
            match claims { Some(c) => Some(c@), None => None },
            now as int,
        )),
{
    match claims {
        Some(c) => {
            if now as i128 > c.exp as i128 {
                Err(HttpError::unauthorized(ErrorMessage::InvalidToken.to_str()))
            } else {
                Ok(c.sub)
            }
        },
        None => Err(HttpError::unauthorized(ErrorMessage::InvalidToken.to_str())),
    }
}

/// Verifies `token` under `secret` at time `now` and returns its subject.
pub fn decode_token_at(token: &str, secret: &[u8], now: i64) -> (r: Result<String, HttpError>)
    ensures
        verification_result(r, claims_verdict(jwt_claims(token@, secret@), now as int)),
{
    let claims = jwt_decode(token, secret);
    validate_claims(claims, now)
}

/// Verifies `token` under `secret` at the current time and returns its subject.
pub fn decode_token(token: &str, secret: &[u8]) -> (r: Result<String, HttpError>)
    ensures
        exists|now: i64| verification_result(r, claims_verdict(jwt_claims(token@, secret@), now as int)),
{
    let now = current_time();
    decode_token_at(token, secret, now)
}

/// A token issued for a subject verifies to that subject at any time up to
/// and including its expiry.
pub proof fn lemma_issued_token_verifies(
    token: Seq<char>,
    subject: Seq<char>,
    secret: Seq<u8>,
    ttl: i64,
    issued_at: i64,
    now: i64,
)
    requires
        issued_by(token, subject, secret, ttl as int, issued_at as int),
        now <= issued_at + ttl,
    ensures
        claims_verdict(jwt_claims(token, secret), now as int) == Some(subject),
{
}

/// A token whose claims do not decode under a key (a wrong key, a forged or a
/// malformed token) is rejected at every time, before or after its expiry.
pub proof fn lemma_undecodable_token_rejected(token: Seq<char>, secret: Seq<u8>, now: int)
    requires
        jwt_claims(token, secret) is None,
    ensures
        claims_verdict(jwt_claims(token, secret), now) is None,
{
}

/// Once its time to live has elapsed, a token no longer verifies.
pub proof fn lemma_expired_token_rejected(
    token: Seq<char>,
    subject: Seq<char>,
    secret: Seq<u8>,
    ttl: i64,
    issued_at: i64,
    now: i64,
)
    requires
        issued_by(token, subject, secret, ttl as int, issued_at as int),
        now > issued_at + ttl,
    ensures
        claims_verdict(jwt_claims(token, secret), now as int) is None,
{
}

} // verus!
