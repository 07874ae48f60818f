use vstd::prelude::*;
use vstd::string::StringSliceAdditionalSpecFns;
use vstd::utf8::{encode_utf8, is_char_boundary};
use crate::error::{ErrorMessage, HttpError};
use crate::models::{User, UserRole};
use crate::token::{claims_verdict, decode_token_at, issued_by, jwt_claims, lemma_issued_token_verifies};

verus! {

/// The 128-bit value of the UUID that `s` spells, in any form that
/// `uuid::Uuid::parse_str` accepts; `None` where it spells none.
pub uninterp spec fn uuid_value(s: Seq<char>) -> Option<u128>;

/// Relies on `uuid::Uuid::parse_str` and `Uuid::as_u128`.
#[verifier::external_body]
fn parse_uuid(s: &str) -> (r: Option<u128>)
    ensures
        r == uuid_value(s@),
{
    uuid::Uuid::parse_str(s).ok().map(|u| u.as_u128())
}

/// The UTF-8 bytes of `Bearer ` (with its trailing space).
pub open spec fn bearer_prefix() -> Seq<u8> {
    seq![66u8, 101u8, 97u8, 114u8, 101u8, 114u8, 32u8]
}

/// `bytes` begins with `Bearer `.
pub open spec fn has_bearer_prefix(bytes: Seq<u8>) -> bool {
    bytes.len() >= 7 && bytes.subrange(0, 7) == bearer_prefix()
}

/// The header value carries a bearer credential that can be cut after its prefix.
pub open spec fn bearer_header(h: Seq<u8>) -> bool {
    has_bearer_prefix(h) && is_char_boundary(h, 7)
}

fn starts_with_bearer(b: &[u8]) -> (r: bool)
    ensures
        r == has_bearer_prefix(b@),
{
    if b.len() < 7 {
        return false;
    }
    let r = b[0] == 66u8 && b[1] == 101u8 && b[2] == 97u8 && b[3] == 114u8 && b[4] == 101u8
        && b[5] == 114u8 && b[6] == 32u8;
    assert(r == (b@.subrange(0, 7) =~= bearer_prefix()));
    r
}

/// The credential of a request: the value of its `token` cookie if it has one,
/// else what follows `Bearer ` in its `Authorization` header. A header without
/// that prefix yields nothing.
pub fn extract_token(cookie: Option<&str>, authorization: Option<&str>) -> (r: Option<String>)
    ensures
        cookie matches Some(c) ==> (r matches Some(t) && t@ == c@),
        cookie is None ==> (r is Some <==> (authorization matches Some(h) && bearer_header(h.spec_bytes()))),
        cookie is None ==> (r matches Some(t) ==> (authorization matches Some(h)
            && encode_utf8(t@) == h.spec_bytes().subrange(7, h.spec_bytes().len() as int))),
{
    match cookie {
        Some(c) => Some(c.to_owned()),
        None => match authorization {
            Some(h) => {
                if starts_with_bearer(h.as_bytes()) && h.is_char_boundary(7) {
                    let (_, rest) = h.split_at(7);
                    Some(rest.to_owned())
                } else {
                    None
                }
            },
            None => None,
        },
    }
}

/// The identity key that a credential yields at time `now`, or the reason it
/// yields none: no credential; a token that does not verify; a subject that is
/// not a UUID (an integrity fault, refused like a bad token).
pub open spec fn authentication_outcome(token: Option<Seq<char>>, secret: Seq<u8>, now: int) -> Result<u128, ErrorMessage> {
    match token {
        None => Err(ErrorMessage::TokenNotProvided),
        Some(t) => match claims_verdict(jwt_claims(t, secret), now) {
            None => Err(ErrorMessage::InvalidToken),
            Some(sub) => match uuid_value(sub) {
                None => Err(ErrorMessage::InvalidToken),
                Some(id) => Ok(id),
            },
        },
    }
}

/// The characters of a credential, if there is one.
pub open spec fn credential_view(token: Option<String>) -> Option<Seq<char>> {
    match token {
        Some(t) => Some(t@),
        None => None,
    }
}

/// `r` carries `outcome`, every failure as an unauthorized error.
pub open spec fn authentication_result(r: Result<u128, HttpError>, outcome: Result<u128, ErrorMessage>) -> bool {
    match outcome {
        Ok(id) => r == Ok::<u128, HttpError>(id),
        Err(m) => r matches Err(e) && e.status == 401 && e.message@ == m.text(),
    }
}

/// The first two stages of the pipeline at time `now`: a credential must be
/// present and verify under `secret`, and its subject must be a UUID.
pub fn authenticate_at(token: Option<String>, secret: &[u8], now: i64) -> (r: Result<u128, HttpError>)
    ensures
        authentication_result(r, authentication_outcome(
            credential_view(token),
            secret@,
            now as int,
        )),
{
    let token = match token {
        Some(t) => t,
        None => {
            return Err(HttpError::unauthorized(ErrorMessage::TokenNotProvided.to_str()));
        },
    };
    let sub = match decode_token_at(token.as_str(), secret, now) {
        Ok(s) => s,
        Err(e) => {
            return Err(e);
        },
    };
    match parse_uuid(sub.as_str()) {
        Some(id) => Ok(id),
        None => Err(HttpError::unauthorized(ErrorMessage::InvalidToken.to_str())),
    }
}

/// As `authenticate_at`, at the current time.
pub fn authenticate(token: Option<String>, secret: &[u8]) -> (r: Result<u128, HttpError>)
    ensures
        exists|now: i64| authentication_result(r, #[trigger] authentication_outcome(
            credential_view(token),
            secret@,
            now as int,
        )),
        token is None ==> (r matches Err(e) && e.status == 401
            && e.message@ == ErrorMessage::TokenNotProvided.text()),
{
    let now = crate::token::current_time();
    authenticate_at(token, secret, now)
}

/// A credential issued for a UUID subject authenticates as that UUID at any
/// time up to its expiry; a request without a credential never does.
pub proof fn lemma_issued_credential_authenticates(
    token: Seq<char>,
    subject: Seq<char>,
    secret: Seq<u8>,
    ttl: i64,
    issued_at: i64,
    now: i64,
)
    requires
        issued_by(token, subject, secret, ttl as int, issued_at as int),
        now <= issued_at + ttl,
        uuid_value(subject) is Some,
    ensures
        authentication_outcome(Some(token), secret, now as int) == Ok::<u128, ErrorMessage>(uuid_value(subject)->0),
        authentication_outcome(None, secret, now as int) == Err::<u128, ErrorMessage>(ErrorMessage::TokenNotProvided),
{
    lemma_issued_token_verifies(token, subject, secret, ttl, issued_at, now);
}

/// The roles that may reach one protected route, fixed when the route is set up.
pub struct RequireAuth {
    pub allaow_roles: Vec<UserRole>,
}

/// How the last two stages end for a directory lookup and a role set: a
/// lookup failure is a server error that hides its detail; a missing identity
/// was once valid and is gone; otherwise role membership decides.
pub open spec fn authorization_outcome(lookup: Result<Option<UserRole>, ()>, roles: Seq<UserRole>) -> Result<(), (u16, ErrorMessage)> {
    match lookup {
        Err(_) => Err((500u16, ErrorMessage::ServerError)),
        Ok(None) => Err((401u16, ErrorMessage::UserNoLongerExist)),
        Ok(Some(role)) => if roles.contains(role) {
            Ok(())
        } else {
            Err((403u16, ErrorMessage::PermissionDenied))
        },
    }
}

/// The role of the looked-up identity, with its presence and the lookup's failure.
pub open spec fn lookup_role(lookup: Result<Option<User>, String>) -> Result<Option<UserRole>, ()> {
    match lookup {
        Err(_) => Err(()),
        Ok(None) => Ok(None),
        Ok(Some(u)) => Ok(Some(u.role)),
    }
}

impl RequireAuth {
    pub fn allow_roles(allow_roles: Vec<UserRole>) -> (r: RequireAuth)
        ensures
            r.allaow_roles@ == allow_roles@,
    {
        RequireAuth { allaow_roles: allow_roles }
    }

    /// `role` is one of the allowed roles.
    pub fn permits(&self, role: UserRole) -> (r: bool)
        ensures
            r == self.allaow_roles@.contains(role),
    {
        let mut i: usize = 0;
        while i < self.allaow_roles.len()
            invariant
                i <= self.allaow_roles@.len(),
                forall|j: int| 0 <= j < i ==> self.allaow_roles@[j] != role,
            decreases self.allaow_roles@.len() - i,
        {
            if self.allaow_roles[i] == role {
                return true;
            }
            i = i + 1;
        }
        false
    }

    /// The last two stages of the pipeline: the result of looking the identity
    /// up, then role membership. On success the identity found is handed back,
    /// to be attached to the request.
    pub fn authorize(&self, lookup: Result<Option<User>, String>) -> (r: Result<User, HttpError>)
        ensures
            match authorization_outcome(lookup_role(lookup), self.allaow_roles@) {
                Ok(()) => lookup matches Ok(Some(u)) && r == Ok::<User, HttpError>(u),
                Err((status, m)) => r matches Err(e) && e.status == status && e.message@ == m.text(),
            },
    {
        match lookup {
            Err(_) => Err(HttpError::server_error(ErrorMessage::ServerError.to_str())),
            Ok(None) => Err(HttpError::unauthorized(ErrorMessage::UserNoLongerExist.to_str())),
            Ok(Some(user)) => {
                if self.permits(user.role) {
                    Ok(user)
                } else {
                    Err(HttpError::permission_denied(ErrorMessage::PermissionDenied.to_str()))
                }
            },
        }
    }
}

/// The identity attached to a request that passed the pipeline.
pub struct Authenticated(pub User);

impl Authenticated {
    /// The identity attached to the current request; a request that never
    /// passed the pipeline has none, which is a server-side wiring fault.
    pub fn from_identity(identity: Option<User>) -> (r: Result<Authenticated, HttpError>)
        ensures
            identity matches Some(u) ==> r matches Ok(a) && a.0 == u,
            identity is None ==> (r matches Err(e) && e.status == 500
                && e.message@ == "Authentication error"@),
    {
        match identity {
            Some(u) => Ok(Authenticated(u)),
            None => Err(HttpError::server_error("Authentication error".to_owned())),
        }
    }

    pub fn user(&self) -> (r: &User)
        ensures
            *r == self.0,
    {
        &self.0
    }
}

} // verus!
