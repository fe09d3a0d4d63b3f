//! Issue and verification of signed, time-bound identity tokens.
//!
//! A token carries the subject's identifier, display name and an absolute
//! expiry instant, signed with a process-wide symmetric secret. There is no
//! revocation: expiry is the only termination mechanism, and rotating the
//! secret invalidates every outstanding token.
//!
//! The clock is always a parameter: the caller says what "now" is, so the
//! expiry decision is verified rather than entrusted to the signing crate.

use vstd::prelude::*;

use jsonwebtoken::errors::ErrorKind;
use jsonwebtoken::{decode, encode, DecodingKey, EncodingKey, Header, Validation};
use serde_json::Value;

verus! {

/// Seconds a freshly issued token stays valid: 24 hours.
pub const TOKEN_LIFETIME_SECS: i64 = 86400;

/// The mathematical image of [`Claims`].
pub ghost struct ClaimsView {
    pub user_id: int,
    pub username: Seq<char>,
    pub exp: int,
}

/// The decoded payload of a verified token: subject identifier, subject
/// display name, and expiry as Unix seconds.
#[derive(Debug, Clone)]
pub struct Claims {
    pub user_id: i64,
    pub username: String,
    pub exp: i64,
}

impl View for Claims {
    type V = ClaimsView;

    open spec fn view(&self) -> ClaimsView {
        ClaimsView {
            user_id: self.user_id as int,
            username: self.username@,
            exp: self.exp as int,
        }
    }
}

/// Why a token could not be issued or accepted. The kinds never reach a
/// client undigested: the request authenticator folds them all into one
/// uniform rejection.
#[derive(Debug, Clone, PartialEq, Eq, Structural)]
pub enum TokenError {
    /// The signature is sound but the expiry instant has passed.
    Expired,
    /// The signature does not match the secret.
    InvalidSignature,
    /// The token cannot be read as a signed claims object.
    Malformed,
    /// The signing primitive failed while issuing; the issuing contract
    /// rules it out, so nothing produces this kind.
    SigningFailed,
}

/// The token that signing the claims `(user_id, username, exp)` with
/// `secret` produces: the name of what `jsonwebtoken::encode` returns,
/// a function of the arguments alone.
pub uninterp spec fn token_of(user_id: int, username: Seq<char>, exp: int, secret: Seq<char>) -> Seq<char>;

/// The claims that `token` carries under `secret`, or `None` when the
/// token does not parse as a claims object signed with `secret`: the name
/// of what `jsonwebtoken::decode` (with the expiry clock taken out of its
/// hands) returns, a function of the two arguments alone.
pub uninterp spec fn claims_of(token: Seq<char>, secret: Seq<char>) -> Option<ClaimsView>;

/// Relies on jsonwebtoken::encode with the default HS256 header: signing
/// cannot fail — the HMAC signer takes a secret of any length and its
/// signing step is infallible, and serializing the fixed header and a
/// string-keyed claims object cannot error — and for fixed claims and
/// secret the token is a function of those alone; decoding it with the
/// same secret yields the same three claims. A negative expiry would not
/// survive the decoder's claim parsing, so it is left out.
#[verifier::external_body]
fn encode_claims(user_id: i64, username: &str, exp: i64, secret: &str) -> (r: Result<String, TokenError>)
    requires
        0 <= exp,
    ensures
        r is Ok,
        r matches Ok(t) ==> t@ == token_of(user_id as int, username@, exp as int, secret@),
        r matches Ok(t) ==> claims_of(t@, secret@) == Some(
            ClaimsView { user_id: user_id as int, username: username@, exp: exp as int },
        ),
        r matches Err(e) ==> e == TokenError::SigningFailed,
{
    let mut m = serde_json::Map::new();
    m.insert("user_id".to_string(), Value::from(user_id));
    m.insert("username".to_string(), Value::from(username));
    m.insert("exp".to_string(), Value::from(exp));
    let key = EncodingKey::from_secret(secret.as_bytes());
    match encode(&Header::default(), &Value::Object(m), &key) {
        Ok(t) => Ok(t),
        Err(_) => Err(TokenError::SigningFailed),
    }
}

/// Relies on jsonwebtoken::decode over HS256 with its expiry check turned
/// off: the outcome is then a function of the token and the secret alone
/// (the caller judges expiry against the clock it was handed). The claims
/// come back exactly when the token is signed with the secret and parses
/// to our shape; a failed signature and an unreadable token are told apart
/// as the crate reports them.
#[verifier::external_body]
fn decode_claims(token: &str, secret: &str) -> (r: Result<Claims, TokenError>)
    ensures
        r matches Ok(c) ==> claims_of(token@, secret@) == Some(c@),
        r is Ok <==> claims_of(token@, secret@) is Some,
        r matches Err(e) ==> (e == TokenError::InvalidSignature || e == TokenError::Malformed),
{
    let key = DecodingKey::from_secret(secret.as_bytes());
    let mut validation = Validation::default();
    validation.validate_exp = false;
    let payload = match decode::<Value>(token, &key, &validation) {
        Ok(data) => data.claims,
        Err(e) => return Err(match e.kind() {
            ErrorKind::InvalidSignature => TokenError::InvalidSignature,
            _ => TokenError::Malformed,
        }),
    };
    match (payload.get("user_id").and_then(Value::as_i64), payload.get("username").and_then(Value::as_str), payload.get("exp").and_then(Value::as_i64)) {
        (Some(u), Some(n), Some(x)) => Ok(Claims { user_id: u, username: n.to_string(), exp: x }),
        _ => Err(TokenError::Malformed),
    }
}

/// What verification owes the caller for a token that carries claims
/// `cv`: the very claims while `cv.exp` has not passed, `Expired` from
/// then on.
pub open spec fn verify_outcome_for(cv: ClaimsView, now: int, r: Result<Claims, TokenError>) -> bool {
    if cv.exp < now {
        r == Err::<Claims, TokenError>(TokenError::Expired)
    } else {
        r matches Ok(c) && c@ == cv
    }
}

/// Law: a token issued for `(user_id, username)` at `issued_at` — which
/// [`JwtService::generate_token`] guarantees carries exactly those claims
/// with expiry `issued_at + TOKEN_LIFETIME_SECS` — is accepted by
/// [`JwtService::verify_token`] with the same identifier and name at every
/// instant up to the expiry, and rejected as `Expired` at every instant
/// after it.
pub proof fn lemma_issue_then_verify(
    user_id: int,
    username: Seq<char>,
    issued_at: int,
    verified_at: int,
    secret: Seq<char>,
    token: Seq<char>,
    r: Result<Claims, TokenError>,
)
    requires
        claims_of(token, secret) == Some(
            ClaimsView { user_id, username, exp: issued_at + TOKEN_LIFETIME_SECS },
        ),
        verify_outcome_for(
            ClaimsView { user_id, username, exp: issued_at + TOKEN_LIFETIME_SECS },
            verified_at,
            r,
        ),
    ensures
        verified_at <= issued_at + TOKEN_LIFETIME_SECS ==> (r matches Ok(c) && c@.user_id == user_id
            && c@.username == username),
        verified_at > issued_at + TOKEN_LIFETIME_SECS ==> r == Err::<Claims, TokenError>(
            TokenError::Expired,
        ),
{
}

/// Issues and verifies the identity tokens, holding the process-wide
/// symmetric secret, loaded once at startup and immutable thereafter.
#[derive(Clone)]
pub struct JwtService {
    secret: String,
}

impl JwtService {
    /// The signing secret, as specification-level text.
    pub closed spec fn secret(&self) -> Seq<char> {
        self.secret@
    }

    pub fn new(secret: &str) -> (r: Self)
        ensures
            r.secret() == secret@,
    {
        JwtService { secret: secret.to_owned() }
    }

    /// Issues a token for the subject `(user_id, username)` that expires
    /// [`TOKEN_LIFETIME_SECS`] after `now`: issuing always succeeds, and
    /// the token determines, under the same secret, exactly the claims it
    /// was issued for.
    pub fn generate_token(&self, user_id: i64, username: &str, now: i64) -> (r: Result<String, TokenError>)
        requires
            0 <= now,
            now + TOKEN_LIFETIME_SECS <= i64::MAX,
        ensures
            r is Ok,
            r matches Ok(t) ==> t@ == token_of(
                user_id as int, username@, now + TOKEN_LIFETIME_SECS, self.secret(),
            ),
            r matches Ok(t) ==> claims_of(t@, self.secret()) == Some(
                ClaimsView { user_id: user_id as int, username: username@, exp: now + TOKEN_LIFETIME_SECS },
            ),
            r matches Err(e) ==> e == TokenError::SigningFailed,
    {
        let exp = now + TOKEN_LIFETIME_SECS;
        encode_claims(user_id, username, exp, self.secret.as_str())
    }

    /// Verifies `token` against the secret and the caller's clock `now`:
    /// the carried claims when the token is well-signed and `exp` has not
    /// passed; `Expired` when well-signed but stale; the decoder's verdict
    /// otherwise — a forged-but-stale token is rejected on its signature,
    /// never reported as merely expired.
    pub fn verify_token(&self, token: &str, now: i64) -> (r: Result<Claims, TokenError>)
        ensures
            r matches Ok(c) ==> claims_of(token@, self.secret()) == Some(c@) && now <= c@.exp,
            claims_of(token@, self.secret()) matches Some(cv) ==> verify_outcome_for(
                cv,
                now as int,
                r,
            ),
            claims_of(token@, self.secret()) is None ==> (r matches Err(e)
                && (e == TokenError::InvalidSignature || e == TokenError::Malformed)),
    {
        let claims = match decode_claims(token, self.secret.as_str()) {
            Ok(c) => c,
            Err(e) => {
                return Err(e);
            },
        };
        if claims.exp < now {
            return Err(TokenError::Expired);
        }
        Ok(claims)
    }
}

} // verus!
