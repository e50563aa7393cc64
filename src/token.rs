use vstd::prelude::*;
use crate::clock::now_seconds;
use crate::error::TweetError;
use hmac::Mac;
use jwt::{SignWithKey, VerifyWithKey};
use vstd::string::StringExecFns;

verus! {

/// How long an issued token stays valid, in seconds.
pub const TOKEN_LIFETIME_SECS: u64 = 86400;

/// The issuer written into every token.
pub open spec fn token_issuer() -> Seq<char> {
    "TwitApp"@
}

/// The subject written into every token.
pub open spec fn token_subject() -> Seq<char> {
    "https://twitapp.com"@
}

/// The registered claims that a token carries.
#[derive(Debug, Clone)]
pub struct TokenClaims {
    pub issuer: Option<String>,
    pub subject: Option<String>,
    /// The identifier of the authenticated user.
    pub token_id: Option<String>,
    pub issued_at: Option<u64>,
    pub expiration: Option<u64>,
}

impl TokenClaims {
    /// These claims are exactly the ones that an issuance with these values wrote.
    pub open spec fn carries(
        &self,
        issuer: Seq<char>,
        subject: Seq<char>,
        token_id: Seq<char>,
        issued_at: u64,
        expiration: u64,
    ) -> bool {
        &&& self.issuer matches Some(v) && v@ == issuer
        &&& self.subject matches Some(v) && v@ == subject
        &&& self.token_id matches Some(v) && v@ == token_id
        &&& self.issued_at == Some(issued_at)
        &&& self.expiration == Some(expiration)
    }
}

/// The compact HS256 token that signs these claims with this secret.
pub uninterp spec fn hs256_token(
    secret: Seq<u8>,
    issuer: Seq<char>,
    subject: Seq<char>,
    token_id: Seq<char>,
    issued_at: u64,
    expiration: u64,
) -> Seq<char>;

/// Relies on jwt's `SignWithKey` for a token with an HS256 header, keyed by
/// hmac's `Hmac<Sha256>`: the signed token depends on the secret and the
/// claims alone. HMAC takes keys of any length and the claims always
/// serialize, so signing does not fail.
#[verifier::external_body]
fn sign_hs256(secret: &[u8], issuer: &str, subject: &str, token_id: &str, issued_at: u64, expiration: u64) -> (r: String)
    ensures
        r@ == hs256_token(secret@, issuer@, subject@, token_id@, issued_at, expiration),
{
    let key = hmac::Hmac::<sha2::Sha256>::new_from_slice(secret).expect("HMAC takes keys of any length");
    let header = jwt::Header { type_: Some(jwt::header::HeaderType::JsonWebToken), ..Default::default() };
    let claims = jwt::RegisteredClaims {
        issuer: Some(issuer.to_string()), subject: Some(subject.to_string()),
        json_web_token_id: Some(token_id.to_string()), issued_at: Some(issued_at),
        expiration: Some(expiration), ..Default::default()
    };
    let token = jwt::Token::new(header, claims).sign_with_key(&key).expect("HS256 signing");
    token.as_str().to_string()
}

/// Relies on jwt's `VerifyWithKey` for `&str` with hmac's `Hmac<Sha256>`: a
/// token that `sign_hs256` made with the same secret verifies and gives back
/// the claims it was made from. Of any other text nothing is stated.
#[verifier::external_body]
fn verify_hs256(secret: &[u8], token: &str) -> (r: Option<TokenClaims>)
    ensures
        forall|i: Seq<char>, s: Seq<char>, j: Seq<char>, ia: u64, ex: u64|
            #[trigger] hs256_token(secret@, i, s, j, ia, ex) == token@ ==> (r is Some
                && r.unwrap().carries(i, s, j, ia, ex)),
{
    let key = hmac::Hmac::<sha2::Sha256>::new_from_slice(secret).ok()?;
    let c: jwt::RegisteredClaims = token.verify_with_key(&key).ok()?;
    Some(TokenClaims {
        issuer: c.issuer, subject: c.subject, token_id: c.json_web_token_id,
        issued_at: c.issued_at, expiration: c.expiration,
    })
}

/// A token whose claims give this expiry is expired at `now`: at the expiry
/// instant and after it, and always when no expiry is given.
pub open spec fn token_expired(expiration: Option<u64>, now: u64) -> bool {
    match expiration {
        Some(e) => e <= now,
        None => true,
    }
}

/// Whether a token with this expiry is expired at `now`.
pub fn is_token_expired(expiration: Option<u64>, now: u64) -> (r: bool)
    ensures
        r == token_expired(expiration, now),
{
    match expiration {
        Some(e) => e <= now,
        None => true,
    }
}

/// A token is valid before its expiry instant and expired from that instant on;
/// once expired it stays expired.
pub proof fn lemma_expiry_boundary(expiration: u64, now: u64, later: u64)
    requires
        now <= later,
    ensures
        !token_expired(Some(expiration), now) <==> now < expiration,
        token_expired(Some(expiration), now) ==> token_expired(Some(expiration), later),
        token_expired(Some(expiration), expiration),
{
}

/// Issues the token for `user_id` at `issued_at`, valid for one day. Fails
/// only where the expiry instant would not fit in a `u64`.
pub fn issue_token_at(secret: &[u8], user_id: &str, issued_at: u64) -> (r: Result<String, TweetError>)
    ensures
        r is Ok <==> issued_at <= u64::MAX - TOKEN_LIFETIME_SECS,
        r matches Ok(t) ==> t@ == hs256_token(
            secret@,
            token_issuer(),
            token_subject(),
            user_id@,
            issued_at,
            (issued_at + TOKEN_LIFETIME_SECS) as u64,
        ),
        r matches Err(e) ==> e is InternalServerError,
{
    if issued_at > u64::MAX - TOKEN_LIFETIME_SECS {
        return Err(TweetError::InternalServerError);
    }
    let expiration = issued_at + TOKEN_LIFETIME_SECS;
    Ok(sign_hs256(secret, "TwitApp", "https://twitapp.com", user_id, issued_at, expiration))
}

/// Issues the token for `user_id` now, valid for one day.
pub fn issue_token(secret: &[u8], user_id: &str) -> (r: Result<String, TweetError>)
    ensures
        r matches Ok(t) ==> exists|ia: u64|
            ia <= u64::MAX - TOKEN_LIFETIME_SECS && t@ == #[trigger] hs256_token(
                secret@,
                token_issuer(),
                token_subject(),
                user_id@,
                ia,
                (ia + TOKEN_LIFETIME_SECS) as u64,
            ),
        r matches Err(e) ==> e is InternalServerError,
{
    let now = now_seconds();
    issue_token_at(secret, user_id, now)
}

/// Decides on the claims that verification gave (`None`: the token did not
/// verify): refused when they are absent or expired at `now`.
pub fn check_claims(verified: Option<TokenClaims>, now: u64) -> (r: Result<TokenClaims, TweetError>)
    ensures
        verified is None ==> (r matches Err(TweetError::Unauthorized(m)) && m@ == "Invalid token"@),
        verified matches Some(c) ==> if token_expired(c.expiration, now) {
            (r matches Err(TweetError::Unauthorized(m)) && m@ == "Token has expired"@)
        } else {
            r == Ok::<TokenClaims, TweetError>(c)
        },
{
    match verified {
        None => Err(TweetError::Unauthorized(String::from_str("Invalid token"))),
        Some(c) => {
            if is_token_expired(c.expiration, now) {
                Err(TweetError::Unauthorized(String::from_str("Token has expired")))
            } else {
                Ok(c)
            }
        },
    }
}

/// Validates a bearer token at `now`. A token issued with this secret is
/// accepted exactly while `now` is before its expiry, and then gives back
/// its claims.
pub fn validate_token_at(secret: &[u8], token: &str, now: u64) -> (r: Result<TokenClaims, TweetError>)
    ensures
        r matches Ok(c) ==> !token_expired(c.expiration, now),
        r matches Err(e) ==> e is Unauthorized,
        forall|i: Seq<char>, s: Seq<char>, j: Seq<char>, ia: u64, ex: u64|
            #[trigger] hs256_token(secret@, i, s, j, ia, ex) == token@ ==> (r is Ok <==> now < ex)
                && (r matches Ok(c) ==> c.carries(i, s, j, ia, ex)),
{
    let verified = verify_hs256(secret, token);
    check_claims(verified, now)
}

/// Validates a bearer token against the current time.
pub fn validate_token(secret: &[u8], token: &str) -> (r: Result<TokenClaims, TweetError>)
    ensures
        r matches Ok(c) ==> c.expiration is Some,
        r matches Err(e) ==> e is Unauthorized,
        forall|i: Seq<char>, s: Seq<char>, j: Seq<char>, ia: u64, ex: u64|
            #[trigger] hs256_token(secret@, i, s, j, ia, ex) == token@ ==> (r matches Ok(c)
                ==> c.carries(i, s, j, ia, ex)),
{
    let now = now_seconds();
    validate_token_at(secret, token, now)
}

/// The authenticated user's identifier, read from validated claims.
pub fn get_user_id(claims: Option<TokenClaims>) -> (r: Result<String, TweetError>)
    ensures
        match claims {
            Some(c) => match c.token_id {
                Some(id) => r == Ok::<String, TweetError>(id),
                None => r matches Err(TweetError::Unauthorized(m)) && m@
                    == "authentication error occurred"@,
            },
            None => r matches Err(TweetError::Unauthorized(m)) && m@ == "authentication error occurred"@,
        },
{
    match claims {
        Some(c) => match c.token_id {
            Some(id) => Ok(id),
            None => Err(TweetError::Unauthorized(String::from_str("authentication error occurred"))),
        },
        None => Err(TweetError::Unauthorized(String::from_str("authentication error occurred"))),
    }
}

} // verus!
