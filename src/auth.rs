//! The decisions of the account service. Looking a user up by email,
//! hashing and verifying passwords, and writing records are done by the
//! caller, which hands the outcomes in: the record found (`None` where there
//! is none) and whether a password verified against the stored hash.
use vstd::prelude::*;
use crate::clock::{now_millis, now_seconds};
use crate::dto::UserDto;
use crate::error::TweetError;
use crate::token::{hs256_token, issue_token_at, token_issuer, token_subject, TOKEN_LIFETIME_SECS};
use vstd::string::StringExecFns;

verus! {

/// A registered account.
#[derive(Debug)]
pub struct User {
    /// Assigned by the store on insert.
    pub id: Option<String>,
    /// Milliseconds since the Unix epoch.
    pub created_at: i64,
    pub email: String,
    /// The password hash; the plaintext is never kept.
    pub password: String,
}

/// A login of `user` whose password verified, at `issued_at`, receives a
/// token: the user must be stored and the expiry instant must fit.
pub open spec fn token_granted(user: User, password_verified: bool, issued_at: u64) -> bool {
    password_verified && user.id is Some && issued_at <= u64::MAX - TOKEN_LIFETIME_SECS
}

/// The message of a login whose account was found but received no token.
pub open spec fn login_failed_text() -> Seq<char> {
    "authentication failed, please check that email and/or password are correct"@
}

/// The message of a refused password change.
pub open spec fn password_change_refusal(
    found: Option<User>,
    old_verified: bool,
    new_verified: bool,
) -> Seq<char> {
    match found {
        None => "Error changing password."@,
        Some(u) => if !old_verified {
            "Invalid password provided."@
        } else if new_verified {
            "Old and new password must not be the same"@
        } else {
            "Invalid User Id provided."@
        },
    }
}

/// The token issued for `user_id` at `issued_at`.
pub open spec fn login_token(secret: Seq<u8>, user_id: Seq<char>, issued_at: u64) -> Seq<char> {
    hs256_token(
        secret,
        token_issuer(),
        token_subject(),
        user_id,
        issued_at,
        (issued_at + TOKEN_LIFETIME_SECS) as u64,
    )
}

/// A password change is carried out: the account exists and is stored, the
/// old password verified, and the new one does not verify against the old
/// hash.
pub open spec fn password_change_allowed(
    found: Option<User>,
    old_verified: bool,
    new_verified: bool,
) -> bool {
    found matches Some(u) && u.id is Some && old_verified && !new_verified
}

impl User {
    /// A new, not yet stored account with this email and password hash,
    /// created now.
    pub fn new(email: &str, password_hash: String) -> (r: User)
        ensures
            r.id is None,
            r.email@ == email@,
            r.password == password_hash,
    {
        User { id: None, created_at: now_millis(), email: String::from_str(email), password: password_hash }
    }

    /// Replaces the stored password hash.
    pub fn update_password(&mut self, password_hash: String)
        ensures
            final(self).password == password_hash,
            final(self).id == old(self).id,
            final(self).created_at == old(self).created_at,
            final(self).email == old(self).email,
    {
        self.password = password_hash;
    }

    /// The token for a login at `issued_at` whose password verified against
    /// this account's hash; `None` where the password did not verify, the
    /// account is not stored, or the expiry instant would not fit.
    pub fn generate_token(&self, password_verified: bool, secret: &[u8], issued_at: u64) -> (r:
        Option<String>)
        ensures
            r is Some <==> token_granted(*self, password_verified, issued_at),
            r matches Some(t) ==> t@ == login_token(secret@, self.id.unwrap()@, issued_at),
    {
        if !password_verified {
            return None;
        }
        match &self.id {
            Some(id) => match issue_token_at(secret, id.as_str(), issued_at) {
                Ok(t) => Some(t),
                Err(_) => None,
            },
            None => None,
        }
    }
}

/// Refuses a registration whose email is already taken.
pub fn check_email_free(email: &str, email_taken: bool) -> (r: Result<(), TweetError>)
    ensures
        !email_taken ==> r is Ok,
        email_taken ==> (r matches Err(TweetError::BadRequest(m)) && m@ == "User with "@ + email@
            + " already exists"@),
{
    if email_taken {
        let m = String::from_str("User with ").concat(email).concat(" already exists");
        Err(TweetError::BadRequest(m))
    } else {
        Ok(())
    }
}

/// The confirmation of a registration whose record the store inserted under
/// `inserted_id` (`None`: the store assigned no identifier).
pub fn registered(inserted_id: Option<String>) -> (r: Result<UserDto, TweetError>)
    ensures
        inserted_id is None ==> (r matches Err(e) && e is BadRequest),
        inserted_id matches Some(id) ==> (r matches Ok(d) && d.id == id && d.message@
            == "Your registration was successful"@),
{
    match inserted_id {
        Some(id) => Ok(UserDto { id, message: String::from_str("Your registration was successful") }),
        None => Err(TweetError::BadRequest(String::from_str("Error registering user"))),
    }
}

/// Decides a login at `now` for the account found under `email`: a token
/// where the password verified, `Unauthorized` otherwise.
pub fn valid_user(
    found: Option<User>,
    email: &str,
    password_verified: bool,
    secret: &[u8],
    now: u64,
) -> (r: Result<String, TweetError>)
    ensures
        found is None ==> (r matches Err(TweetError::Unauthorized(m)) && m@ == "No user with "@
            + email@ + " found."@),
        found matches Some(u) ==> if token_granted(u, password_verified, now) {
            r matches Ok(t) && t@ == login_token(secret@, u.id.unwrap()@, now)
        } else {
            r matches Err(TweetError::Unauthorized(m)) && m@ == login_failed_text()
        },
{
    match found {
        None => {
            let m = String::from_str("No user with ").concat(email).concat(" found.");
            Err(TweetError::Unauthorized(m))
        },
        Some(u) => match u.generate_token(password_verified, secret, now) {
            Some(t) => Ok(t),
            None => Err(
                TweetError::Unauthorized(
                    String::from_str(
                        "authentication failed, please check that email and/or password are correct",
                    ),
                ),
            ),
        },
    }
}

/// Decides a login now; see `valid_user`.
pub fn sign_in(found: Option<User>, email: &str, password_verified: bool, secret: &[u8]) -> (r:
    Result<String, TweetError>)
    ensures
        found is None || !password_verified ==> (r matches Err(e) && e is Unauthorized),
        r matches Ok(t) ==> (found matches Some(u) && u.id is Some && exists|ia: u64|
            token_granted(u, password_verified, ia) && t@ == #[trigger] login_token(
                secret@,
                u.id.unwrap()@,
                ia,
            )),
{
    let now = now_seconds();
    valid_user(found, email, password_verified, secret, now)
}

/// Decides whether a password change for the account found by email is
/// carried out. `old_verified` tells whether the old password verified
/// against the stored hash, `new_verified` whether the new one does too
/// (then they are the same password).
pub fn check_password_change(found: &Option<User>, old_verified: bool, new_verified: bool) -> (r:
    Result<(), TweetError>)
    ensures
        r is Ok <==> password_change_allowed(*found, old_verified, new_verified),
        r is Err ==> (r matches Err(TweetError::BadRequest(m)) && m@ == password_change_refusal(
            *found,
            old_verified,
            new_verified,
        )),
{
    match found {
        None => Err(TweetError::BadRequest(String::from_str("Error changing password."))),
        Some(user) => {
            if !old_verified {
                Err(TweetError::BadRequest(String::from_str("Invalid password provided.")))
            } else if new_verified {
                Err(
                    TweetError::BadRequest(
                        String::from_str("Old and new password must not be the same"),
                    ),
                )
            } else if user.id.is_none() {
                Err(TweetError::BadRequest(String::from_str("Invalid User Id provided.")))
            } else {
                Ok(())
            }
        },
    }
}

/// Carries out a password change for the account found by email, as
/// `check_password_change` decides it; `new_password_hash` is the hash of
/// the new password. Returns the record to write back.
pub fn change_password(
    found: Option<User>,
    old_verified: bool,
    new_verified: bool,
    new_password_hash: String,
) -> (r: Result<User, TweetError>)
    ensures
        r is Ok <==> password_change_allowed(found, old_verified, new_verified),
        r is Err ==> (r matches Err(TweetError::BadRequest(m)) && m@ == password_change_refusal(
            found,
            old_verified,
            new_verified,
        )),
        r matches Ok(u) ==> (found matches Some(f) && u.password == new_password_hash && u.id == f.id
            && u.email == f.email && u.created_at == f.created_at),
{
    check_password_change(&found, old_verified, new_verified)?;
    match found {
        Some(mut user) => {
            user.update_password(new_password_hash);
            Ok(user)
        },
        None => Err(TweetError::BadRequest(String::from_str("Error changing password."))),
    }
}

/// Changing to the same password is refused: with old and new equal, the
/// two verifications against the stored hash agree, and either the old one
/// failed or the new one matched.
pub proof fn lemma_same_password_refused(found: Option<User>, verified: bool)
    ensures
        !password_change_allowed(found, verified, verified),
{
}

/// A change whose old password did not verify is refused.
pub proof fn lemma_wrong_old_password_refused(found: Option<User>, new_verified: bool)
    ensures
        !password_change_allowed(found, false, new_verified),
{
}

/// After a password change the account is still stored, so a login whose
/// password verifies against the new hash receives a token, and one whose
/// password does not verify receives none.
pub proof fn lemma_login_after_change(changed: User, issued_at: u64, verified: bool)
    requires
        changed.id is Some,
        issued_at <= u64::MAX - TOKEN_LIFETIME_SECS,
    ensures
        token_granted(changed, verified, issued_at) == verified,
{
}

} // verus!
