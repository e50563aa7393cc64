use twitapp::auth::{change_password, check_email_free, check_password_change, registered, valid_user, User};
use twitapp::error::TweetError;
use twitapp::token::{
    get_user_id, is_token_expired, issue_token_at, validate_token_at, TokenClaims, TOKEN_LIFETIME_SECS,
};

const SECRET: &[u8] = b"top-secret";
const USER_ID: &str = "5f8d0d55b54764421b7156c3";

fn stored_user(email: &str, hash: &str) -> User {
    let mut u = User::new(email, hash.to_string());
    u.id = Some(USER_ID.to_string());
    u
}

#[test]
fn register_then_login_scenario() {
    assert!(check_email_free("a@x.com", false).is_ok());
    let summary = registered(Some(USER_ID.to_string())).unwrap();
    assert_eq!(summary.id, USER_ID);
    assert_eq!(summary.message, "Your registration was successful");
    match check_email_free("a@x.com", true) {
        Err(TweetError::BadRequest(m)) => {
            assert_eq!(m, "User with a@x.com already exists");
            assert!(m.contains("already exists"));
        }
        _ => panic!("duplicate email accepted"),
    }
    let user = stored_user("a@x.com", "hash-of-p1");
    let token = valid_user(Some(user), "a@x.com", true, SECRET, 1_000).unwrap();
    assert!(!token.is_empty());
    let user = stored_user("a@x.com", "hash-of-p1");
    assert!(matches!(valid_user(Some(user), "a@x.com", false, SECRET, 1_000), Err(TweetError::Unauthorized(_))));
}

#[test]
fn registration_without_id_is_bad_request() {
    assert!(matches!(registered(None), Err(TweetError::BadRequest(_))));
}

#[test]
fn login_of_unknown_email_is_unauthorized() {
    match valid_user(None, "b@x.com", false, SECRET, 1_000) {
        Err(TweetError::Unauthorized(m)) => assert_eq!(m, "No user with b@x.com found."),
        _ => panic!("unknown email accepted"),
    }
}

#[test]
fn login_of_unstored_user_is_unauthorized() {
    let user = User::new("a@x.com", "h".to_string());
    assert!(matches!(valid_user(Some(user), "a@x.com", true, SECRET, 1_000), Err(TweetError::Unauthorized(_))));
}

#[test]
fn token_carries_user_id_and_expires_after_a_day() {
    let token = issue_token_at(SECRET, USER_ID, 1_000).unwrap();
    let claims = validate_token_at(SECRET, &token, 1_000).unwrap();
    assert_eq!(claims.token_id.as_deref(), Some(USER_ID));
    assert_eq!(claims.issuer.as_deref(), Some("TwitApp"));
    assert_eq!(claims.subject.as_deref(), Some("https://twitapp.com"));
    assert_eq!(claims.issued_at, Some(1_000));
    assert_eq!(claims.expiration, Some(1_000 + TOKEN_LIFETIME_SECS));
    assert_eq!(get_user_id(Some(claims)).unwrap(), USER_ID);
}

#[test]
fn token_valid_until_expiry_instant() {
    let token = issue_token_at(SECRET, USER_ID, 1_000).unwrap();
    let expiry = 1_000 + TOKEN_LIFETIME_SECS;
    assert!(validate_token_at(SECRET, &token, expiry - 1).is_ok());
    assert!(matches!(validate_token_at(SECRET, &token, expiry), Err(TweetError::Unauthorized(_))));
    assert!(matches!(validate_token_at(SECRET, &token, expiry + 1), Err(TweetError::Unauthorized(_))));
}

#[test]
fn token_with_other_secret_is_refused() {
    let token = issue_token_at(SECRET, USER_ID, 1_000).unwrap();
    assert!(matches!(validate_token_at(b"other", &token, 1_000), Err(TweetError::Unauthorized(_))));
    assert!(matches!(validate_token_at(SECRET, "not.a.token", 1_000), Err(TweetError::Unauthorized(_))));
}

#[test]
fn issuing_near_end_of_time_fails() {
    assert!(matches!(issue_token_at(SECRET, USER_ID, u64::MAX - 10), Err(TweetError::InternalServerError)));
}

#[test]
fn expiry_check_boundaries() {
    assert!(!is_token_expired(Some(100), 99));
    assert!(is_token_expired(Some(100), 100));
    assert!(is_token_expired(Some(100), 101));
    assert!(is_token_expired(None, 0));
}

#[test]
fn claims_without_token_id_are_unauthorized() {
    let claims = TokenClaims { issuer: None, subject: None, token_id: None, issued_at: None, expiration: Some(5) };
    assert!(matches!(get_user_id(Some(claims)), Err(TweetError::Unauthorized(_))));
    assert!(matches!(get_user_id(None), Err(TweetError::Unauthorized(_))));
}

#[test]
fn change_password_rules() {
    let same = change_password(Some(stored_user("a@x.com", "old")), true, true, "new".to_string());
    assert!(matches!(same, Err(TweetError::BadRequest(_))));
    let wrong = change_password(Some(stored_user("a@x.com", "old")), false, false, "new".to_string());
    assert!(matches!(wrong, Err(TweetError::BadRequest(_))));
    let missing = change_password(None, true, false, "new".to_string());
    assert!(matches!(missing, Err(TweetError::BadRequest(_))));
    let done = change_password(Some(stored_user("a@x.com", "old")), true, false, "new".to_string()).unwrap();
    assert_eq!(done.password, "new");
    assert_eq!(done.email, "a@x.com");
    assert_eq!(done.id.as_deref(), Some(USER_ID));
    assert!(valid_user(Some(done), "a@x.com", true, SECRET, 5).is_ok());
}

#[test]
fn error_messages() {
    assert_eq!(TweetError::InternalServerError.message(), "Internal Server Error, Please try later");
    assert_eq!(TweetError::BadRequest("x".to_string()).message(), "BadRequest: x");
    assert_eq!(TweetError::Unauthorized("y".to_string()).message(), "Unauthorized: y");
}

fn bad_request_text<T>(r: Result<T, TweetError>) -> String {
    match r {
        Err(TweetError::BadRequest(m)) => m,
        _ => panic!("expected BadRequest"),
    }
}

#[test]
fn password_change_messages() {
    let same = change_password(Some(stored_user("a@x.com", "old")), true, true, "new".to_string());
    assert_eq!(bad_request_text(same), "Old and new password must not be the same");
    let wrong = change_password(Some(stored_user("a@x.com", "old")), false, false, "new".to_string());
    assert_eq!(bad_request_text(wrong), "Invalid password provided.");
    assert_eq!(bad_request_text(change_password(None, true, false, "n".to_string())), "Error changing password.");
    let unstored = User::new("a@x.com", "old".to_string());
    assert_eq!(bad_request_text(change_password(Some(unstored), true, false, "n".to_string())), "Invalid User Id provided.");
}

#[test]
fn password_change_check_before_hashing() {
    assert!(check_password_change(&Some(stored_user("a@x.com", "old")), true, false).is_ok());
    let same = check_password_change(&Some(stored_user("a@x.com", "old")), true, true);
    assert_eq!(bad_request_text(same), "Old and new password must not be the same");
}

#[test]
fn wrong_password_login_message() {
    match valid_user(Some(stored_user("a@x.com", "h")), "a@x.com", false, SECRET, 1_000) {
        Err(TweetError::Unauthorized(m)) => {
            assert_eq!(m, "authentication failed, please check that email and/or password are correct")
        }
        _ => panic!("wrong password accepted"),
    }
}

#[test]
fn missing_claims_message() {
    match get_user_id(None) {
        Err(TweetError::Unauthorized(m)) => assert_eq!(m, "authentication error occurred"),
        _ => panic!("missing claims accepted"),
    }
}
