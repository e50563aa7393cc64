use twitapp::dto::{LikeDto, TweetDto};
use twitapp::error::TweetError;
use twitapp::model::{Comment, Like, Tweet};
use twitapp::protocol::{
    add_comment, add_like, append_comment, append_like, fetched_tweet, get_tweet, remove_comment,
    remove_like,
};
use twitapp::requests::{CommentRequest, TweetRequest};

const USER: &str = "5f8d0d55b54764421b7156c3";
const TWEET: &str = "64b7f0c2a1b2c3d4e5f60718";

fn stored_tweet(message: &str) -> Tweet {
    let request = TweetRequest { message: Some(message.to_string()) };
    let mut tweet = request.tweet(USER).expect("valid request");
    tweet.id = Some(TWEET.to_string());
    tweet
}

fn like_with_id(id: &str) -> Like {
    Like { id: id.to_string(), created_at: 5, tweet_id: TWEET.to_string() }
}

fn comment_with_id(id: &str, message: &str) -> Comment {
    Comment { id: id.to_string(), message: message.to_string(), created_at: 7, tweet_id: TWEET.to_string() }
}

#[test]
fn created_tweet_reads_back_unchanged() {
    let tweet = stored_tweet("hello");
    let dto = get_tweet(Some(tweet)).expect("stored tweet");
    assert_eq!(dto.id, TWEET);
    assert_eq!(dto.user_id, USER);
    assert_eq!(dto.message, "hello");
    assert!(dto.likes.is_empty());
    assert!(dto.comments.is_empty());
}

#[test]
fn tweet_request_without_message_is_refused() {
    let request = TweetRequest { message: None };
    assert!(request.tweet(USER).is_none());
}

#[test]
fn tweet_request_with_bad_user_id_is_refused() {
    let request = TweetRequest { message: Some("hi".to_string()) };
    assert!(request.tweet("not-an-id").is_none());
}

#[test]
fn tweet_owner_is_written_in_lower_case() {
    let request = TweetRequest { message: Some("hi".to_string()) };
    let tweet = request.tweet("5F8D0D55B54764421B7156C3").unwrap();
    assert_eq!(tweet.user_id, USER);
}

#[test]
fn two_likes_then_remove_first_leaves_second() {
    let tweet = stored_tweet("hello");
    let once = add_like(Some(tweet), TWEET).expect("first like");
    let twice = add_like(Some(once), TWEET).expect("second like");
    let dto = get_tweet(Some(twice.map().to_tweet())).unwrap();
    assert_eq!(dto.likes.len(), 2);
    assert_ne!(dto.likes[0].id, dto.likes[1].id);
    let first = dto.likes[0].id.clone();
    let second = dto.likes[1].id.clone();
    let after = remove_like(Some(dto.to_tweet()), &first).expect("removal");
    assert_eq!(after.likes.len(), 1);
    assert_eq!(after.likes[0].id, second);
}

#[test]
fn like_points_back_to_its_tweet() {
    let tweet = stored_tweet("hello");
    let liked = add_like(Some(tweet), TWEET).unwrap();
    assert_eq!(liked.likes[0].tweet_id, TWEET);
    assert_eq!(liked.likes[0].id.len(), 24);
    assert!(liked.likes[0].id.chars().all(|c| c.is_ascii_hexdigit() && !c.is_ascii_uppercase()));
}

#[test]
fn removing_absent_like_succeeds_unchanged() {
    let mut tweet = stored_tweet("hello");
    tweet.likes.push(like_with_id("aaaaaaaaaaaaaaaaaaaaaaaa"));
    let after = remove_like(Some(tweet), "bbbbbbbbbbbbbbbbbbbbbbbb").expect("idempotent");
    assert_eq!(after.likes.len(), 1);
    assert_eq!(after.likes[0].id, "aaaaaaaaaaaaaaaaaaaaaaaa");
    let again = remove_like(Some(after), "bbbbbbbbbbbbbbbbbbbbbbbb").expect("idempotent");
    assert_eq!(again.likes.len(), 1);
}

#[test]
fn remove_like_compares_ids_in_canonical_form() {
    let mut tweet = stored_tweet("hello");
    tweet.likes.push(like_with_id("aaaaaaaaaaaaaaaaaaaaaaaa"));
    tweet.likes.push(like_with_id("cccccccccccccccccccccccc"));
    let after = remove_like(Some(tweet), "AAAAAAAAAAAAAAAAAAAAAAAA").unwrap();
    assert_eq!(after.likes.len(), 1);
    assert_eq!(after.likes[0].id, "cccccccccccccccccccccccc");
}

#[test]
fn remove_like_with_malformed_id_is_bad_request() {
    let tweet = stored_tweet("hello");
    let r = remove_like(Some(tweet), "xyz");
    assert!(matches!(r, Err(TweetError::BadRequest(_))));
}

#[test]
fn mutation_of_missing_tweet_is_bad_request() {
    assert!(matches!(add_like(None, TWEET), Err(TweetError::BadRequest(_))));
    assert!(matches!(remove_like(None, TWEET), Err(TweetError::BadRequest(_))));
    assert!(matches!(add_comment(None, TWEET, "x"), Err(TweetError::BadRequest(_))));
    assert!(matches!(remove_comment(None, TWEET), Err(TweetError::BadRequest(_))));
    assert!(matches!(get_tweet(None), Err(TweetError::BadRequest(_))));
}

#[test]
fn add_like_with_malformed_tweet_id_is_bad_request() {
    let tweet = stored_tweet("hello");
    assert!(matches!(add_like(Some(tweet), "12"), Err(TweetError::BadRequest(_))));
}

#[test]
fn duplicate_like_id_is_internal_error() {
    let mut tweet = stored_tweet("hello");
    tweet.likes.push(like_with_id("aaaaaaaaaaaaaaaaaaaaaaaa"));
    let r = append_like(Some(tweet), like_with_id("aaaaaaaaaaaaaaaaaaaaaaaa"));
    assert!(matches!(r, Err(TweetError::InternalServerError)));
}

#[test]
fn malformed_document_is_internal_error() {
    let mut tweet = stored_tweet("hello");
    tweet.comments.push(comment_with_id("aaaaaaaaaaaaaaaaaaaaaaaa", "a"));
    tweet.comments.push(comment_with_id("aaaaaaaaaaaaaaaaaaaaaaaa", "b"));
    assert!(!tweet.is_well_formed());
    assert!(matches!(fetched_tweet(Some(tweet)), Err(TweetError::InternalServerError)));
}

#[test]
fn stored_tweet_without_id_cannot_be_shown() {
    let request = TweetRequest { message: Some("x".to_string()) };
    let tweet = request.tweet(USER).unwrap();
    assert!(matches!(get_tweet(Some(tweet)), Err(TweetError::InternalServerError)));
}

#[test]
fn two_comments_keep_order_and_distinct_ids() {
    let tweet = stored_tweet("hello");
    let one = add_comment(Some(tweet), TWEET, "first").unwrap();
    let two = add_comment(Some(one), TWEET, "second").unwrap();
    let dto = get_tweet(Some(two)).unwrap();
    assert_eq!(dto.comments.len(), 2);
    assert_eq!(dto.comments[0].message, "first");
    assert_eq!(dto.comments[1].message, "second");
    assert_ne!(dto.comments[0].id, dto.comments[1].id);
}

#[test]
fn append_comment_keeps_order() {
    let tweet = stored_tweet("hello");
    let one = append_comment(Some(tweet), comment_with_id("111111111111111111111111", "a")).unwrap();
    let two = append_comment(Some(one), comment_with_id("222222222222222222222222", "b")).unwrap();
    assert_eq!(two.comments[0].id, "111111111111111111111111");
    assert_eq!(two.comments[1].id, "222222222222222222222222");
}

#[test]
fn remove_comment_takes_out_only_that_comment() {
    let mut tweet = stored_tweet("hello");
    tweet.comments.push(comment_with_id("111111111111111111111111", "a"));
    tweet.comments.push(comment_with_id("222222222222222222222222", "b"));
    let after = remove_comment(Some(tweet), "111111111111111111111111").unwrap();
    assert_eq!(after.comments.len(), 1);
    assert_eq!(after.comments[0].message, "b");
    assert_eq!(after.message, "hello");
}

#[test]
fn comment_request_builds_comment() {
    let request = CommentRequest { message: Some("nice".to_string()) };
    let c = request.comment(TWEET).unwrap();
    assert_eq!(c.message, "nice");
    assert_eq!(c.tweet_id, TWEET);
    assert!(CommentRequest { message: None }.comment(TWEET).is_none());
    assert!(request.comment("bad").is_none());
}

#[test]
fn dto_round_trip_keeps_fields() {
    let dto = TweetDto {
        id: TWEET.to_string(),
        user_id: USER.to_string(),
        created_at: 42,
        message: "m".to_string(),
        likes: vec![LikeDto { id: "aaaaaaaaaaaaaaaaaaaaaaaa".to_string(), created_at: 3, tweet_id: TWEET.to_string() }],
        comments: vec![],
    };
    let tweet = dto.to_tweet();
    assert_eq!(tweet.id.as_deref(), Some(TWEET));
    assert_eq!(tweet.user_id, USER);
    let back = tweet.map();
    assert_eq!(back.created_at, 42);
    assert_eq!(back.likes[0].id, "aaaaaaaaaaaaaaaaaaaaaaaa");
    assert_eq!(back.likes[0].created_at, 3);
}

#[test]
fn first_like_and_comment_on_tweet_succeed() {
    let liked = add_like(Some(stored_tweet("hello")), TWEET).expect("first like");
    assert_eq!(liked.likes.len(), 1);
    let commented = add_comment(Some(stored_tweet("hello")), TWEET, "c").expect("first comment");
    assert_eq!(commented.comments.len(), 1);
    assert_eq!(commented.comments[0].message, "c");
}
