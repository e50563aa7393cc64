use vstd::prelude::*;
use crate::model::{Comment, Tweet};
use crate::oid::{canonical_id, is_object_id_text};

verus! {

/// Credentials presented at login.
#[derive(Debug, Clone)]
pub struct AuthData {
    pub email: String,
    pub password: String,
}

/// A registration request.
#[derive(Debug, Clone)]
pub struct CreateUser {
    pub email: String,
    pub password: String,
}

/// A request to replace the password of the account `email`.
#[derive(Debug, Clone)]
pub struct ChangePasswordRequest {
    pub email: String,
    pub password: String,
    pub new_password: String,
}

/// The body of a request that posts a tweet.
#[derive(Debug)]
pub struct TweetRequest {
    pub message: Option<String>,
}

/// The body of a request that comments on a tweet.
#[derive(Debug)]
pub struct CommentRequest {
    pub message: Option<String>,
}

impl TweetRequest {
    /// The tweet that this request asks the user `user_id` to post; `None`
    /// where it carries no message or `user_id` is no identifier.
    pub fn tweet(&self, user_id: &str) -> (r: Option<Tweet>)
        ensures
            r is Some <==> self.message is Some && is_object_id_text(user_id@),
            r matches Some(t) ==> {
                &&& t.id is None
                &&& t.message@ == self.message.unwrap()@
                &&& t.user_id@ == canonical_id(user_id@)
                &&& t.likes@.len() == 0
                &&& t.comments@.len() == 0
                &&& t.well_formed()
            },
    {
        match &self.message {
            Some(message) => Tweet::new(message.as_str(), user_id),
            None => None,
        }
    }
}

impl CommentRequest {
    /// The comment that this request asks to add to the tweet `tweet_id`;
    /// `None` where it carries no message or `tweet_id` is no identifier.
    pub fn comment(&self, tweet_id: &str) -> (r: Option<Comment>)
        ensures
            r is Some <==> self.message is Some && is_object_id_text(tweet_id@),
            r matches Some(c) ==> c.message@ == self.message.unwrap()@ && c.tweet_id@ == canonical_id(
                tweet_id@,
            ),
    {
        match &self.message {
            Some(message) => Comment::new(tweet_id, message.as_str()),
            None => None,
        }
    }
}

} // verus!
