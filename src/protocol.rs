//! The fetch-mutate-replace protocol on tweet documents. The caller fetches
//! the document by id from its store and hands it over (`None` where the
//! store found none); the functions here decide and apply the mutation; the
//! caller replaces the whole document with the one returned.
//!
//! The fetch and the replace are two round trips with nothing held between
//! them: two mutations of one tweet that run at once may both start from the
//! same document, and the later replace then drops the earlier change.
use vstd::prelude::*;
use crate::dto::{tweet_dto_matches, TweetDto};
use crate::error::TweetError;
use crate::model::{
    comments_without, has_comment_id, has_like_id, likes_without, Comment, Like, Tweet,
};
use crate::oid::{canonical_id, is_canonical_id, is_object_id_text};
use vstd::string::StringExecFns;

verus! {

/// The fetched tweet `u` is `t` with only its likes changed.
pub open spec fn same_but_likes(u: Tweet, t: Tweet) -> bool {
    u.id == t.id && u.user_id == t.user_id && u.created_at == t.created_at && u.message == t.message
        && u.comments@ == t.comments@
}

/// The fetched tweet `u` is `t` with only its comments changed.
pub open spec fn same_but_comments(u: Tweet, t: Tweet) -> bool {
    u.id == t.id && u.user_id == t.user_id && u.created_at == t.created_at && u.message == t.message
        && u.likes@ == t.likes@
}

fn not_found() -> (r: TweetError)
    ensures
        r is BadRequest,
{
    TweetError::BadRequest(String::from_str("Tweet not found"))
}

/// Checks a fetched document: present, and with its likes and comments
/// identified uniquely.
pub fn fetched_tweet(fetched: Option<Tweet>) -> (r: Result<Tweet, TweetError>)
    ensures
        match fetched {
            None => r matches Err(e) && e is BadRequest,
            Some(t) => if t.well_formed() {
                r == Ok::<Tweet, TweetError>(t)
            } else {
                r matches Err(e) && e is InternalServerError
            },
        },
{
    match fetched {
        None => Err(not_found()),
        Some(t) => {
            if t.is_well_formed() {
                Ok(t)
            } else {
                Err(TweetError::InternalServerError)
            }
        },
    }
}

/// The external form of a fetched tweet.
pub fn get_tweet(fetched: Option<Tweet>) -> (r: Result<TweetDto, TweetError>)
    ensures
        match fetched {
            None => r matches Err(e) && e is BadRequest,
            Some(t) => if t.id is Some {
                r matches Ok(d) && tweet_dto_matches(t, d)
            } else {
                r matches Err(e) && e is InternalServerError
            },
        },
{
    match fetched {
        None => Err(not_found()),
        Some(t) => {
            if t.id.is_some() {
                Ok(t.map())
            } else {
                Err(TweetError::InternalServerError)
            }
        },
    }
}

/// Appends `like` to the fetched tweet. Refused where the like's
/// identifier is already on the tweet.
pub fn append_like(fetched: Option<Tweet>, like: Like) -> (r: Result<Tweet, TweetError>)
    ensures
        match fetched {
            None => r matches Err(e) && e is BadRequest,
            Some(t) => if !t.well_formed() || has_like_id(t.likes@, like.id@) {
                r matches Err(e) && e is InternalServerError
            } else {
                r matches Ok(u) && u.likes@ == t.likes@.push(like) && same_but_likes(u, t)
                    && u.well_formed()
            },
        },
{
    let mut t = fetched_tweet(fetched)?;
    if t.has_like(&like.id) {
        return Err(TweetError::InternalServerError);
    }
    t.add_like(like);
    Ok(t)
}

/// Adds a new like, with a fresh identifier and the current time, to the
/// fetched tweet named by `tweet_id`.
pub fn add_like(fetched: Option<Tweet>, tweet_id: &str) -> (r: Result<Tweet, TweetError>)
    ensures
        !is_object_id_text(tweet_id@) ==> (r matches Err(e) && e is BadRequest),
        is_object_id_text(tweet_id@) ==> match fetched {
            None => r matches Err(e) && e is BadRequest,
            Some(t) => if !t.well_formed() {
                r matches Err(e) && e is InternalServerError
            } else {
                (r is Ok || (r matches Err(e) && e is InternalServerError)) && (t.likes@.len() == 0
                    ==> r is Ok)
            },
        },
        fetched is None ==> (r matches Err(e) && e is BadRequest),
        r matches Ok(u) ==> (fetched matches Some(t) && t.well_formed() && u.well_formed()
            && same_but_likes(u, t) && u.likes@.len() == t.likes@.len() + 1
            && u.likes@.drop_last() == t.likes@ && !has_like_id(t.likes@, u.likes@.last().id@)
            && is_canonical_id(u.likes@.last().id@)
            && u.likes@.last().tweet_id@ == canonical_id(tweet_id@)),
{
    let like = match Like::new(tweet_id) {
        Some(l) => l,
        None => {
            return Err(TweetError::BadRequest(String::from_str("Invalid tweet Id provided")));
        },
    };
    let r = append_like(fetched, like);
    proof {
        if r is Ok {
            let u = r->Ok_0;
            let t = fetched->Some_0;
            assert(u.likes@.drop_last() =~= t.likes@);
        }
    }
    r
}

/// Takes the like `like_id` out of the fetched tweet; where no like has
/// that identifier the likes stay as they were and the call still succeeds.
pub fn remove_like(fetched: Option<Tweet>, like_id: &str) -> (r: Result<Tweet, TweetError>)
    ensures
        match fetched {
            None => r matches Err(e) && e is BadRequest,
            Some(t) => if !t.well_formed() {
                r matches Err(e) && e is InternalServerError
            } else if !is_object_id_text(like_id@) {
                r matches Err(e) && e is BadRequest
            } else {
                r matches Ok(u) && u.likes@ == likes_without(t.likes@, canonical_id(like_id@))
                    && same_but_likes(u, t) && u.well_formed()
            },
        },
{
    let mut t = fetched_tweet(fetched)?;
    t.remove_like(like_id)?;
    Ok(t)
}

/// Appends `comment` to the fetched tweet. Refused where the comment's
/// identifier is already on the tweet.
pub fn append_comment(fetched: Option<Tweet>, comment: Comment) -> (r: Result<Tweet, TweetError>)
    ensures
        match fetched {
            None => r matches Err(e) && e is BadRequest,
            Some(t) => if !t.well_formed() || has_comment_id(t.comments@, comment.id@) {
                r matches Err(e) && e is InternalServerError
            } else {
                r matches Ok(u) && u.comments@ == t.comments@.push(comment) && same_but_comments(
                    u,
                    t,
                ) && u.well_formed()
            },
        },
{
    let mut t = fetched_tweet(fetched)?;
    if t.has_comment(&comment.id) {
        return Err(TweetError::InternalServerError);
    }
    t.add_comment(comment);
    Ok(t)
}

/// Adds a new comment with `message`, a fresh identifier and the current
/// time, to the fetched tweet named by `tweet_id`.
pub fn add_comment(fetched: Option<Tweet>, tweet_id: &str, message: &str) -> (r: Result<
    Tweet,
    TweetError,
>)
    ensures
        !is_object_id_text(tweet_id@) ==> (r matches Err(e) && e is BadRequest),
        is_object_id_text(tweet_id@) ==> match fetched {
            None => r matches Err(e) && e is BadRequest,
            Some(t) => if !t.well_formed() {
                r matches Err(e) && e is InternalServerError
            } else {
                (r is Ok || (r matches Err(e) && e is InternalServerError)) && (t.comments@.len() == 0
                    ==> r is Ok)
            },
        },
        fetched is None ==> (r matches Err(e) && e is BadRequest),
        r matches Ok(u) ==> (fetched matches Some(t) && t.well_formed() && u.well_formed()
            && same_but_comments(u, t) && u.comments@.len() == t.comments@.len() + 1
            && u.comments@.drop_last() == t.comments@ && !has_comment_id(
            t.comments@,
            u.comments@.last().id@,
        ) && is_canonical_id(u.comments@.last().id@) && u.comments@.last().message@ == message@
            && u.comments@.last().tweet_id@ == canonical_id(tweet_id@)),
{
    let comment = match Comment::new(tweet_id, message) {
        Some(c) => c,
        None => {
            return Err(TweetError::BadRequest(String::from_str("Invalid tweet Id provided")));
        },
    };
    let r = append_comment(fetched, comment);
    proof {
        if r is Ok {
            let u = r->Ok_0;
            let t = fetched->Some_0;
            assert(u.comments@.drop_last() =~= t.comments@);
        }
    }
    r
}

/// Takes the comment `comment_id` out of the fetched tweet; where no comment
/// has that identifier the comments stay as they were and the call still
/// succeeds.
pub fn remove_comment(fetched: Option<Tweet>, comment_id: &str) -> (r: Result<Tweet, TweetError>)
    ensures
        match fetched {
            None => r matches Err(e) && e is BadRequest,
            Some(t) => if !t.well_formed() {
                r matches Err(e) && e is InternalServerError
            } else if !is_object_id_text(comment_id@) {
                r matches Err(e) && e is BadRequest
            } else {
                r matches Ok(u) && u.comments@ == comments_without(
                    t.comments@,
                    canonical_id(comment_id@),
                ) && same_but_comments(u, t) && u.well_formed()
            },
        },
{
    let mut t = fetched_tweet(fetched)?;
    t.remove_comment(comment_id)?;
    Ok(t)
}

} // verus!
