use vstd::prelude::*;
use crate::model::{Comment, Like, Tweet};

verus! {

/// The external form of a like.
#[derive(Debug)]
pub struct LikeDto {
    pub id: String,
    pub created_at: i64,
    pub tweet_id: String,
}

/// The external form of a comment.
#[derive(Debug)]
pub struct CommentDto {
    pub id: String,
    pub created_at: i64,
    pub message: String,
    pub tweet_id: String,
}

/// The external form of a stored tweet, with its likes and comments.
#[derive(Debug)]
pub struct TweetDto {
    pub id: String,
    pub user_id: String,
    pub created_at: i64,
    pub message: String,
    pub likes: Vec<LikeDto>,
    pub comments: Vec<CommentDto>,
}

/// The confirmation of a registration.
#[derive(Debug)]
pub struct UserDto {
    pub id: String,
    pub message: String,
}

/// The external form `d` carries what the like `l` holds.
pub open spec fn like_dto_matches(l: Like, d: LikeDto) -> bool {
    d.id@ == l.id@ && d.created_at == l.created_at && d.tweet_id@ == l.tweet_id@
}

/// The external form `d` carries what the comment `c` holds.
pub open spec fn comment_dto_matches(c: Comment, d: CommentDto) -> bool {
    d.id@ == c.id@ && d.created_at == c.created_at && d.message@ == c.message@ && d.tweet_id@
        == c.tweet_id@
}

/// The external form `d` carries what the stored tweet `t` holds, likes and
/// comments in the same order.
pub open spec fn tweet_dto_matches(t: Tweet, d: TweetDto) -> bool {
    &&& t.id matches Some(id) && d.id@ == id@
    &&& d.user_id@ == t.user_id@
    &&& d.created_at == t.created_at
    &&& d.message@ == t.message@
    &&& d.likes@.len() == t.likes@.len()
    &&& forall|i: int| 0 <= i < d.likes@.len() ==> like_dto_matches(t.likes@[i], #[trigger] d.likes@[i])
    &&& d.comments@.len() == t.comments@.len()
    &&& forall|i: int|
        0 <= i < d.comments@.len() ==> comment_dto_matches(t.comments@[i], #[trigger] d.comments@[i])
}

impl Like {
    /// The external form of this like.
    pub fn map(&self) -> (r: LikeDto)
        ensures
            like_dto_matches(*self, r),
    {
        LikeDto { id: self.id.clone(), created_at: self.created_at, tweet_id: self.tweet_id.clone() }
    }
}

impl Comment {
    /// The external form of this comment.
    pub fn map(&self) -> (r: CommentDto)
        ensures
            comment_dto_matches(*self, r),
    {
        CommentDto {
            id: self.id.clone(),
            created_at: self.created_at,
            message: self.message.clone(),
            tweet_id: self.tweet_id.clone(),
        }
    }
}

impl LikeDto {
    /// The like that this external form describes.
    pub fn to_like(&self) -> (r: Like)
        ensures
            like_dto_matches(r, *self),
    {
        Like { id: self.id.clone(), created_at: self.created_at, tweet_id: self.tweet_id.clone() }
    }
}

impl CommentDto {
    /// The comment that this external form describes.
    pub fn to_comment(&self) -> (r: Comment)
        ensures
            comment_dto_matches(r, *self),
    {
        Comment {
            id: self.id.clone(),
            message: self.message.clone(),
            created_at: self.created_at,
            tweet_id: self.tweet_id.clone(),
        }
    }
}

impl Tweet {
    /// The external form of this stored tweet.
    pub fn map(&self) -> (r: TweetDto)
        requires
            self.id is Some,
        ensures
            tweet_dto_matches(*self, r),
    {
        let id = match &self.id {
            Some(id) => id.clone(),
            None => String::new(),
        };
        let mut likes: Vec<LikeDto> = Vec::new();
        let mut i: usize = 0;
        while i < self.likes.len()
            invariant
                0 <= i <= self.likes@.len(),
                likes@.len() == i,
                forall|k: int| 0 <= k < i ==> like_dto_matches(self.likes@[k], #[trigger] likes@[k]),
            decreases self.likes@.len() - i,
        {
            likes.push(self.likes[i].map());
            i = i + 1;
        }
        let mut comments: Vec<CommentDto> = Vec::new();
        let mut i: usize = 0;
        while i < self.comments.len()
            invariant
                0 <= i <= self.comments@.len(),
                comments@.len() == i,
                forall|k: int|
                    0 <= k < i ==> comment_dto_matches(self.comments@[k], #[trigger] comments@[k]),
            decreases self.comments@.len() - i,
        {
            comments.push(self.comments[i].map());
            i = i + 1;
        }
        TweetDto {
            id,
            user_id: self.user_id.clone(),
            created_at: self.created_at,
            message: self.message.clone(),
            likes,
            comments,
        }
    }
}

impl TweetDto {
    /// The stored tweet that this external form describes.
    pub fn to_tweet(self) -> (r: Tweet)
        ensures
            tweet_dto_matches(r, self),
    {
        let mut likes: Vec<Like> = Vec::new();
        let mut i: usize = 0;
        while i < self.likes.len()
            invariant
                0 <= i <= self.likes@.len(),
                likes@.len() == i,
                forall|k: int| 0 <= k < i ==> like_dto_matches(#[trigger] likes@[k], self.likes@[k]),
            decreases self.likes@.len() - i,
        {
            likes.push(self.likes[i].to_like());
            i = i + 1;
        }
        let mut comments: Vec<Comment> = Vec::new();
        let mut i: usize = 0;
        while i < self.comments.len()
            invariant
                0 <= i <= self.comments@.len(),
                comments@.len() == i,
                forall|k: int|
                    0 <= k < i ==> comment_dto_matches(#[trigger] comments@[k], self.comments@[k]),
            decreases self.comments@.len() - i,
        {
            comments.push(self.comments[i].to_comment());
            i = i + 1;
        }
        Tweet {
            id: Some(self.id),
            user_id: self.user_id,
            created_at: self.created_at,
            message: self.message,
            likes,
            comments,
        }
    }
}

/// Reading a stored tweet back through its external form recovers it: the
/// tweet rebuilt from the form of `t` holds what `t` holds.
pub proof fn lemma_dto_round_trip(t: Tweet, d: TweetDto, back: Tweet)
    requires
        tweet_dto_matches(t, d),
        tweet_dto_matches(back, d),
    ensures
        back.id.unwrap()@ == t.id.unwrap()@,
        back.user_id@ == t.user_id@,
        back.created_at == t.created_at,
        back.message@ == t.message@,
        back.likes@.len() == t.likes@.len(),
        forall|i: int|
            0 <= i < t.likes@.len() ==> (#[trigger] back.likes@[i]).id@ == t.likes@[i].id@
                && back.likes@[i].created_at == t.likes@[i].created_at
                && back.likes@[i].tweet_id@ == t.likes@[i].tweet_id@,
        back.comments@.len() == t.comments@.len(),
        forall|i: int|
            0 <= i < t.comments@.len() ==> (#[trigger] back.comments@[i]).id@ == t.comments@[i].id@
                && back.comments@[i].message@ == t.comments@[i].message@
                && back.comments@[i].created_at == t.comments@[i].created_at
                && back.comments@[i].tweet_id@ == t.comments@[i].tweet_id@,
{
    assert forall|i: int| 0 <= i < t.likes@.len() implies (#[trigger] back.likes@[i]).id@
        == t.likes@[i].id@ && back.likes@[i].created_at == t.likes@[i].created_at
        && back.likes@[i].tweet_id@ == t.likes@[i].tweet_id@ by {
        assert(like_dto_matches(t.likes@[i], d.likes@[i]));
        assert(like_dto_matches(back.likes@[i], d.likes@[i]));
    }
    assert forall|i: int| 0 <= i < t.comments@.len() implies (#[trigger] back.comments@[i]).id@
        == t.comments@[i].id@ && back.comments@[i].message@ == t.comments@[i].message@
        && back.comments@[i].created_at == t.comments@[i].created_at
        && back.comments@[i].tweet_id@ == t.comments@[i].tweet_id@ by {
        assert(comment_dto_matches(t.comments@[i], d.comments@[i]));
        assert(comment_dto_matches(back.comments@[i], d.comments@[i]));
    }
}

/// A tweet read back right after it was created shows the message it was
/// created with and no likes or comments.
pub proof fn lemma_created_tweet_reads_back(created: Tweet, shown: TweetDto)
    requires
        created.likes@.len() == 0,
        created.comments@.len() == 0,
        tweet_dto_matches(created, shown),
    ensures
        shown.message@ == created.message@,
        shown.user_id@ == created.user_id@,
        shown.likes@.len() == 0,
        shown.comments@.len() == 0,
{
}

} // verus!
