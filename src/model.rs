use vstd::prelude::*;
use crate::clock::now_millis;
use crate::error::TweetError;
use crate::oid::{canonical_id, is_canonical_id, is_object_id_text, new_object_id, parse_object_id};
use vstd::string::StringExecFns;

verus! {

/// A like, embedded in the tweet that owns it.
#[derive(Debug)]
pub struct Like {
    pub id: String,
    /// Milliseconds since the Unix epoch.
    pub created_at: i64,
    /// Back-reference to the owning tweet.
    pub tweet_id: String,
}

/// A comment, embedded in the tweet that owns it.
#[derive(Debug)]
pub struct Comment {
    pub id: String,
    pub message: String,
    /// Milliseconds since the Unix epoch.
    pub created_at: i64,
    /// Back-reference to the owning tweet.
    pub tweet_id: String,
}

/// A tweet with its likes and comments, stored and mutated as one document.
#[derive(Debug)]
pub struct Tweet {
    /// Assigned by the store on insert.
    pub id: Option<String>,
    /// The user who posted the tweet.
    pub user_id: String,
    /// Milliseconds since the Unix epoch.
    pub created_at: i64,
    pub message: String,
    pub likes: Vec<Like>,
    pub comments: Vec<Comment>,
}

/// No two likes share an identifier.
pub open spec fn like_ids_distinct(likes: Seq<Like>) -> bool {
    forall|i: int, j: int| 0 <= i < j < likes.len() ==> likes[i].id@ != likes[j].id@
}

/// No two comments share an identifier.
pub open spec fn comment_ids_distinct(comments: Seq<Comment>) -> bool {
    forall|i: int, j: int| 0 <= i < j < comments.len() ==> comments[i].id@ != comments[j].id@
}

pub open spec fn has_like_id(likes: Seq<Like>, id: Seq<char>) -> bool {
    exists|i: int| 0 <= i < likes.len() && (#[trigger] likes[i]).id@ == id
}

pub open spec fn has_comment_id(comments: Seq<Comment>, id: Seq<char>) -> bool {
    exists|i: int| 0 <= i < comments.len() && (#[trigger] comments[i]).id@ == id
}

/// The likes that remain once the one with this identifier is taken out.
pub open spec fn likes_without(likes: Seq<Like>, id: Seq<char>) -> Seq<Like> {
    likes.filter(|l: Like| l.id@ != id)
}

/// The comments that remain once the one with this identifier is taken out.
pub open spec fn comments_without(comments: Seq<Comment>, id: Seq<char>) -> Seq<Comment> {
    comments.filter(|c: Comment| c.id@ != id)
}

impl Like {
    /// A new like on the tweet named by `tweet_id`, with a fresh identifier
    /// and the current time; `None` where `tweet_id` is no identifier.
    pub fn new(tweet_id: &str) -> (r: Option<Like>)
        ensures
            r is Some <==> is_object_id_text(tweet_id@),
            r matches Some(l) ==> l.tweet_id@ == canonical_id(tweet_id@) && is_canonical_id(l.id@),
    {
        let tweet_id = parse_object_id(tweet_id)?;
        Some(Like { id: new_object_id(), created_at: now_millis(), tweet_id })
    }

    /// A copy of this like.
    pub fn duplicate(&self) -> (r: Like)
        ensures
            r == *self,
    {
        Like { id: self.id.clone(), created_at: self.created_at, tweet_id: self.tweet_id.clone() }
    }
}

impl Comment {
    /// A new comment with `message` on the tweet named by `tweet_id`, with a
    /// fresh identifier and the current time; `None` where `tweet_id` is no
    /// identifier.
    pub fn new(tweet_id: &str, message: &str) -> (r: Option<Comment>)
        ensures
            r is Some <==> is_object_id_text(tweet_id@),
            r matches Some(c) ==> c.tweet_id@ == canonical_id(tweet_id@) && c.message@ == message@
                && is_canonical_id(c.id@),
    {
        let tweet_id = parse_object_id(tweet_id)?;
        Some(
            Comment {
                id: new_object_id(),
                message: String::from_str(message),
                created_at: now_millis(),
                tweet_id,
            },
        )
    }

    /// A copy of this comment.
    pub fn duplicate(&self) -> (r: Comment)
        ensures
            r == *self,
    {
        Comment {
            id: self.id.clone(),
            message: self.message.clone(),
            created_at: self.created_at,
            tweet_id: self.tweet_id.clone(),
        }
    }
}

impl Tweet {
    /// Likes and comments are each identified uniquely within the tweet.
    pub open spec fn well_formed(&self) -> bool {
        like_ids_distinct(self.likes@) && comment_ids_distinct(self.comments@)
    }

    /// A new, not yet stored tweet of the user `user_id`, with no likes and
    /// no comments; `None` where `user_id` is no identifier.
    pub fn new(message: &str, user_id: &str) -> (r: Option<Tweet>)
        ensures
            r is Some <==> is_object_id_text(user_id@),
            r matches Some(t) ==> {
                &&& t.id is None
                &&& t.user_id@ == canonical_id(user_id@)
                &&& t.message@ == message@
                &&& t.likes@.len() == 0
                &&& t.comments@.len() == 0
                &&& t.well_formed()
            },
    {
        let user_id = parse_object_id(user_id)?;
        Some(
            Tweet {
                id: None,
                user_id,
                created_at: now_millis(),
                message: String::from_str(message),
                likes: Vec::new(),
                comments: Vec::new(),
            },
        )
    }

    /// Whether a like with the identifier `id` is on this tweet.
    pub fn has_like(&self, id: &String) -> (r: bool)
        ensures
            r == has_like_id(self.likes@, id@),
    {
        let mut i: usize = 0;
        while i < self.likes.len()
            invariant
                0 <= i <= self.likes@.len(),
                forall|k: int| 0 <= k < i ==> self.likes@[k].id@ != id@,
            decreases self.likes@.len() - i,
        {
            if self.likes[i].id.eq(id) {
                return true;
            }
            i = i + 1;
        }
        false
    }

    /// Whether a comment with the identifier `id` is on this tweet.
    pub fn has_comment(&self, id: &String) -> (r: bool)
        ensures
            r == has_comment_id(self.comments@, id@),
    {
        let mut i: usize = 0;
        while i < self.comments.len()
            invariant
                0 <= i <= self.comments@.len(),
                forall|k: int| 0 <= k < i ==> self.comments@[k].id@ != id@,
            decreases self.comments@.len() - i,
        {
            if self.comments[i].id.eq(id) {
                return true;
            }
            i = i + 1;
        }
        false
    }

    /// Appends a like whose identifier is not yet on the tweet.
    pub fn add_like(&mut self, like: Like)
        requires
            old(self).well_formed(),
            !has_like_id(old(self).likes@, like.id@),
        ensures
            final(self).likes@ == old(self).likes@.push(like),
            final(self).comments@ == old(self).comments@,
            final(self).id == old(self).id,
            final(self).user_id == old(self).user_id,
            final(self).created_at == old(self).created_at,
            final(self).message == old(self).message,
            final(self).well_formed(),
    {
        let ghost before = self.likes@;
        self.likes.push(like);
        assert forall|i: int, j: int| 0 <= i < j < self.likes@.len() implies self.likes@[i].id@
            != self.likes@[j].id@ by {
            if j == before.len() {
                assert(before[i] == self.likes@[i]);
            }
        }
    }

    /// Appends a comment whose identifier is not yet on the tweet.
    pub fn add_comment(&mut self, comment: Comment)
        requires
            old(self).well_formed(),
            !has_comment_id(old(self).comments@, comment.id@),
        ensures
            final(self).comments@ == old(self).comments@.push(comment),
            final(self).likes@ == old(self).likes@,
            final(self).id == old(self).id,
            final(self).user_id == old(self).user_id,
            final(self).created_at == old(self).created_at,
            final(self).message == old(self).message,
            final(self).well_formed(),
    {
        let ghost before = self.comments@;
        self.comments.push(comment);
        assert forall|i: int, j: int| 0 <= i < j < self.comments@.len() implies self.comments@[i].id@
            != self.comments@[j].id@ by {
            if j == before.len() {
                assert(before[i] == self.comments@[i]);
            }
        }
    }
    /// Takes out the like with the identifier `id`, compared in canonical
    /// form; where no like has it, nothing changes. Fails with `BadRequest`,
    /// changing nothing, where `id` is no identifier.
    pub fn remove_like(&mut self, id: &str) -> (r: Result<(), TweetError>)
        requires
            old(self).well_formed(),
        ensures
            r is Ok <==> is_object_id_text(id@),
            r matches Err(e) ==> e is BadRequest,
            r is Ok ==> final(self).likes@ == likes_without(old(self).likes@, canonical_id(id@)),
            r is Err ==> final(self).likes@ == old(self).likes@,
            final(self).comments@ == old(self).comments@,
            final(self).id == old(self).id,
            final(self).user_id == old(self).user_id,
            final(self).created_at == old(self).created_at,
            final(self).message == old(self).message,
            final(self).well_formed(),
    {
        let target = match parse_object_id(id) {
            Some(t) => t,
            None => {
                return Err(TweetError::BadRequest(String::from_str("Invalid like id provided")));
            },
        };
        let mut kept: Vec<Like> = Vec::new();
        let mut i: usize = 0;
        while i < self.likes.len()
            invariant
                0 <= i <= self.likes@.len(),
                like_ids_distinct(self.likes@),
                kept@ == likes_without(self.likes@.subrange(0, i as int), target@),
                like_ids_distinct(kept@),
                forall|k: int|
                    0 <= k < kept@.len() ==> exists|m: int|
                        0 <= m < i && #[trigger] kept@[k] == self.likes@[m],
            decreases self.likes@.len() - i,
        {
            let ghost before = kept@;
            proof {
                let s = self.likes@.subrange(0, i + 1);
                assert(s.drop_last() =~= self.likes@.subrange(0, i as int));
                reveal(Seq::filter);
            }
            if !self.likes[i].id.eq(&target) {
                let l = self.likes[i].duplicate();
                kept.push(l);
                assert forall|a: int, b: int| 0 <= a < b < kept@.len() implies kept@[a].id@
                    != kept@[b].id@ by {
                    if b == before.len() {
                        assert(kept@[a] == before[a]);
                        let m = choose|m: int| 0 <= m < i && #[trigger] before[a] == self.likes@[m];
                        assert(self.likes@[m].id@ != self.likes@[i as int].id@);
                    }
                }
                assert forall|k: int| 0 <= k < kept@.len() implies exists|m: int|
                    0 <= m < i + 1 && #[trigger] kept@[k] == self.likes@[m] by {
                    if k < before.len() {
                        assert(kept@[k] == before[k]);
                        let m = choose|m: int| 0 <= m < i && #[trigger] before[k] == self.likes@[m];
                        assert(kept@[k] == self.likes@[m]);
                    } else {
                        assert(kept@[k] == self.likes@[i as int]);
                    }
                }
            }
            i = i + 1;
        }
        assert(self.likes@.subrange(0, self.likes@.len() as int) =~= self.likes@);
        self.likes = kept;
        Ok(())
    }

    /// Takes out the comment with the identifier `id`, compared in canonical
    /// form; where no comment has it, nothing changes. Fails with
    /// `BadRequest`, changing nothing, where `id` is no identifier.
    pub fn remove_comment(&mut self, id: &str) -> (r: Result<(), TweetError>)
        requires
            old(self).well_formed(),
        ensures
            r is Ok <==> is_object_id_text(id@),
            r matches Err(e) ==> e is BadRequest,
            r is Ok ==> final(self).comments@ == comments_without(old(self).comments@, canonical_id(id@)),
            r is Err ==> final(self).comments@ == old(self).comments@,
            final(self).likes@ == old(self).likes@,
            final(self).id == old(self).id,
            final(self).user_id == old(self).user_id,
            final(self).created_at == old(self).created_at,
            final(self).message == old(self).message,
            final(self).well_formed(),
    {
        let target = match parse_object_id(id) {
            Some(t) => t,
            None => {
                return Err(TweetError::BadRequest(String::from_str("Invalid comment id provided")));
            },
        };
        let mut kept: Vec<Comment> = Vec::new();
        let mut i: usize = 0;
        while i < self.comments.len()
            invariant
                0 <= i <= self.comments@.len(),
                comment_ids_distinct(self.comments@),
                kept@ == comments_without(self.comments@.subrange(0, i as int), target@),
                comment_ids_distinct(kept@),
                forall|k: int|
                    0 <= k < kept@.len() ==> exists|m: int|
                        0 <= m < i && #[trigger] kept@[k] == self.comments@[m],
            decreases self.comments@.len() - i,
        {
            let ghost before = kept@;
            proof {
                let s = self.comments@.subrange(0, i + 1);
                assert(s.drop_last() =~= self.comments@.subrange(0, i as int));
                reveal(Seq::filter);
            }
            if !self.comments[i].id.eq(&target) {
                let c = self.comments[i].duplicate();
                kept.push(c);
                assert forall|a: int, b: int| 0 <= a < b < kept@.len() implies kept@[a].id@
                    != kept@[b].id@ by {
                    if b == before.len() {
                        assert(kept@[a] == before[a]);
                        let m = choose|m: int| 0 <= m < i && #[trigger] before[a] == self.comments@[m];
                        assert(self.comments@[m].id@ != self.comments@[i as int].id@);
                    }
                }
                assert forall|k: int| 0 <= k < kept@.len() implies exists|m: int|
                    0 <= m < i + 1 && #[trigger] kept@[k] == self.comments@[m] by {
                    if k < before.len() {
                        assert(kept@[k] == before[k]);
                        let m = choose|m: int| 0 <= m < i && #[trigger] before[k] == self.comments@[m];
                        assert(kept@[k] == self.comments@[m]);
                    } else {
                        assert(kept@[k] == self.comments@[i as int]);
                    }
                }
            }
            i = i + 1;
        }
        assert(self.comments@.subrange(0, self.comments@.len() as int) =~= self.comments@);
        self.comments = kept;
        Ok(())
    }
    /// Whether likes and comments are each identified uniquely, as
    /// `well_formed` states; a document read back from a store is checked
    /// with this before it is mutated.
    pub fn is_well_formed(&self) -> (r: bool)
        ensures
            r == self.well_formed(),
    {
        let n = self.likes.len();
        let mut i: usize = 0;
        while i < n
            invariant
                n == self.likes@.len(),
                0 <= i <= n,
                forall|a: int, b: int| 0 <= a < b < n && a < i ==> self.likes@[a].id@ != self.likes@[b].id@,
            decreases n - i,
        {
            let mut j: usize = i + 1;
            while j < n
                invariant
                    n == self.likes@.len(),
                    0 <= i < n,
                    i + 1 <= j <= n,
                    forall|a: int, b: int| 0 <= a < b < n && a < i ==> self.likes@[a].id@ != self.likes@[b].id@,
                    forall|b: int| i < b < j ==> self.likes@[i as int].id@ != self.likes@[b].id@,
                decreases n - j,
            {
                if self.likes[i].id.eq(&self.likes[j].id) {
                    return false;
                }
                j = j + 1;
            }
            i = i + 1;
        }
        let n = self.comments.len();
        let mut i: usize = 0;
        while i < n
            invariant
                n == self.comments@.len(),
                0 <= i <= n,
                like_ids_distinct(self.likes@),
                forall|a: int, b: int| 0 <= a < b < n && a < i ==> self.comments@[a].id@ != self.comments@[b].id@,
            decreases n - i,
        {
            let mut j: usize = i + 1;
            while j < n
                invariant
                    n == self.comments@.len(),
                    0 <= i < n,
                    i + 1 <= j <= n,
                    forall|a: int, b: int| 0 <= a < b < n && a < i ==> self.comments@[a].id@ != self.comments@[b].id@,
                    forall|b: int| i < b < j ==> self.comments@[i as int].id@ != self.comments@[b].id@,
                decreases n - j,
            {
                if self.comments[i].id.eq(&self.comments[j].id) {
                    return false;
                }
                j = j + 1;
            }
            i = i + 1;
        }
        true
    }
}

/// Taking out a like whose identifier no like of the tweet has leaves the
/// likes as they were: removal is idempotent.
pub proof fn lemma_remove_absent_like_is_noop(likes: Seq<Like>, id: Seq<char>)
    requires
        !has_like_id(likes, id),
    ensures
        likes_without(likes, id) == likes,
    decreases likes.len(),
{
    reveal(Seq::filter);
    if likes.len() > 0 {
        let rest = likes.drop_last();
        assert(!has_like_id(rest, id)) by {
            if has_like_id(rest, id) {
                let i = choose|i: int| 0 <= i < rest.len() && (#[trigger] rest[i]).id@ == id;
                assert(likes[i] == rest[i]);
            }
        }
        lemma_remove_absent_like_is_noop(rest, id);
        assert(likes[likes.len() - 1] == likes.last());
        assert(rest.push(likes.last()) =~= likes);
    }
}

/// Removing a like twice leaves what removing it once left.
pub proof fn lemma_remove_like_twice(likes: Seq<Like>, id: Seq<char>)
    ensures
        likes_without(likes_without(likes, id), id) == likes_without(likes, id),
{
    let once = likes_without(likes, id);
    assert(!has_like_id(once, id)) by {
        if has_like_id(once, id) {
            let i = choose|i: int| 0 <= i < once.len() && (#[trigger] once[i]).id@ == id;
            likes.lemma_filter_pred(|l: Like| l.id@ != id, i);
        }
    }
    lemma_remove_absent_like_is_noop(once, id);
}

/// Two comments appended one after the other, each accepted because its
/// identifier was new, stand at the end in the order they came, with
/// distinct identifiers.
pub proof fn lemma_two_comments_in_order(comments: Seq<Comment>, first: Comment, second: Comment)
    requires
        comment_ids_distinct(comments),
        !has_comment_id(comments, first.id@),
        !has_comment_id(comments.push(first), second.id@),
    ensures
        comment_ids_distinct(comments.push(first).push(second)),
        comments.push(first).push(second).len() == comments.len() + 2,
        comments.push(first).push(second)[comments.len() as int] == first,
        comments.push(first).push(second)[comments.len() + 1int] == second,
        first.id@ != second.id@,
{
    let one = comments.push(first);
    let two = one.push(second);
    assert(one[comments.len() as int] == first);
    assert forall|i: int, j: int| 0 <= i < j < two.len() implies two[i].id@ != two[j].id@ by {
        if j == comments.len() {
            assert(two[i] == comments[i]);
        } else if j == comments.len() + 1 {
            assert(two[i] == one[i]);
        } else {
            assert(two[i] == comments[i] && two[j] == comments[j]);
        }
    }
}

} // verus!
