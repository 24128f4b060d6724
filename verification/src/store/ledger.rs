//! The engagement ledger: like edges, and the counter on posts that
//! summarises them. A (user, post) pair is either liked or not; `like` and
//! `unlike` are the only moves between the two.

use vstd::prelude::*;
use crate::counting::lemma_count_positive;
use crate::counting::lemma_count_push;
use crate::counting::lemma_count_remove;
use crate::error::ServiceError;
use crate::models::Like;
use crate::models::Tweet;
use crate::store::graph::floor_dec;
use crate::store::lemma_edge_index;
use crate::store::lemma_tweet_index;
use crate::store::likes_on;
use crate::store::State;
use crate::store::Store;

verus! {

/// A post row after a like on post `tweet_id` was inserted.
pub open spec fn liked(t: Tweet, tweet_id: u128) -> Tweet {
    if t.id == tweet_id {
        Tweet { likes_count: (t.likes_count + 1) as i32, ..t }
    } else {
        t
    }
}

/// A post row after a like on post `tweet_id` was deleted.
pub open spec fn unliked(t: Tweet, tweet_id: u128) -> Tweet {
    if t.id == tweet_id {
        Tweet { likes_count: floor_dec(t.likes_count), ..t }
    } else {
        t
    }
}

impl State {
    /// What `like` answers: the edge must be new, both ends must exist, and
    /// the store must be able to record it.
    pub open spec fn like_outcome(self, user: u128, tweet: u128) -> Result<(), ServiceError> {
        if self.is_liked(user, tweet) {
            Err(ServiceError::AlreadyLiked)
        } else if !self.has_tweet(tweet) {
            Err(ServiceError::TweetNotFound)
        } else if !self.has_user(user) {
            Err(ServiceError::UserNotFound)
        } else if self.next_id == u128::MAX {
            Err(ServiceError::IdsExhausted)
        } else if self.tweet_by_id(tweet).unwrap().likes_count == i32::MAX {
            Err(ServiceError::CounterOverflow)
        } else {
            Ok(())
        }
    }

    /// The state after the like of `user` on `tweet` was inserted at `now`.
    pub open spec fn after_like(self, user: u128, tweet: u128, now: i64) -> State {
        State {
            tweets: Seq::new(self.tweets.len(), |i: int| liked(self.tweets[i], tweet)),
            likes: self.likes.push(
                Like { id: self.next_id, user_id: user, tweet_id: tweet, created_at: now },
            ),
            next_id: (self.next_id + 1) as u128,
            ..self
        }
    }

    /// What `unlike` answers: the edge must be recorded.
    pub open spec fn unlike_outcome(self, user: u128, tweet: u128) -> Result<(), ServiceError> {
        if !self.is_liked(user, tweet) {
            Err(ServiceError::LikeNotFound)
        } else {
            Ok(())
        }
    }

    /// The state after the like of `user` on `tweet` was deleted.
    pub open spec fn after_unlike(self, user: u128, tweet: u128) -> State {
        State {
            tweets: Seq::new(self.tweets.len(), |i: int| unliked(self.tweets[i], tweet)),
            likes: self.likes.remove(self.like_index(user, tweet)),
            ..self
        }
    }

    /// Whether two states hold the same posts but for their like counters.
    pub open spec fn same_posts(self, other: State) -> bool {
        &&& self.tweets.len() == other.tweets.len()
        &&& forall|i: int|
            0 <= i < self.tweets.len() ==> (#[trigger] self.tweets[i]) == (Tweet {
                likes_count: self.tweets[i].likes_count,
                ..(#[trigger] other.tweets[i])
            })
    }
}

/// Posts that keep their identifiers stay findable.
pub proof fn lemma_same_posts(s: State, t: State)
    requires
        s.same_posts(t),
    ensures
        forall|id: u128| s.has_tweet(id) <==> t.has_tweet(id),
{
    assert forall|id: u128| s.has_tweet(id) <==> t.has_tweet(id) by {
        if s.has_tweet(id) {
            let k = s.tweet_index(id);
            assert(t.tweets[k].id == id);
        }
        if t.has_tweet(id) {
            let k = t.tweet_index(id);
            assert(s.tweets[k].id == id);
        }
    }
}

/// Inserting a new like, with the post's counter raised, keeps the store's
/// invariant.
pub proof fn lemma_like_keeps_wf(s: State, user: u128, tweet: u128, now: i64)
    requires
        s.wf(),
        s.has_user(user),
        s.has_tweet(tweet),
        !s.is_liked(user, tweet),
        s.next_id < u128::MAX,
        s.tweet_by_id(tweet).unwrap().likes_count < i32::MAX,
    ensures
        s.after_like(user, tweet, now).wf(),
{
    let t = s.after_like(user, tweet, now);
    let edge = Like { id: s.next_id, user_id: user, tweet_id: tweet, created_at: now };
    assert(s.same_posts(t));
    lemma_same_posts(s, t);
    assert(t.likes_wf()) by {
        assert forall|i: int, j: int| 0 <= i < j < t.likes.len() implies !({
            &&& (#[trigger] t.likes[i]).user_id == (#[trigger] t.likes[j]).user_id
            &&& t.likes[i].tweet_id == t.likes[j].tweet_id
        }) by {
            if j == s.likes.len() {
                assert(t.likes[i] == s.likes[i]);
            } else {
                assert(t.likes[i] == s.likes[i] && t.likes[j] == s.likes[j]);
            }
        }
        assert forall|i: int| 0 <= i < t.likes.len() implies {
            &&& (#[trigger] t.likes[i]).id < t.next_id
            &&& t.has_user(t.likes[i].user_id)
            &&& t.has_tweet(t.likes[i].tweet_id)
        } by {
            if i < s.likes.len() {
                assert(t.likes[i] == s.likes[i]);
            }
        }
    }
    assert(t.counters_wf()) by {
        assert forall|i: int| 0 <= i < t.tweets.len() implies (#[trigger] t.tweets[i]).likes_count
            == t.likes_of(t.tweets[i].id) by {
            lemma_tweet_index(s, i);
            lemma_count_push(s.likes, likes_on(s.tweets[i].id), edge);
        }
    }
}

/// Deleting a recorded like, with the post's counter lowered, keeps the
/// store's invariant; the floor of the counter is never reached.
pub proof fn lemma_unlike_keeps_wf(s: State, user: u128, tweet: u128)
    requires
        s.wf(),
        s.is_liked(user, tweet),
    ensures
        s.after_unlike(user, tweet).wf(),
        s.has_user(user),
        s.has_tweet(tweet),
        s.tweet_by_id(tweet).unwrap().likes_count >= 1,
{
    let t = s.after_unlike(user, tweet);
    let k = s.like_index(user, tweet);
    assert(s.same_posts(t));
    lemma_same_posts(s, t);
    lemma_tweet_index(s, s.tweet_index(tweet));
    lemma_count_positive(s.likes, likes_on(tweet), k);
    assert(t.counters_wf()) by {
        assert forall|i: int| 0 <= i < t.tweets.len() implies (#[trigger] t.tweets[i]).likes_count
            == t.likes_of(t.tweets[i].id) by {
            lemma_tweet_index(s, i);
            lemma_count_remove(s.likes, likes_on(s.tweets[i].id), k);
        }
    }
}

impl Store {
    /// Records that `user_id` likes post `tweet_id`.
    ///
    /// Either the edge is inserted and the post's counter is raised by one, or
    /// the store is left as it was and the answer says why.
    pub fn like(&mut self, user_id: u128, tweet_id: u128, now: i64) -> (r: Result<
        (),
        ServiceError,
    >)
        requires
            old(self).wf(),
        ensures
            final(self).wf(),
            r == old(self)@.like_outcome(user_id, tweet_id),
            r is Ok ==> final(self)@ == old(self)@.after_like(user_id, tweet_id, now),
            r is Err ==> final(self)@ == old(self)@,
    {
        if self.find_like(user_id, tweet_id).is_some() {
            return Err(ServiceError::AlreadyLiked);
        }
        let ti = match self.find_tweet(tweet_id) {
            Some(i) => i,
            None => {
                return Err(ServiceError::TweetNotFound);
            },
        };
        proof {
            lemma_tweet_index(self@, ti as int);
        }
        if self.find_user(user_id).is_none() {
            return Err(ServiceError::UserNotFound);
        }
        if self.next_id == u128::MAX {
            return Err(ServiceError::IdsExhausted);
        }
        if self.tweets[ti].likes_count == i32::MAX {
            return Err(ServiceError::CounterOverflow);
        }
        let edge = Like { id: self.next_id, user_id, tweet_id, created_at: now };
        self.likes.push(edge);
        self.tweets[ti].likes_count = self.tweets[ti].likes_count + 1;
        self.next_id = self.next_id + 1;
        proof {
            let s = old(self)@;
            let t = s.after_like(user_id, tweet_id, now);
            assert(self@.tweets =~= t.tweets) by {
                assert forall|i: int| 0 <= i < s.tweets.len() implies self@.tweets[i]
                    == t.tweets[i] by {
                    lemma_tweet_index(s, i);
                }
            }
            assert(self@ == t);
            lemma_like_keeps_wf(s, user_id, tweet_id, now);
        }
        Ok(())
    }

    /// Deletes the like of `user_id` on post `tweet_id`.
    ///
    /// Either the edge is deleted and the post's counter is lowered by one, or
    /// the store is left as it was and the answer says why.
    pub fn unlike(&mut self, user_id: u128, tweet_id: u128) -> (r: Result<(), ServiceError>)
        requires
            old(self).wf(),
        ensures
            final(self).wf(),
            r == old(self)@.unlike_outcome(user_id, tweet_id),
            r is Ok ==> final(self)@ == old(self)@.after_unlike(user_id, tweet_id),
            r is Err ==> final(self)@ == old(self)@,
    {
        let k = match self.find_like(user_id, tweet_id) {
            Some(k) => k,
            None => {
                return Err(ServiceError::LikeNotFound);
            },
        };
        proof {
            lemma_edge_index(self@, 0, k as int);
            lemma_unlike_keeps_wf(self@, user_id, tweet_id);
        }
        let ti = self.place_of_tweet(tweet_id);
        self.likes.remove(k);
        let c = self.tweets[ti].likes_count;
        self.tweets[ti].likes_count = if c > 0 {
            c - 1
        } else {
            0
        };
        proof {
            let s = old(self)@;
            let t = s.after_unlike(user_id, tweet_id);
            assert(self@.tweets =~= t.tweets) by {
                assert forall|i: int| 0 <= i < s.tweets.len() implies self@.tweets[i]
                    == t.tweets[i] by {
                    lemma_tweet_index(s, i);
                }
            }
            assert(self@ == t);
        }
        Ok(())
    }

    /// Whether `user_id` has an active like on post `tweet_id`.
    pub fn is_liked(&self, user_id: u128, tweet_id: u128) -> (r: bool)
        ensures
            r == self@.is_liked(user_id, tweet_id),
    {
        self.find_like(user_id, tweet_id).is_some()
    }
}

} // verus!
