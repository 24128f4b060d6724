//! Reconciliation: the counters recomputed from the edge tables, which are
//! the source of truth, and held against the stored ones; and the whole
//! invariant of the store, checked row by row.

use vstd::prelude::*;
use crate::counting::count_where;
use crate::counting::lemma_filter_step;
use crate::store::follows_from;
use crate::store::follows_to;
use crate::store::likes_on;
use crate::store::content_len_ok;
use crate::store::Store;

verus! {

impl Store {
    /// The number of follow edges that point at user `id`.
    pub fn count_followers(&self, id: u128) -> (n: usize)
        ensures
            n == self@.followers_of(id),
    {
        let mut n: usize = 0;
        let mut i: usize = 0;
        while i < self.follows.len()
            invariant
                i <= self.follows.len(),
                n <= i,
                n == count_where(self.follows@.take(i as int), follows_to(id)),
            decreases self.follows.len() - i,
        {
            proof {
                lemma_filter_step(self.follows@, follows_to(id), i as int);
            }
            if self.follows[i].following_id == id {
                n = n + 1;
            }
            i = i + 1;
        }
        proof {
            assert(self.follows@.take(i as int) =~= self.follows@);
        }
        n
    }

    /// The number of follow edges that start at user `id`.
    pub fn count_following(&self, id: u128) -> (n: usize)
        ensures
            n == self@.following_of(id),
    {
        let mut n: usize = 0;
        let mut i: usize = 0;
        while i < self.follows.len()
            invariant
                i <= self.follows.len(),
                n <= i,
                n == count_where(self.follows@.take(i as int), follows_from(id)),
            decreases self.follows.len() - i,
        {
            proof {
                lemma_filter_step(self.follows@, follows_from(id), i as int);
            }
            if self.follows[i].follower_id == id {
                n = n + 1;
            }
            i = i + 1;
        }
        proof {
            assert(self.follows@.take(i as int) =~= self.follows@);
        }
        n
    }

    /// The number of like edges on post `tweet_id`.
    pub fn count_likes(&self, tweet_id: u128) -> (n: usize)
        ensures
            n == self@.likes_of(tweet_id),
    {
        let mut n: usize = 0;
        let mut i: usize = 0;
        while i < self.likes.len()
            invariant
                i <= self.likes.len(),
                n <= i,
                n == count_where(self.likes@.take(i as int), likes_on(tweet_id)),
            decreases self.likes.len() - i,
        {
            proof {
                lemma_filter_step(self.likes@, likes_on(tweet_id), i as int);
            }
            if self.likes[i].tweet_id == tweet_id {
                n = n + 1;
            }
            i = i + 1;
        }
        proof {
            assert(self.likes@.take(i as int) =~= self.likes@);
        }
        n
    }

    /// Whether the user table is in order: identifiers, names and addresses
    /// unique, and every identifier below the next one to hand out.
    pub fn users_in_order(&self) -> (ok: bool)
        ensures
            ok == self@.users_wf(),
    {
        let mut j: usize = 0;
        while j < self.users.len()
            invariant
                j <= self.users.len(),
                forall|a: int, b: int|
                    0 <= a < b < j ==> {
                        &&& (#[trigger] self@.users[a]).id != (#[trigger] self@.users[b]).id
                        &&& self@.users[a].username@ != self@.users[b].username@
                        &&& self@.users[a].email@ != self@.users[b].email@
                    },
                forall|a: int| 0 <= a < j ==> (#[trigger] self@.users[a]).id < self@.next_id,
            decreases self.users.len() - j,
        {
            if self.users[j].id >= self.next_id {
                return false;
            }
            let mut i: usize = 0;
            while i < j
                invariant
                    i <= j < self.users.len(),
                    forall|a: int|
                        0 <= a < i ==> {
                            &&& (#[trigger] self@.users[a]).id != self@.users[j as int].id
                            &&& self@.users[a].username@ != self@.users[j as int].username@
                            &&& self@.users[a].email@ != self@.users[j as int].email@
                        },
                decreases j - i,
            {
                if self.users[i].id == self.users[j].id || self.users[i].username
                    == self.users[j].username || self.users[i].email == self.users[j].email {
                    return false;
                }
                i = i + 1;
            }
            j = j + 1;
        }
        true
    }

    /// Whether the post table is in order: identifiers unique and below the
    /// next one, owners that exist, contents of 1 to 280 characters, and no
    /// retweets or replies.
    pub fn tweets_in_order(&self) -> (ok: bool)
        ensures
            ok == self@.tweets_wf(),
    {
        let mut j: usize = 0;
        while j < self.tweets.len()
            invariant
                j <= self.tweets.len(),
                forall|a: int, b: int|
                    0 <= a < b < j ==> (#[trigger] self@.tweets[a]).id != (
                    #[trigger] self@.tweets[b]).id,
                forall|a: int|
                    0 <= a < j ==> {
                        &&& (#[trigger] self@.tweets[a]).id < self@.next_id
                        &&& self@.has_user(self@.tweets[a].user_id)
                        &&& content_len_ok(self@.tweets[a].content@.len())
                        &&& self@.tweets[a].retweets_count == 0
                        &&& self@.tweets[a].replies_count == 0
                    },
            decreases self.tweets.len() - j,
        {
            let n = self.tweets[j].content.as_str().unicode_len();
            if self.tweets[j].id >= self.next_id || self.find_user(self.tweets[j].user_id).is_none()
                || n < 1 || n > 280 || self.tweets[j].retweets_count != 0
                || self.tweets[j].replies_count != 0 {
                return false;
            }
            let mut i: usize = 0;
            while i < j
                invariant
                    i <= j < self.tweets.len(),
                    forall|a: int|
                        0 <= a < i ==> (#[trigger] self@.tweets[a]).id != self@.tweets[j as int].id,
                decreases j - i,
            {
                if self.tweets[i].id == self.tweets[j].id {
                    return false;
                }
                i = i + 1;
            }
            j = j + 1;
        }
        true
    }

    /// Whether the follow table is in order: at most one edge per ordered
    /// pair, none from a user to itself, both ends stored, and every
    /// identifier below the next one.
    pub fn follows_in_order(&self) -> (ok: bool)
        ensures
            ok == self@.follows_wf(),
    {
        let mut j: usize = 0;
        while j < self.follows.len()
            invariant
                j <= self.follows.len(),
                forall|a: int, b: int|
                    0 <= a < b < j ==> !({
                        &&& (#[trigger] self@.follows[a]).follower_id == (
                        #[trigger] self@.follows[b]).follower_id
                        &&& self@.follows[a].following_id == self@.follows[b].following_id
                    }),
                forall|a: int|
                    0 <= a < j ==> {
                        &&& (#[trigger] self@.follows[a]).follower_id
                            != self@.follows[a].following_id
                        &&& self@.follows[a].id < self@.next_id
                        &&& self@.has_user(self@.follows[a].follower_id)
                        &&& self@.has_user(self@.follows[a].following_id)
                    },
            decreases self.follows.len() - j,
        {
            let edge = self.follows[j];
            assert(self@.follows[j as int] == edge);
            if edge.follower_id == edge.following_id || edge.id >= self.next_id || self.find_user(
                edge.follower_id,
            ).is_none() || self.find_user(edge.following_id).is_none() {
                return false;
            }
            let mut i: usize = 0;
            while i < j
                invariant
                    i <= j < self.follows.len(),
                    edge == self@.follows[j as int],
                    forall|a: int|
                        0 <= a < i ==> !({
                            &&& (#[trigger] self@.follows[a]).follower_id == edge.follower_id
                            &&& self@.follows[a].following_id == edge.following_id
                        }),
                decreases j - i,
            {
                if self.follows[i].follower_id == edge.follower_id && self.follows[i].following_id
                    == edge.following_id {
                    return false;
                }
                i = i + 1;
            }
            j = j + 1;
        }
        true
    }

    /// Whether the like table is in order: at most one edge per pair of user
    /// and post, both ends stored, and every identifier below the next one.
    pub fn likes_in_order(&self) -> (ok: bool)
        ensures
            ok == self@.likes_wf(),
    {
        let mut j: usize = 0;
        while j < self.likes.len()
            invariant
                j <= self.likes.len(),
                forall|a: int, b: int|
                    0 <= a < b < j ==> !({
                        &&& (#[trigger] self@.likes[a]).user_id == (
                        #[trigger] self@.likes[b]).user_id
                        &&& self@.likes[a].tweet_id == self@.likes[b].tweet_id
                    }),
                forall|a: int|
                    0 <= a < j ==> {
                        &&& (#[trigger] self@.likes[a]).id < self@.next_id
                        &&& self@.has_user(self@.likes[a].user_id)
                        &&& self@.has_tweet(self@.likes[a].tweet_id)
                    },
            decreases self.likes.len() - j,
        {
            let edge = self.likes[j];
            assert(self@.likes[j as int] == edge);
            if edge.id >= self.next_id || self.find_user(edge.user_id).is_none() || self.find_tweet(
                edge.tweet_id,
            ).is_none() {
                return false;
            }
            let mut i: usize = 0;
            while i < j
                invariant
                    i <= j < self.likes.len(),
                    edge == self@.likes[j as int],
                    forall|a: int|
                        0 <= a < i ==> !({
                            &&& (#[trigger] self@.likes[a]).user_id == edge.user_id
                            &&& self@.likes[a].tweet_id == edge.tweet_id
                        }),
                decreases j - i,
            {
                if self.likes[i].user_id == edge.user_id && self.likes[i].tweet_id == edge.tweet_id {
                    return false;
                }
                i = i + 1;
            }
            j = j + 1;
        }
        true
    }

    /// Whether the store satisfies its invariant, checked row by row.
    pub fn audit(&self) -> (ok: bool)
        ensures
            ok == self.wf(),
    {
        self.users_in_order() && self.tweets_in_order() && self.follows_in_order()
            && self.likes_in_order() && self.counters_reconcile()
    }

    /// Whether every stored counter equals the number of edges it
    /// summarises, recounted from the edge tables.
    pub fn counters_reconcile(&self) -> (ok: bool)
        ensures
            ok == self@.counters_wf(),
    {
        let mut i: usize = 0;
        while i < self.users.len()
            invariant
                i <= self.users.len(),
                forall|j: int|
                    0 <= j < i ==> {
                        &&& (#[trigger] self@.users[j]).followers_count == self@.followers_of(
                            self@.users[j].id,
                        )
                        &&& self@.users[j].following_count == self@.following_of(
                            self@.users[j].id,
                        )
                    },
            decreases self.users.len() - i,
        {
            let id = self.users[i].id;
            if !same_count(self.users[i].followers_count, self.count_followers(id)) || !same_count(
                self.users[i].following_count,
                self.count_following(id),
            ) {
                return false;
            }
            i = i + 1;
        }
        let mut k: usize = 0;
        while k < self.tweets.len()
            invariant
                k <= self.tweets.len(),
                forall|j: int|
                    0 <= j < self@.users.len() ==> {
                        &&& (#[trigger] self@.users[j]).followers_count == self@.followers_of(
                            self@.users[j].id,
                        )
                        &&& self@.users[j].following_count == self@.following_of(
                            self@.users[j].id,
                        )
                    },
                forall|j: int|
                    0 <= j < k ==> (#[trigger] self@.tweets[j]).likes_count == self@.likes_of(
                        self@.tweets[j].id,
                    ),
            decreases self.tweets.len() - k,
        {
            if !same_count(self.tweets[k].likes_count, self.count_likes(self.tweets[k].id)) {
                return false;
            }
            k = k + 1;
        }
        true
    }
}

/// Whether a stored counter equals a count.
pub fn same_count(counter: i32, count: usize) -> (same: bool)
    ensures
        same == (counter == count),
{
    counter >= 0 && count <= 0x7fff_ffff && counter as usize == count
}

} // verus!
