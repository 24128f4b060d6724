//! The content store: posts, created by their owner and deleted only by
//! their owner. Deleting a post deletes the likes on it.

use vstd::prelude::*;
use crate::counting::filter_pair_witness;
use crate::counting::filter_witness;
use crate::counting::lemma_count_kept;
use crate::counting::lemma_count_none;
use crate::counting::lemma_filter_step;
use crate::error::ServiceError;
use crate::models::Like;
use crate::models::Tweet;
use crate::store::lemma_tweet_index;
use crate::store::lemma_user_index;
use crate::store::likes_on;
use crate::store::State;
use crate::store::Store;
use crate::validation::check_content;
use crate::validation::content_issue;

verus! {

/// The like edges on any post but `tweet_id`.
pub open spec fn likes_off(tweet_id: u128) -> spec_fn(Like) -> bool {
    |l: Like| l.tweet_id != tweet_id
}

/// The posts owned by `user_id`.
pub open spec fn owned_by(user_id: u128) -> spec_fn(Tweet) -> bool {
    |t: Tweet| t.user_id == user_id
}

/// Whether `t` is the row of a post created at `now` under identifier `id`:
/// the given owner, content and image, and every counter at zero.
pub open spec fn fresh_tweet(
    t: Tweet,
    id: u128,
    owner: u128,
    content: Seq<char>,
    image_url: Option<String>,
    now: i64,
) -> bool {
    &&& t.id == id
    &&& t.user_id == owner
    &&& t.content@ == content
    &&& t.image_url == image_url
    &&& t.likes_count == 0
    &&& t.retweets_count == 0
    &&& t.replies_count == 0
    &&& t.created_at == now
}

impl State {
    /// Why a post cannot be created, if so. The content is checked first.
    pub open spec fn create_post_issue(self, owner: u128, content: Seq<char>) -> Option<
        ServiceError,
    > {
        if content_issue(content) is Some {
            content_issue(content)
        } else if !self.has_user(owner) {
            Some(ServiceError::UserNotFound)
        } else if self.next_id == u128::MAX {
            Some(ServiceError::IdsExhausted)
        } else {
            None
        }
    }

    /// The state after the row `t` was inserted under the next identifier.
    pub open spec fn with_tweet(self, t: Tweet) -> State {
        State { tweets: self.tweets.push(t), next_id: (self.next_id + 1) as u128, ..self }
    }

    /// Whether `requester` may delete post `id`: the post exists and is theirs.
    pub open spec fn owns_tweet(self, requester: u128, id: u128) -> bool {
        self.tweet_by_id(id) matches Some(t) && t.user_id == requester
    }

    /// The state after post `id` and the likes on it were deleted.
    pub open spec fn after_delete_post(self, id: u128) -> State {
        State {
            tweets: self.tweets.remove(self.tweet_index(id)),
            likes: self.likes.filter(likes_off(id)),
            ..self
        }
    }

    /// The posts of the user named `username`, in the order they were made;
    /// none where there is no such user.
    pub open spec fn posts_of(self, username: Seq<char>) -> Seq<Tweet> {
        match self.user_by_username(username) {
            Some(u) => self.tweets.filter(owned_by(u.id)),
            None => Seq::empty(),
        }
    }
}

/// Inserting a post of an existing owner, with valid content, the next
/// identifier and counters at zero, keeps the store's invariant.
pub proof fn lemma_create_post_keeps_wf(s: State, t: Tweet)
    requires
        s.wf(),
        s.create_post_issue(t.user_id, t.content@) is None,
        t.id == s.next_id,
        t.likes_count == 0,
        t.retweets_count == 0,
        t.replies_count == 0,
    ensures
        s.with_tweet(t).wf(),
{
    let n = s.with_tweet(t);
    assert forall|id: u128| s.has_tweet(id) implies n.has_tweet(id) by {
        let k = s.tweet_index(id);
        assert(n.tweets[k].id == id);
    }
    assert(n.tweets_wf()) by {
        assert forall|i: int, j: int| 0 <= i < j < n.tweets.len() implies (
        #[trigger] n.tweets[i]).id != (#[trigger] n.tweets[j]).id by {
            assert(n.tweets[i] == s.tweets[i]);
            if j < s.tweets.len() {
                assert(n.tweets[j] == s.tweets[j]);
            }
        }
        assert forall|i: int| 0 <= i < n.tweets.len() implies {
            &&& (#[trigger] n.tweets[i]).id < n.next_id
            &&& n.has_user(n.tweets[i].user_id)
            &&& crate::store::content_len_ok(n.tweets[i].content@.len())
            &&& n.tweets[i].retweets_count == 0
            &&& n.tweets[i].replies_count == 0
        } by {
            if i < s.tweets.len() {
                assert(n.tweets[i] == s.tweets[i]);
            }
        }
    }
    assert(n.counters_wf()) by {
        assert forall|i: int| 0 <= i < n.tweets.len() implies (#[trigger] n.tweets[i]).likes_count
            == n.likes_of(n.tweets[i].id) by {
            if i < s.tweets.len() {
                assert(n.tweets[i] == s.tweets[i]);
            } else {
                assert forall|k: int| 0 <= k < s.likes.len() implies !likes_on(t.id)(
                    #[trigger] s.likes[k],
                ) by {
                    let a = s.tweet_index(s.likes[k].tweet_id);
                    assert(s.tweets[a].id < s.next_id);
                }
                lemma_count_none(s.likes, likes_on(t.id));
            }
        }
    }
}

/// Deleting a post together with the likes on it keeps the store's
/// invariant.
pub proof fn lemma_delete_post_keeps_wf(s: State, id: u128)
    requires
        s.wf(),
        s.has_tweet(id),
    ensures
        s.after_delete_post(id).wf(),
{
    let n = s.after_delete_post(id);
    let k = s.tweet_index(id);
    let keep = likes_off(id);
    assert forall|other: u128| other != id && s.has_tweet(other) implies n.has_tweet(other) by {
        let a = s.tweet_index(other);
        if a < k {
            assert(n.tweets[a].id == other);
        } else {
            assert(n.tweets[a - 1].id == other);
        }
    }
    assert(n.likes_wf()) by {
        assert forall|i: int, j: int| 0 <= i < j < n.likes.len() implies !({
            &&& (#[trigger] n.likes[i]).user_id == (#[trigger] n.likes[j]).user_id
            &&& n.likes[i].tweet_id == n.likes[j].tweet_id
        }) by {
            let w = filter_pair_witness(s.likes, keep, i, j);
            assert(s.likes[w.0] == n.likes[i] && s.likes[w.1] == n.likes[j]);
        }
        assert forall|i: int| 0 <= i < n.likes.len() implies {
            &&& (#[trigger] n.likes[i]).id < n.next_id
            &&& n.has_user(n.likes[i].user_id)
            &&& n.has_tweet(n.likes[i].tweet_id)
        } by {
            let a = filter_witness(s.likes, keep, i);
            assert(s.likes[a] == n.likes[i]);
        }
    }
    assert(n.counters_wf()) by {
        assert forall|i: int| 0 <= i < n.tweets.len() implies (#[trigger] n.tweets[i]).likes_count
            == n.likes_of(n.tweets[i].id) by {
            let a = if i < k {
                i
            } else {
                i + 1
            };
            assert(n.tweets[i] == s.tweets[a]);
            assert(s.tweets[a].id != id) by {
                if a < k {
                    assert(s.tweets[a].id != s.tweets[k].id);
                } else {
                    assert(s.tweets[k].id != s.tweets[a].id);
                }
            }
            lemma_count_kept(s.likes, keep, likes_on(s.tweets[a].id));
        }
    }
}

impl Store {
    /// Creates a post of `owner_id`.
    ///
    /// The content must have 1 to 280 characters and the owner must exist.
    /// The row gets the next identifier and counters at zero.
    pub fn create_post(
        &mut self,
        owner_id: u128,
        content: &str,
        image_url: Option<String>,
        now: i64,
    ) -> (r: Result<Tweet, ServiceError>)
        requires
            old(self).wf(),
        ensures
            final(self).wf(),
            match r {
                Ok(t) => {
                    &&& old(self)@.create_post_issue(owner_id, content@) is None
                    &&& fresh_tweet(t, old(self)@.next_id, owner_id, content@, image_url, now)
                    &&& final(self)@ == old(self)@.with_tweet(t)
                },
                Err(e) => {
                    &&& old(self)@.create_post_issue(owner_id, content@) == Some(e)
                    &&& final(self)@ == old(self)@
                },
            },
    {
        match check_content(content) {
            Err(e) => {
                return Err(e);
            },
            Ok(_) => {},
        }
        if self.find_user(owner_id).is_none() {
            return Err(ServiceError::UserNotFound);
        }
        if self.next_id == u128::MAX {
            return Err(ServiceError::IdsExhausted);
        }
        let tweet = Tweet {
            id: self.next_id,
            user_id: owner_id,
            content: String::from_str(content),
            image_url,
            likes_count: 0,
            retweets_count: 0,
            replies_count: 0,
            created_at: now,
        };
        let stored = tweet.clone();
        self.tweets.push(stored);
        self.next_id = self.next_id + 1;
        proof {
            lemma_create_post_keeps_wf(old(self)@, tweet);
            assert(self@ == old(self)@.with_tweet(tweet));
        }
        Ok(tweet)
    }

    /// Deletes post `id` on behalf of `requester_id`, with the likes on it.
    ///
    /// A post that does not exist and a post owned by someone else give the
    /// same failure, so that the answer does not tell which it was.
    pub fn delete_post(&mut self, id: u128, requester_id: u128) -> (r: Result<(), ServiceError>)
        requires
            old(self).wf(),
        ensures
            final(self).wf(),
            match r {
                Ok(_) => {
                    &&& old(self)@.owns_tweet(requester_id, id)
                    &&& final(self)@ == old(self)@.after_delete_post(id)
                },
                Err(e) => {
                    &&& e == ServiceError::TweetNotFound
                    &&& !old(self)@.owns_tweet(requester_id, id)
                    &&& final(self)@ == old(self)@
                },
            },
    {
        let ti = match self.find_tweet(id) {
            Some(i) => i,
            None => {
                return Err(ServiceError::TweetNotFound);
            },
        };
        proof {
            lemma_tweet_index(self@, ti as int);
        }
        if self.tweets[ti].user_id != requester_id {
            return Err(ServiceError::TweetNotFound);
        }
        let mut kept: Vec<Like> = Vec::new();
        let mut i: usize = 0;
        while i < self.likes.len()
            invariant
                i <= self.likes.len(),
                kept@ == self.likes@.take(i as int).filter(likes_off(id)),
            decreases self.likes.len() - i,
        {
            proof {
                lemma_filter_step(self.likes@, likes_off(id), i as int);
            }
            if self.likes[i].tweet_id != id {
                kept.push(self.likes[i]);
            }
            i = i + 1;
        }
        proof {
            assert(self.likes@.take(i as int) =~= self.likes@);
            lemma_delete_post_keeps_wf(self@, id);
        }
        self.likes = kept;
        self.tweets.remove(ti);
        proof {
            assert(self@ == old(self)@.after_delete_post(id));
        }
        Ok(())
    }

    /// The post with identifier `id`, if there is one.
    pub fn tweet_by_id(&self, id: u128) -> (r: Option<Tweet>)
        requires
            self.wf(),
        ensures
            r == self@.tweet_by_id(id),
    {
        match self.find_tweet(id) {
            Some(i) => {
                proof {
                    lemma_tweet_index(self@, i as int);
                }
                Some(self.tweets[i].clone())
            },
            None => None,
        }
    }

    /// The posts of the user named `username`, in the order they were made.
    pub fn list_by_owner(&self, username: &str) -> (r: Vec<Tweet>)
        requires
            self.wf(),
        ensures
            r@ == self@.posts_of(username@),
    {
        let mut out: Vec<Tweet> = Vec::new();
        let owner = match self.find_username(username) {
            Some(i) => {
                proof {
                    lemma_user_index(self@, i as int);
                }
                self.users[i].id
            },
            None => {
                return out;
            },
        };
        let mut i: usize = 0;
        while i < self.tweets.len()
            invariant
                i <= self.tweets.len(),
                out@ == self.tweets@.take(i as int).filter(owned_by(owner)),
            decreases self.tweets.len() - i,
        {
            proof {
                lemma_filter_step(self.tweets@, owned_by(owner), i as int);
            }
            if self.tweets[i].user_id == owner {
                out.push(self.tweets[i].clone());
            }
            i = i + 1;
        }
        proof {
            assert(self.tweets@.take(i as int) =~= self.tweets@);
        }
        out
    }
}

} // verus!
