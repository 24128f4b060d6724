//! The store: four tables and the rule that keeps the counters on users and
//! posts equal to the number of edges they summarise.
//!
//! `State` is the mathematical content of a `Store`. Every operation of the
//! components is stated as a function from one `State` to the next.
//!
//! The store hands out identifiers itself, one after the other. Instants
//! come from the caller, on whatever clock the caller keeps; the store only
//! compares them. An operation takes the store by `&mut`, so that one
//! operation at a time changes it, and either commits in full or leaves the
//! store as it found it.

use vstd::prelude::*;
use crate::counting::count_where;
use crate::error::ServiceError;
use crate::models::Follow;
use crate::models::Like;
use crate::models::Tweet;
use crate::models::User;

pub mod audit;
pub mod content;
pub mod graph;
pub mod identity;
pub mod ledger;
pub mod timeline;

verus! {

/// The content of a store: its rows in the order they were inserted, and the
/// next identifier it will hand out.
#[verifier::ext_equal]
pub struct State {
    pub users: Seq<User>,
    pub tweets: Seq<Tweet>,
    pub likes: Seq<Like>,
    pub follows: Seq<Follow>,
    pub next_id: u128,
}

/// The follow edges that point at `id`.
pub open spec fn follows_to(id: u128) -> spec_fn(Follow) -> bool {
    |f: Follow| f.following_id == id
}

/// The follow edges that start at `id`.
pub open spec fn follows_from(id: u128) -> spec_fn(Follow) -> bool {
    |f: Follow| f.follower_id == id
}

/// The like edges on post `tweet_id`.
pub open spec fn likes_on(tweet_id: u128) -> spec_fn(Like) -> bool {
    |l: Like| l.tweet_id == tweet_id
}

/// The state an action without a result leaves: `after` where it went
/// well, the state it found otherwise.
pub open spec fn moved(outcome: Result<(), ServiceError>, before: State, after: State) -> State {
    if outcome is Ok {
        after
    } else {
        before
    }
}

/// Whether a post may hold `len` characters.
pub open spec fn content_len_ok(len: nat) -> bool {
    1 <= len <= 280
}

impl State {
    /// The state of a fresh store whose first identifier is `first_id`.
    pub open spec fn empty(first_id: u128) -> State {
        State {
            users: Seq::empty(),
            tweets: Seq::empty(),
            likes: Seq::empty(),
            follows: Seq::empty(),
            next_id: first_id,
        }
    }

    /// Whether a user with identifier `id` is stored.
    pub open spec fn has_user(self, id: u128) -> bool {
        exists|i: int| 0 <= i < self.users.len() && (#[trigger] self.users[i]).id == id
    }

    /// Whether a user named `name` is stored.
    pub open spec fn has_username(self, name: Seq<char>) -> bool {
        exists|i: int| 0 <= i < self.users.len() && (#[trigger] self.users[i]).username@ == name
    }

    /// Whether a user with the address `email` is stored.
    pub open spec fn has_email(self, email: Seq<char>) -> bool {
        exists|i: int| 0 <= i < self.users.len() && (#[trigger] self.users[i]).email@ == email
    }

    /// Whether a post with identifier `id` is stored.
    pub open spec fn has_tweet(self, id: u128) -> bool {
        exists|i: int| 0 <= i < self.tweets.len() && (#[trigger] self.tweets[i]).id == id
    }

    /// Whether the edge `follower -> target` is recorded.
    pub open spec fn is_following(self, follower: u128, target: u128) -> bool {
        exists|i: int|
            0 <= i < self.follows.len() && (#[trigger] self.follows[i]).follower_id == follower
                && self.follows[i].following_id == target
    }

    /// Whether `user` has an active like on `tweet`.
    pub open spec fn is_liked(self, user: u128, tweet: u128) -> bool {
        exists|i: int|
            0 <= i < self.likes.len() && (#[trigger] self.likes[i]).user_id == user
                && self.likes[i].tweet_id == tweet
    }

    /// A place in the user table where identifier `id` stands, if it
    /// stands anywhere.
    pub open spec fn user_index(self, id: u128) -> int {
        choose|i: int| 0 <= i < self.users.len() && (#[trigger] self.users[i]).id == id
    }

    /// A place in the user table where the name `name` stands, if it
    /// stands anywhere.
    pub open spec fn username_index(self, name: Seq<char>) -> int {
        choose|i: int| 0 <= i < self.users.len() && (#[trigger] self.users[i]).username@ == name
    }

    /// A place in the user table where the address `email` stands, if it
    /// stands anywhere.
    pub open spec fn email_index(self, email: Seq<char>) -> int {
        choose|i: int| 0 <= i < self.users.len() && (#[trigger] self.users[i]).email@ == email
    }

    /// A place in the post table where identifier `id` stands, if it
    /// stands anywhere.
    pub open spec fn tweet_index(self, id: u128) -> int {
        choose|i: int| 0 <= i < self.tweets.len() && (#[trigger] self.tweets[i]).id == id
    }

    /// A place in the follow table where the edge `follower -> target`
    /// stands, if it stands anywhere.
    pub open spec fn follow_index(self, follower: u128, target: u128) -> int {
        choose|i: int|
            0 <= i < self.follows.len() && (#[trigger] self.follows[i]).follower_id == follower
                && self.follows[i].following_id == target
    }

    /// A place in the like table where the like of `user` on `tweet`
    /// stands, if it stands anywhere.
    pub open spec fn like_index(self, user: u128, tweet: u128) -> int {
        choose|i: int|
            0 <= i < self.likes.len() && (#[trigger] self.likes[i]).user_id == user
                && self.likes[i].tweet_id == tweet
    }

    /// The user with identifier `id`, if there is one.
    pub open spec fn user_by_id(self, id: u128) -> Option<User> {
        if self.has_user(id) {
            Some(self.users[self.user_index(id)])
        } else {
            None
        }
    }

    /// The user named `name`, if there is one.
    pub open spec fn user_by_username(self, name: Seq<char>) -> Option<User> {
        if self.has_username(name) {
            Some(self.users[self.username_index(name)])
        } else {
            None
        }
    }

    /// The user whose address is `email`, if there is one.
    pub open spec fn user_by_email(self, email: Seq<char>) -> Option<User> {
        if self.has_email(email) {
            Some(self.users[self.email_index(email)])
        } else {
            None
        }
    }

    /// The post with identifier `id`, if there is one.
    pub open spec fn tweet_by_id(self, id: u128) -> Option<Tweet> {
        if self.has_tweet(id) {
            Some(self.tweets[self.tweet_index(id)])
        } else {
            None
        }
    }

    /// The number of follow edges whose target is `id`.
    pub open spec fn followers_of(self, id: u128) -> nat {
        count_where(self.follows, follows_to(id))
    }

    /// The number of follow edges whose source is `id`.
    pub open spec fn following_of(self, id: u128) -> nat {
        count_where(self.follows, follows_from(id))
    }

    /// The number of like edges on post `tweet_id`.
    pub open spec fn likes_of(self, tweet_id: u128) -> nat {
        count_where(self.likes, likes_on(tweet_id))
    }

    /// Identifiers, names and addresses of users are unique, and every
    /// identifier in use lies below the next one to hand out.
    pub open spec fn users_wf(self) -> bool {
        &&& forall|i: int, j: int|
            0 <= i < j < self.users.len() ==> {
                &&& (#[trigger] self.users[i]).id != (#[trigger] self.users[j]).id
                &&& self.users[i].username@ != self.users[j].username@
                &&& self.users[i].email@ != self.users[j].email@
            }
        &&& forall|i: int| 0 <= i < self.users.len() ==> (#[trigger] self.users[i]).id < self.next_id
    }

    /// Posts have unique identifiers, an owner that exists, a content of
    /// 1 to 280 characters, and no retweets or replies.
    pub open spec fn tweets_wf(self) -> bool {
        &&& forall|i: int, j: int|
            0 <= i < j < self.tweets.len() ==> (#[trigger] self.tweets[i]).id != (
            #[trigger] self.tweets[j]).id
        &&& forall|i: int|
            0 <= i < self.tweets.len() ==> {
                &&& (#[trigger] self.tweets[i]).id < self.next_id
                &&& self.has_user(self.tweets[i].user_id)
                &&& content_len_ok(self.tweets[i].content@.len())
                &&& self.tweets[i].retweets_count == 0
                &&& self.tweets[i].replies_count == 0
            }
    }

    /// At most one edge per ordered pair, no edge from a user to itself, and
    /// both ends exist.
    pub open spec fn follows_wf(self) -> bool {
        &&& forall|i: int, j: int|
            0 <= i < j < self.follows.len() ==> !({
                &&& (#[trigger] self.follows[i]).follower_id == (
                #[trigger] self.follows[j]).follower_id
                &&& self.follows[i].following_id == self.follows[j].following_id
            })
        &&& forall|i: int|
            0 <= i < self.follows.len() ==> {
                &&& (#[trigger] self.follows[i]).follower_id != self.follows[i].following_id
                &&& self.follows[i].id < self.next_id
                &&& self.has_user(self.follows[i].follower_id)
                &&& self.has_user(self.follows[i].following_id)
            }
    }

    /// At most one edge per (user, post) pair, and both ends exist.
    pub open spec fn likes_wf(self) -> bool {
        &&& forall|i: int, j: int|
            0 <= i < j < self.likes.len() ==> !({
                &&& (#[trigger] self.likes[i]).user_id == (#[trigger] self.likes[j]).user_id
                &&& self.likes[i].tweet_id == self.likes[j].tweet_id
            })
        &&& forall|i: int|
            0 <= i < self.likes.len() ==> {
                &&& (#[trigger] self.likes[i]).id < self.next_id
                &&& self.has_user(self.likes[i].user_id)
                &&& self.has_tweet(self.likes[i].tweet_id)
            }
    }

    /// Every counter equals the number of edges it summarises.
    pub open spec fn counters_wf(self) -> bool {
        &&& forall|i: int|
            0 <= i < self.users.len() ==> {
                &&& (#[trigger] self.users[i]).followers_count == self.followers_of(
                    self.users[i].id,
                )
                &&& self.users[i].following_count == self.following_of(self.users[i].id)
            }
        &&& forall|i: int|
            0 <= i < self.tweets.len() ==> (#[trigger] self.tweets[i]).likes_count
                == self.likes_of(self.tweets[i].id)
    }

    /// The invariant of the store.
    pub open spec fn wf(self) -> bool {
        &&& self.users_wf()
        &&& self.tweets_wf()
        &&& self.follows_wf()
        &&& self.likes_wf()
        &&& self.counters_wf()
    }
}

/// In a well-formed state a user is found at one index only.
pub proof fn lemma_user_index(s: State, i: int)
    requires
        s.users_wf(),
        0 <= i < s.users.len(),
    ensures
        s.has_user(s.users[i].id),
        s.user_index(s.users[i].id) == i,
        s.has_username(s.users[i].username@),
        s.username_index(s.users[i].username@) == i,
        s.has_email(s.users[i].email@),
        s.email_index(s.users[i].email@) == i,
{
    let a = s.user_index(s.users[i].id);
    assert(a == i) by {
        if a < i {
            assert(s.users[a].id != s.users[i].id);
        } else if i < a {
            assert(s.users[i].id != s.users[a].id);
        }
    }
    let b = s.username_index(s.users[i].username@);
    assert(b == i) by {
        if b < i {
            assert(s.users[b].username@ != s.users[i].username@);
        } else if i < b {
            assert(s.users[i].username@ != s.users[b].username@);
        }
    }
    let c = s.email_index(s.users[i].email@);
    assert(c == i) by {
        if c < i {
            assert(s.users[c].email@ != s.users[i].email@);
        } else if i < c {
            assert(s.users[i].email@ != s.users[c].email@);
        }
    }
}

/// In a well-formed state a post is found at one index only.
pub proof fn lemma_tweet_index(s: State, i: int)
    requires
        s.tweets_wf(),
        0 <= i < s.tweets.len(),
    ensures
        s.has_tweet(s.tweets[i].id),
        s.tweet_index(s.tweets[i].id) == i,
{
    let a = s.tweet_index(s.tweets[i].id);
    assert(a == i) by {
        if a < i {
            assert(s.tweets[a].id != s.tweets[i].id);
        } else if i < a {
            assert(s.tweets[i].id != s.tweets[a].id);
        }
    }
}

/// In a well-formed state an edge is found at one index only.
pub proof fn lemma_edge_index(s: State, i: int, j: int)
    requires
        s.follows_wf(),
        s.likes_wf(),
    ensures
        0 <= i < s.follows.len() ==> s.is_following(
            s.follows[i].follower_id,
            s.follows[i].following_id,
        ) && s.follow_index(s.follows[i].follower_id, s.follows[i].following_id) == i,
        0 <= j < s.likes.len() ==> s.is_liked(s.likes[j].user_id, s.likes[j].tweet_id)
            && s.like_index(s.likes[j].user_id, s.likes[j].tweet_id) == j,
{
    if 0 <= i < s.follows.len() {
        let f = s.follows[i];
        let a = s.follow_index(f.follower_id, f.following_id);
        assert(a == i) by {
            if a < i {
                assert(s.follows[a].follower_id == s.follows[i].follower_id);
            } else if i < a {
                assert(s.follows[i].follower_id == s.follows[a].follower_id);
            }
        }
    }
    if 0 <= j < s.likes.len() {
        let l = s.likes[j];
        let b = s.like_index(l.user_id, l.tweet_id);
        assert(b == j) by {
            if b < j {
                assert(s.likes[b].user_id == s.likes[j].user_id);
            } else if j < b {
                assert(s.likes[j].user_id == s.likes[b].user_id);
            }
        }
    }
}

/// The store. Its rows can be read through the lookups of the components and
/// changed only through their operations, each of which keeps `wf`.
#[derive(Debug)]
pub struct Store {
    users: Vec<User>,
    tweets: Vec<Tweet>,
    likes: Vec<Like>,
    follows: Vec<Follow>,
    next_id: u128,
}

impl View for Store {
    type V = State;

    closed spec fn view(&self) -> State {
        State {
            users: self.users@,
            tweets: self.tweets@,
            likes: self.likes@,
            follows: self.follows@,
            next_id: self.next_id,
        }
    }
}

impl Default for Store {
    /// An empty store that numbers its rows from 1.
    fn default() -> (s: Store)
        ensures
            s@ == State::empty(1),
            s.wf(),
    {
        Store::new()
    }
}

impl Store {
    /// The invariant of the store, on its content.
    pub open spec fn wf(&self) -> bool {
        self@.wf()
    }

    /// An empty store that numbers its rows from 1.
    pub fn new() -> (s: Store)
        ensures
            s@ == State::empty(1),
            s.wf(),
    {
        Store::with_first_id(1)
    }

    /// An empty store that numbers its rows from `first_id`.
    pub fn with_first_id(first_id: u128) -> (s: Store)
        ensures
            s@ == State::empty(first_id),
            s.wf(),
    {
        let s = Store {
            users: Vec::new(),
            tweets: Vec::new(),
            likes: Vec::new(),
            follows: Vec::new(),
            next_id: first_id,
        };
        assert(s@.users =~= Seq::empty() && s@.tweets =~= Seq::empty() && s@.likes =~= Seq::empty()
            && s@.follows =~= Seq::empty());
        s
    }

    /// Where the user with identifier `id` is stored.
    pub(crate) fn find_user(&self, id: u128) -> (r: Option<usize>)
        ensures
            match r {
                Some(i) => i < self@.users.len() && self@.users[i as int].id == id,
                None => !self@.has_user(id),
            },
    {
        let mut i: usize = 0;
        while i < self.users.len()
            invariant
                i <= self.users.len(),
                forall|j: int| 0 <= j < i ==> (#[trigger] self.users@[j]).id != id,
            decreases self.users.len() - i,
        {
            if self.users[i].id == id {
                return Some(i);
            }
            i = i + 1;
        }
        None
    }

    /// Where the user with identifier `id`, who is known to be stored, is stored.
    pub(crate) fn place_of_user(&self, id: u128) -> (i: usize)
        requires
            self@.has_user(id),
        ensures
            i < self@.users.len(),
            self@.users[i as int].id == id,
    {
        let ghost k = self@.user_index(id);
        let mut i: usize = 0;
        while self.users[i].id != id
            invariant
                0 <= i <= k < self.users.len(),
                self.users@[k].id == id,
            decreases self.users.len() - i,
        {
            i = i + 1;
        }
        i
    }

    /// Where the post with identifier `id`, which is known to be stored, is stored.
    pub(crate) fn place_of_tweet(&self, id: u128) -> (i: usize)
        requires
            self@.has_tweet(id),
        ensures
            i < self@.tweets.len(),
            self@.tweets[i as int].id == id,
    {
        let ghost k = self@.tweet_index(id);
        let mut i: usize = 0;
        while self.tweets[i].id != id
            invariant
                0 <= i <= k < self.tweets.len(),
                self.tweets@[k].id == id,
            decreases self.tweets.len() - i,
        {
            i = i + 1;
        }
        i
    }

    /// Where the user named `name` is stored.
    pub(crate) fn find_username(&self, name: &str) -> (r: Option<usize>)
        ensures
            match r {
                Some(i) => i < self@.users.len() && self@.users[i as int].username@ == name@,
                None => !self@.has_username(name@),
            },
    {
        let key = String::from_str(name);
        let mut i: usize = 0;
        while i < self.users.len()
            invariant
                i <= self.users.len(),
                key@ == name@,
                forall|j: int| 0 <= j < i ==> (#[trigger] self.users@[j]).username@ != name@,
            decreases self.users.len() - i,
        {
            if self.users[i].username == key {
                return Some(i);
            }
            i = i + 1;
        }
        None
    }

    /// Where the user whose address is `email` is stored.
    pub(crate) fn find_email(&self, email: &str) -> (r: Option<usize>)
        ensures
            match r {
                Some(i) => i < self@.users.len() && self@.users[i as int].email@ == email@,
                None => !self@.has_email(email@),
            },
    {
        let key = String::from_str(email);
        let mut i: usize = 0;
        while i < self.users.len()
            invariant
                i <= self.users.len(),
                key@ == email@,
                forall|j: int| 0 <= j < i ==> (#[trigger] self.users@[j]).email@ != email@,
            decreases self.users.len() - i,
        {
            if self.users[i].email == key {
                return Some(i);
            }
            i = i + 1;
        }
        None
    }

    /// Where the post with identifier `id` is stored.
    pub(crate) fn find_tweet(&self, id: u128) -> (r: Option<usize>)
        ensures
            match r {
                Some(i) => i < self@.tweets.len() && self@.tweets[i as int].id == id,
                None => !self@.has_tweet(id),
            },
    {
        let mut i: usize = 0;
        while i < self.tweets.len()
            invariant
                i <= self.tweets.len(),
                forall|j: int| 0 <= j < i ==> (#[trigger] self.tweets@[j]).id != id,
            decreases self.tweets.len() - i,
        {
            if self.tweets[i].id == id {
                return Some(i);
            }
            i = i + 1;
        }
        None
    }

    /// Where the edge `follower -> target` is stored.
    pub(crate) fn find_follow(&self, follower: u128, target: u128) -> (r: Option<usize>)
        ensures
            match r {
                Some(i) => i < self@.follows.len() && self@.follows[i as int].follower_id
                    == follower && self@.follows[i as int].following_id == target,
                None => !self@.is_following(follower, target),
            },
    {
        let mut i: usize = 0;
        while i < self.follows.len()
            invariant
                i <= self.follows.len(),
                forall|j: int|
                    0 <= j < i ==> !((#[trigger] self.follows@[j]).follower_id == follower
                        && self.follows@[j].following_id == target),
            decreases self.follows.len() - i,
        {
            if self.follows[i].follower_id == follower && self.follows[i].following_id == target {
                return Some(i);
            }
            i = i + 1;
        }
        None
    }

    /// Where the like of `user` on `tweet` is stored.
    pub(crate) fn find_like(&self, user: u128, tweet: u128) -> (r: Option<usize>)
        ensures
            match r {
                Some(i) => i < self@.likes.len() && self@.likes[i as int].user_id == user
                    && self@.likes[i as int].tweet_id == tweet,
                None => !self@.is_liked(user, tweet),
            },
    {
        let mut i: usize = 0;
        while i < self.likes.len()
            invariant
                i <= self.likes.len(),
                forall|j: int|
                    0 <= j < i ==> !((#[trigger] self.likes@[j]).user_id == user
                        && self.likes@[j].tweet_id == tweet),
            decreases self.likes.len() - i,
        {
            if self.likes[i].user_id == user && self.likes[i].tweet_id == tweet {
                return Some(i);
            }
            i = i + 1;
        }
        None
    }
}

} // verus!
