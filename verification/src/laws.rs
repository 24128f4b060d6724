//! What holds of the store in every state it can reach, and of its
//! operations taken together.
//!
//! A store starts well formed and every operation keeps it so. The
//! statements here are about well-formed states and about the functions
//! that say what each operation answers and what state it leaves.

use vstd::prelude::*;
use crate::counting::count_where;
use crate::counting::filter_pair_witness;
use crate::counting::filter_position;
use crate::counting::filter_witness;
use crate::counting::lemma_count_none;
use crate::counting::lemma_count_push;
use crate::counting::lemma_count_remove;
use crate::error::ErrorKind;
use crate::error::ServiceError;
use crate::auth::bcrypt_verdict;
use crate::models::Follow;
use crate::models::Tweet;
use crate::models::User;
use crate::models::TweetResponse;
use crate::models::UpdateProfileRequest;
use crate::store::content_len_ok;
use crate::store::follows_from;
use crate::store::follows_to;
use crate::store::content::fresh_tweet;
use crate::store::content::lemma_create_post_keeps_wf;
use crate::store::content::lemma_delete_post_keeps_wf;
use crate::store::graph::lemma_follow_keeps_wf;
use crate::store::graph::lemma_unfollow_keeps_wf;
use crate::store::identity::fresh_user;
use crate::store::identity::lemma_update_profile_keeps_wf;
use crate::store::identity::lemma_register_keeps_wf;
use crate::store::ledger::lemma_like_keeps_wf;
use crate::store::ledger::lemma_unlike_keeps_wf;
use crate::store::lemma_edge_index;
use crate::store::lemma_tweet_index;
use crate::store::lemma_user_index;
use crate::store::likes_on;
use crate::store::moved;
use crate::store::timeline::on_timeline;
use crate::store::timeline::shown_before;
use crate::store::timeline::TIMELINE_CAP;
use crate::store::State;
use crate::validation::content_issue;

verus! {

/// The follow edges from `follower` to `target`.
pub open spec fn edge_between(follower: u128, target: u128) -> spec_fn(Follow) -> bool {
    |f: Follow| f.follower_id == follower && f.following_id == target
}

/// A committed change of the store: one operation, with its arguments.
pub enum Transition {
    InsertUser { row: User },
    UpdateProfile { id: u128, update: UpdateProfileRequest },
    CreatePost { post: Tweet },
    DeletePost { id: u128, requester: u128 },
    Follow { follower: u128, target: Seq<char>, now: i64 },
    Unfollow { follower: u128, target: Seq<char> },
    Like { user: u128, tweet: u128, now: i64 },
    Unlike { user: u128, tweet: u128 },
}

impl State {
    /// The state an operation leaves: the one its contract names where it
    /// succeeds, the state it found where it is refused.
    pub open spec fn step(self, t: Transition) -> State {
        match t {
            Transition::InsertUser { row } => if self.register_issue(row.username@, row.email@)
                is None && fresh_user(
                row,
                self.next_id,
                row.username@,
                row.email@,
                row.password_hash@,
                row.display_name@,
                row.created_at,
            ) {
                self.with_user(row)
            } else {
                self
            },
            Transition::UpdateProfile { id, update } => if self.has_user(id) {
                self.after_update_profile(id, update)
            } else {
                self
            },
            Transition::CreatePost { post } => if self.create_post_issue(
                post.user_id,
                post.content@,
            ) is None && fresh_tweet(
                post,
                self.next_id,
                post.user_id,
                post.content@,
                post.image_url,
                post.created_at,
            ) {
                self.with_tweet(post)
            } else {
                self
            },
            Transition::DeletePost { id, requester } => if self.owns_tweet(requester, id) {
                self.after_delete_post(id)
            } else {
                self
            },
            Transition::Follow { follower, target, now } => moved(
                self.follow_outcome(follower, target),
                self,
                self.after_follow(follower, self.user_by_username(target).unwrap().id, now),
            ),
            Transition::Unfollow { follower, target } => moved(
                self.unfollow_outcome(follower, target),
                self,
                self.after_unfollow(follower, self.user_by_username(target).unwrap().id),
            ),
            Transition::Like { user, tweet, now } => moved(
                self.like_outcome(user, tweet),
                self,
                self.after_like(user, tweet, now),
            ),
            Transition::Unlike { user, tweet } => moved(
                self.unlike_outcome(user, tweet),
                self,
                self.after_unlike(user, tweet),
            ),
        }
    }

    /// The state after a sequence of operations, one after the other.
    pub open spec fn run(self, history: Seq<Transition>) -> State
        decreases history.len(),
    {
        if history.len() == 0 {
            self
        } else {
            self.run(history.drop_last()).step(history.last())
        }
    }
}

/// Every operation keeps the store's invariant.
pub proof fn step_keeps_wf(s: State, t: Transition)
    requires
        s.wf(),
    ensures
        s.step(t).wf(),
{
    match t {
        Transition::InsertUser { row } => {
            if s.step(t) != s {
                lemma_register_keeps_wf(s, row);
            }
        },
        Transition::UpdateProfile { id, update } => {
            if s.has_user(id) {
                lemma_update_profile_keeps_wf(s, id, update);
            }
        },
        Transition::CreatePost { post } => {
            if s.step(t) != s {
                lemma_create_post_keeps_wf(s, post);
            }
        },
        Transition::DeletePost { id, requester } => {
            if s.owns_tweet(requester, id) {
                lemma_delete_post_keeps_wf(s, id);
            }
        },
        Transition::Follow { follower, target, now } => {
            if s.follow_outcome(follower, target) is Ok {
                let ti = s.username_index(target);
                lemma_user_index(s, ti);
                lemma_follow_keeps_wf(s, follower, s.users[ti].id, now);
            }
        },
        Transition::Unfollow { follower, target } => {
            if s.unfollow_outcome(follower, target) is Ok {
                lemma_unfollow_keeps_wf(s, follower, s.user_by_username(target).unwrap().id);
            }
        },
        Transition::Like { user, tweet, now } => {
            if s.like_outcome(user, tweet) is Ok {
                lemma_like_keeps_wf(s, user, tweet, now);
            }
        },
        Transition::Unlike { user, tweet } => {
            if s.unlike_outcome(user, tweet) is Ok {
                lemma_unlike_keeps_wf(s, user, tweet);
            }
        },
    }
}

/// Whatever operations a store has gone through since it was made, its
/// state satisfies the invariant.
pub proof fn every_reachable_state_is_well_formed(first_id: u128, history: Seq<Transition>)
    ensures
        State::empty(first_id).run(history).wf(),
    decreases history.len(),
{
    if history.len() > 0 {
        every_reachable_state_is_well_formed(first_id, history.drop_last());
        step_keeps_wf(State::empty(first_id).run(history.drop_last()), history.last());
    }
}

/// Where no row occurs twice, the rows that satisfy `p` are as many as the
/// members of the set of rows that satisfy `p`.
pub proof fn lemma_count_is_cardinality<A>(s: Seq<A>, p: spec_fn(A) -> bool)
    requires
        s.no_duplicates(),
    ensures
        count_where(s, p) == s.to_set().filter(p).len(),
{
    let f = s.filter(p);
    assert(f.no_duplicates()) by {
        assert forall|a: int, b: int| 0 <= a < f.len() && 0 <= b < f.len() && a != b implies f[a]
            != f[b] by {
            if a < b {
                filter_pair_witness(s, p, a, b);
            } else {
                filter_pair_witness(s, p, b, a);
            }
        }
    }
    assert(f.to_set() =~= s.to_set().filter(p)) by {
        assert forall|x: A| f.to_set().contains(x) <==> s.to_set().filter(p).contains(x) by {
            if f.to_set().contains(x) {
                let a = choose|a: int| 0 <= a < f.len() && f[a] == x;
                let i = filter_witness(s, p, a);
                assert(s[i] == x);
            }
            if s.to_set().filter(p).contains(x) {
                let i = choose|i: int| 0 <= i < s.len() && s[i] == x;
                let a = filter_position(s, p, i);
                assert(f[a] == x);
            }
        }
    }
    f.unique_seq_to_set();
}

/// In every well-formed state the follower counter of each user is the
/// number of follow edges that point at the user, and the following
/// counter is the number of follow edges that start at the user.
pub proof fn follow_counters_match_edges(s: State, i: int)
    requires
        s.wf(),
        0 <= i < s.users.len(),
    ensures
        s.users[i].followers_count == s.follows.to_set().filter(follows_to(s.users[i].id)).len(),
        s.users[i].following_count == s.follows.to_set().filter(
            follows_from(s.users[i].id),
        ).len(),
{
    assert(s.follows.no_duplicates());
    lemma_count_is_cardinality(s.follows, follows_to(s.users[i].id));
    lemma_count_is_cardinality(s.follows, follows_from(s.users[i].id));
}

/// In every well-formed state the like counter of each post is the number
/// of like edges on the post.
pub proof fn like_counters_match_edges(s: State, i: int)
    requires
        s.wf(),
        0 <= i < s.tweets.len(),
    ensures
        s.tweets[i].likes_count == s.likes.to_set().filter(likes_on(s.tweets[i].id)).len(),
{
    assert(s.likes.no_duplicates());
    lemma_count_is_cardinality(s.likes, likes_on(s.tweets[i].id));
}

/// Between any two operations, whatever came before: every counter on a
/// user and on a post equals the number of edges it summarises.
pub proof fn counters_match_edges_between_operations(first_id: u128, history: Seq<Transition>)
    ensures
        ({
            let s = State::empty(first_id).run(history);
            &&& forall|i: int|
                0 <= i < s.users.len() ==> {
                    &&& (#[trigger] s.users[i]).followers_count == s.follows.to_set().filter(
                        follows_to(s.users[i].id),
                    ).len()
                    &&& s.users[i].following_count == s.follows.to_set().filter(
                        follows_from(s.users[i].id),
                    ).len()
                }
            &&& forall|i: int|
                0 <= i < s.tweets.len() ==> (#[trigger] s.tweets[i]).likes_count
                    == s.likes.to_set().filter(likes_on(s.tweets[i].id)).len()
        }),
{
    let s = State::empty(first_id).run(history);
    every_reachable_state_is_well_formed(first_id, history);
    assert forall|i: int| 0 <= i < s.users.len() implies {
        &&& (#[trigger] s.users[i]).followers_count == s.follows.to_set().filter(
            follows_to(s.users[i].id),
        ).len()
        &&& s.users[i].following_count == s.follows.to_set().filter(
            follows_from(s.users[i].id),
        ).len()
    } by {
        follow_counters_match_edges(s, i);
    }
    assert forall|i: int| 0 <= i < s.tweets.len() implies (#[trigger] s.tweets[i]).likes_count
        == s.likes.to_set().filter(likes_on(s.tweets[i].id)).len() by {
        like_counters_match_edges(s, i);
    }
}

/// Liking a post twice: where the first like is recorded, a second one by
/// the same user is a conflict and leaves the state as the first one left
/// it, with the counter raised once.
pub proof fn second_like_is_conflict(s: State, user: u128, tweet: u128, first: i64, second: i64)
    requires
        s.wf(),
        s.like_outcome(user, tweet) is Ok,
    ensures
        ({
            let t = s.after_like(user, tweet, first);
            &&& t.wf()
            &&& t.like_outcome(user, tweet) == Err::<(), ServiceError>(ServiceError::AlreadyLiked)
            &&& ServiceError::AlreadyLiked.spec_kind() == ErrorKind::Conflict
            &&& moved(t.like_outcome(user, tweet), t, t.after_like(user, tweet, second)) == t
            &&& t.tweet_by_id(tweet) matches Some(after)
            &&& s.tweet_by_id(tweet) matches Some(before)
            &&& after.likes_count == before.likes_count + 1
            &&& t.likes_of(tweet) == s.likes_of(tweet) + 1
        }),
{
    let t = s.after_like(user, tweet, first);
    lemma_like_keeps_wf(s, user, tweet, first);
    let k = s.tweet_index(tweet);
    lemma_tweet_index(s, k);
    assert(t.tweets[k].id == tweet);
    lemma_tweet_index(t, k);
    assert(t.likes[s.likes.len() as int].user_id == user);
    lemma_count_push(s.likes, likes_on(tweet), t.likes[s.likes.len() as int]);
}

/// Unliking a post that the user does not like is reported as not found and
/// leaves the state, and with it every counter, as it was.
pub proof fn unlike_without_like_is_not_found(s: State, user: u128, tweet: u128)
    requires
        s.wf(),
        !s.is_liked(user, tweet),
    ensures
        s.unlike_outcome(user, tweet) == Err::<(), ServiceError>(ServiceError::LikeNotFound),
        ServiceError::LikeNotFound.spec_kind() == ErrorKind::NotFound,
        moved(s.unlike_outcome(user, tweet), s, s.after_unlike(user, tweet)) == s,
{
}

/// Following oneself is refused as invalid input and leaves the state as it
/// was: no edge is created and no counter is touched.
pub proof fn self_follow_is_refused(s: State, i: int, now: i64)
    requires
        s.wf(),
        0 <= i < s.users.len(),
    ensures
        ({
            let me = s.users[i];
            let answer = s.follow_outcome(me.id, me.username@);
            &&& answer == Err::<(), ServiceError>(ServiceError::SelfFollow)
            &&& ServiceError::SelfFollow.spec_kind() == ErrorKind::Validation
            &&& moved(answer, s, s.after_follow(me.id, me.id, now)) == s
        }),
{
    lemma_user_index(s, i);
}

/// Following a user twice: where the first follow is recorded, a second one
/// by the same follower is a conflict and leaves the state as the first one
/// left it, with exactly one edge between the two and both counters raised
/// once.
pub proof fn second_follow_is_conflict(
    s: State,
    follower: u128,
    name: Seq<char>,
    first: i64,
    second: i64,
)
    requires
        s.wf(),
        s.follow_outcome(follower, name) is Ok,
    ensures
        ({
            let target = s.user_by_username(name).unwrap().id;
            let t = s.after_follow(follower, target, first);
            &&& t.wf()
            &&& t.follow_outcome(follower, name) == Err::<(), ServiceError>(
                ServiceError::AlreadyFollowing,
            )
            &&& ServiceError::AlreadyFollowing.spec_kind() == ErrorKind::Conflict
            &&& moved(t.follow_outcome(follower, name), t, t.after_follow(follower, target, second))
                == t
            &&& count_where(t.follows, edge_between(follower, target)) == 1
            &&& t.user_by_id(target) matches Some(target_after)
            &&& s.user_by_id(target) matches Some(target_before)
            &&& target_after.followers_count == target_before.followers_count + 1
            &&& t.user_by_id(follower) matches Some(follower_after)
            &&& s.user_by_id(follower) matches Some(follower_before)
            &&& follower_after.following_count == follower_before.following_count + 1
        }),
{
    let ti = s.username_index(name);
    lemma_user_index(s, ti);
    let target = s.users[ti].id;
    let fi = s.user_index(follower);
    lemma_user_index(s, fi);
    let t = s.after_follow(follower, target, first);
    lemma_follow_keeps_wf(s, follower, target, first);
    assert(t.users[ti].username == s.users[ti].username);
    assert(t.users[fi].id == follower);
    lemma_user_index(t, ti);
    lemma_user_index(t, fi);
    let edge = t.follows[s.follows.len() as int];
    assert(edge.follower_id == follower && edge.following_id == target);
    assert forall|k: int| 0 <= k < s.follows.len() implies !edge_between(follower, target)(
        #[trigger] s.follows[k],
    ) by {}
    lemma_count_none(s.follows, edge_between(follower, target));
    lemma_count_push(s.follows, edge_between(follower, target), edge);
}

/// A post is accepted exactly where its content has 1 to 280 characters;
/// any other length is refused as invalid input.
pub proof fn content_bounds(content: Seq<char>)
    ensures
        content_issue(content) is None <==> 1 <= content.len() <= 280,
        content_issue(content) is Some ==> content_issue(content) == Some(
            ServiceError::ContentLength,
        ),
        ServiceError::ContentLength.spec_kind() == ErrorKind::Validation,
{
    assert(content_len_ok(content.len()) <==> 1 <= content.len() <= 280);
}

/// A timeline that is not full shows every post of its viewer, whomever the
/// viewer follows, as the viewer sees it.
pub proof fn own_posts_are_on_timeline(s: State, viewer: u128, r: Seq<TweetResponse>, k: int)
    requires
        s.wf(),
        s.is_timeline(viewer, r),
        r.len() < TIMELINE_CAP,
        0 <= k < s.tweets.len(),
        s.tweets[k].user_id == viewer,
    ensures
        exists|i: int|
            0 <= i < r.len() && #[trigger] r[i] == s.response(Some(viewer), s.tweets[k]),
{
    let i = choose|i: int| 0 <= i < r.len() && (#[trigger] r[i]).id == s.tweets[k].id;
    lemma_tweet_index(s, k);
    assert(r[i] == s.response(Some(viewer), s.tweets[k]));
}

/// The public list of a user's posts marks none of them as liked.
pub proof fn public_lists_show_no_likes(s: State, username: Seq<char>, r: Seq<TweetResponse>)
    requires
        s.is_user_posts(username, r),
    ensures
        forall|i: int| 0 <= i < r.len() ==> !(#[trigger] r[i]).is_liked,
{
}

/// A pair of user and post is either liked or not. `like` is refused as a
/// conflict exactly where the pair is liked, `unlike` as not found exactly
/// where it is not.
pub proof fn liked_or_not(s: State, user: u128, tweet: u128)
    ensures
        s.is_liked(user, tweet) <==> s.like_outcome(user, tweet) == Err::<(), ServiceError>(
            ServiceError::AlreadyLiked,
        ),
        !s.is_liked(user, tweet) <==> s.unlike_outcome(user, tweet) == Err::<(), ServiceError>(
            ServiceError::LikeNotFound,
        ),
        s.is_liked(user, tweet) <==> s.unlike_outcome(user, tweet) is Ok,
{
}

/// A like that is recorded moves its pair from not liked to liked and
/// leaves every other pair as it was.
pub proof fn like_marks_its_pair_only(
    s: State,
    user: u128,
    tweet: u128,
    now: i64,
    other_user: u128,
    other_tweet: u128,
)
    requires
        s.wf(),
        s.like_outcome(user, tweet) is Ok,
    ensures
        !s.is_liked(user, tweet),
        s.after_like(user, tweet, now).is_liked(user, tweet),
        (other_user != user || other_tweet != tweet) ==> (s.after_like(
            user,
            tweet,
            now,
        ).is_liked(other_user, other_tweet) <==> s.is_liked(other_user, other_tweet)),
{
    let t = s.after_like(user, tweet, now);
    let last = s.likes.len() as int;
    assert(t.likes[last].user_id == user && t.likes[last].tweet_id == tweet);
    if s.is_liked(other_user, other_tweet) {
        let k = s.like_index(other_user, other_tweet);
        assert(t.likes[k] == s.likes[k]);
    }
    if (other_user != user || other_tweet != tweet) && t.is_liked(other_user, other_tweet) {
        let k = t.like_index(other_user, other_tweet);
        assert(s.likes[k] == t.likes[k]);
    }
}

/// An unlike that is carried out moves its pair from liked to not liked,
/// lowers the counter of the post by one and leaves every other pair as it
/// was.
pub proof fn unlike_clears_its_pair_only(
    s: State,
    user: u128,
    tweet: u128,
    other_user: u128,
    other_tweet: u128,
)
    requires
        s.wf(),
        s.is_liked(user, tweet),
    ensures
        !s.after_unlike(user, tweet).is_liked(user, tweet),
        s.after_unlike(user, tweet).likes_of(tweet) == s.likes_of(tweet) - 1,
        (other_user != user || other_tweet != tweet) ==> (s.after_unlike(user, tweet).is_liked(
            other_user,
            other_tweet,
        ) <==> s.is_liked(other_user, other_tweet)),
{
    let t = s.after_unlike(user, tweet);
    let k = s.like_index(user, tweet);
    lemma_count_remove(s.likes, likes_on(tweet), k);
    if t.is_liked(user, tweet) {
        let a = t.like_index(user, tweet);
        if a < k {
            assert(s.likes[a] == t.likes[a]);
        } else {
            assert(s.likes[a + 1] == t.likes[a]);
        }
    }
    if s.is_liked(other_user, other_tweet) && (other_user != user || other_tweet != tweet) {
        let a = s.like_index(other_user, other_tweet);
        if a < k {
            assert(t.likes[a] == s.likes[a]);
        } else {
            assert(t.likes[a - 1] == s.likes[a]);
        }
    }
    if t.is_liked(other_user, other_tweet) {
        let a = t.like_index(other_user, other_tweet);
        if a < k {
            assert(s.likes[a] == t.likes[a]);
        } else {
            assert(s.likes[a + 1] == t.likes[a]);
        }
    }
}

/// Liking a post and then unliking it leaves every table as it was.
pub proof fn like_then_unlike_restores(s: State, user: u128, tweet: u128, now: i64)
    requires
        s.wf(),
        s.like_outcome(user, tweet) is Ok,
    ensures
        ({
            let t = s.after_like(user, tweet, now);
            let u = t.after_unlike(user, tweet);
            &&& t.unlike_outcome(user, tweet) is Ok
            &&& u.users == s.users
            &&& u.tweets == s.tweets
            &&& u.likes == s.likes
            &&& u.follows == s.follows
        }),
{
    let t = s.after_like(user, tweet, now);
    let u = t.after_unlike(user, tweet);
    lemma_like_keeps_wf(s, user, tweet, now);
    let last = s.likes.len() as int;
    assert(t.likes[last].user_id == user && t.likes[last].tweet_id == tweet);
    lemma_edge_index(t, 0, last);
    assert(u.likes =~= s.likes);
    assert(u.tweets =~= s.tweets);
}

/// Following a user and then unfollowing them leaves every table as it was.
pub proof fn follow_then_unfollow_restores(s: State, follower: u128, name: Seq<char>, now: i64)
    requires
        s.wf(),
        s.follow_outcome(follower, name) is Ok,
    ensures
        ({
            let target = s.user_by_username(name).unwrap().id;
            let t = s.after_follow(follower, target, now);
            let u = t.after_unfollow(follower, target);
            &&& t.unfollow_outcome(follower, name) is Ok
            &&& u.users == s.users
            &&& u.tweets == s.tweets
            &&& u.likes == s.likes
            &&& u.follows == s.follows
        }),
{
    let ti = s.username_index(name);
    lemma_user_index(s, ti);
    let target = s.users[ti].id;
    let t = s.after_follow(follower, target, now);
    let u = t.after_unfollow(follower, target);
    lemma_follow_keeps_wf(s, follower, target, now);
    assert(t.users[ti].username == s.users[ti].username);
    lemma_user_index(t, ti);
    let last = s.follows.len() as int;
    assert(t.follows[last].follower_id == follower && t.follows[last].following_id == target);
    lemma_edge_index(t, last, 0);
    assert(u.follows =~= s.follows);
    assert(u.users =~= s.users);
}

/// Two feeds of the same posts for the same viewer under the same cap show
/// the same post at every place they both have.
pub proof fn lemma_feeds_agree_at(
    s: State,
    wanted: spec_fn(Tweet) -> bool,
    viewer: Option<u128>,
    cap: Option<nat>,
    r1: Seq<TweetResponse>,
    r2: Seq<TweetResponse>,
    i: int,
)
    requires
        s.wf(),
        s.is_feed(wanted, viewer, cap, r1),
        s.is_feed(wanted, viewer, cap, r2),
        0 <= i < r1.len(),
        i < r2.len(),
    ensures
        r1[i].id == r2[i].id,
    decreases i, 1int,
{
    if r1[i].id != r2[i].id {
        lemma_entry_not_ahead(s, wanted, viewer, cap, r1, r2, i);
        lemma_entry_not_ahead(s, wanted, viewer, cap, r2, r1, i);
        let ka = s.tweet_index(r1[i].id);
        let kb = s.tweet_index(r2[i].id);
        assert(s.tweets[ka].id == r1[i].id && s.tweets[kb].id == r2[i].id);
    }
}

/// Where two feeds of the same posts differ at a place, the entry of the
/// first is not shown before the entry of the second: the second feed would
/// have to show it too, and has no place for it.
proof fn lemma_entry_not_ahead(
    s: State,
    wanted: spec_fn(Tweet) -> bool,
    viewer: Option<u128>,
    cap: Option<nat>,
    r1: Seq<TweetResponse>,
    r2: Seq<TweetResponse>,
    i: int,
)
    requires
        s.wf(),
        s.is_feed(wanted, viewer, cap, r1),
        s.is_feed(wanted, viewer, cap, r2),
        0 <= i < r1.len(),
        i < r2.len(),
        r1[i].id != r2[i].id,
    ensures
        !shown_before(r1[i].created_at, r1[i].id, r2[i].created_at, r2[i].id),
    decreases i, 0int,
{
    let a = r1[i];
    let ka = s.tweet_index(a.id);
    assert(s.tweets[ka].id == a.id && wanted(s.tweets[ka]));
    lemma_tweet_index(s, ka);
    if shown_before(a.created_at, a.id, r2[i].created_at, r2[i].id) {
        if exists|j: int| 0 <= j < r2.len() && (#[trigger] r2[j]).id == s.tweets[ka].id {
            let j = choose|j: int| 0 <= j < r2.len() && (#[trigger] r2[j]).id == s.tweets[ka].id;
            assert(r2[j].created_at == a.created_at);
            if j < i {
                lemma_feeds_agree_at(s, wanted, viewer, cap, r1, r2, j);
                assert(shown_before(r1[j].created_at, r1[j].id, r1[i].created_at, r1[i].id));
                assert(r1[j].created_at == r1[i].created_at);
            } else {
                assert(shown_before(r2[i].created_at, r2[i].id, r2[j].created_at, r2[j].id));
            }
        } else {
            assert(shown_before(r2[i].created_at, r2[i].id, a.created_at, a.id));
        }
    }
}

/// Of two feeds of the same posts for the same viewer under the same cap,
/// the second is no longer than the first.
proof fn lemma_feed_not_longer(
    s: State,
    wanted: spec_fn(Tweet) -> bool,
    viewer: Option<u128>,
    cap: Option<nat>,
    r1: Seq<TweetResponse>,
    r2: Seq<TweetResponse>,
)
    requires
        s.wf(),
        s.is_feed(wanted, viewer, cap, r1),
        s.is_feed(wanted, viewer, cap, r2),
    ensures
        r2.len() <= r1.len(),
{
    if r1.len() < r2.len() {
        let n = r1.len() as int;
        let extra = r2[n];
        let k = s.tweet_index(extra.id);
        assert(s.tweets[k].id == extra.id && wanted(s.tweets[k]));
        lemma_tweet_index(s, k);
        let j = choose|j: int| 0 <= j < r1.len() && (#[trigger] r1[j]).id == s.tweets[k].id;
        lemma_feeds_agree_at(s, wanted, viewer, cap, r1, r2, j);
        assert(shown_before(r2[j].created_at, r2[j].id, r2[n].created_at, r2[n].id));
        assert(r2[j].created_at == r2[n].created_at);
    }
}

/// A feed is determined by the state it is read from: two feeds of the same
/// posts for the same viewer under the same cap are equal.
pub proof fn feed_is_determined(
    s: State,
    wanted: spec_fn(Tweet) -> bool,
    viewer: Option<u128>,
    cap: Option<nat>,
    r1: Seq<TweetResponse>,
    r2: Seq<TweetResponse>,
)
    requires
        s.wf(),
        s.is_feed(wanted, viewer, cap, r1),
        s.is_feed(wanted, viewer, cap, r2),
    ensures
        r1 == r2,
{
    lemma_feed_not_longer(s, wanted, viewer, cap, r1, r2);
    lemma_feed_not_longer(s, wanted, viewer, cap, r2, r1);
    assert forall|i: int| 0 <= i < r1.len() implies r1[i] == r2[i] by {
        lemma_feeds_agree_at(s, wanted, viewer, cap, r1, r2, i);
    }
    assert(r1 =~= r2);
}

/// The timeline of a viewer is determined by the state it is read from.
pub proof fn timeline_is_determined(
    s: State,
    viewer: u128,
    r1: Seq<TweetResponse>,
    r2: Seq<TweetResponse>,
)
    requires
        s.wf(),
        s.is_timeline(viewer, r1),
        s.is_timeline(viewer, r2),
    ensures
        r1 == r2,
{
    feed_is_determined(
        s,
        on_timeline(s, viewer),
        Some(viewer),
        Some(TIMELINE_CAP as nat),
        r1,
        r2,
    );
}

/// A user who was registered with a password is let in with it.
pub proof fn registered_user_can_log_in(s: State, u: User, password: Seq<char>)
    requires
        s.wf(),
        s.register_issue(u.username@, u.email@) is None,
        u.id == s.next_id,
        u.followers_count == 0,
        u.following_count == 0,
        bcrypt_verdict(password, u.password_hash@) == Some(true),
    ensures
        s.with_user(u).authenticate_result(u.email@, password) == Ok::<User, ServiceError>(u),
{
    let t = s.with_user(u);
    lemma_register_keeps_wf(s, u);
    lemma_user_index(t, s.users.len() as int);
}

} // verus!
