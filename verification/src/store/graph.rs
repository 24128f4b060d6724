//! The relationship graph: directed follow edges, and the two counters on
//! users that summarise them. An edge and both counters change together or
//! not at all.

use vstd::prelude::*;
use crate::counting::lemma_count_positive;
use crate::counting::lemma_count_push;
use crate::counting::lemma_count_remove;
use crate::error::ServiceError;
use crate::models::Follow;
use crate::models::User;
use crate::store::follows_from;
use crate::store::follows_to;
use crate::store::lemma_edge_index;
use crate::store::lemma_user_index;
use crate::store::State;
use crate::store::Store;

verus! {

/// A counter lowered by one, with zero as its floor.
pub open spec fn floor_dec(c: i32) -> i32 {
    if c > 0 {
        (c - 1) as i32
    } else {
        0
    }
}

/// A user row after the edge `follower -> target` was inserted.
pub open spec fn followed(u: User, follower: u128, target: u128) -> User {
    if u.id == follower {
        User { following_count: (u.following_count + 1) as i32, ..u }
    } else if u.id == target {
        User { followers_count: (u.followers_count + 1) as i32, ..u }
    } else {
        u
    }
}

/// A user row after the edge `follower -> target` was deleted.
pub open spec fn unfollowed(u: User, follower: u128, target: u128) -> User {
    if u.id == follower {
        User { following_count: floor_dec(u.following_count), ..u }
    } else if u.id == target {
        User { followers_count: floor_dec(u.followers_count), ..u }
    } else {
        u
    }
}

impl State {
    /// What `follow` answers: the target must exist and differ from the
    /// follower, the edge must be new, and the store must be able to record it.
    pub open spec fn follow_outcome(self, follower: u128, target_name: Seq<char>) -> Result<
        (),
        ServiceError,
    > {
        match self.user_by_username(target_name) {
            None => Err(ServiceError::UserNotFound),
            Some(target) => {
                if follower == target.id {
                    Err(ServiceError::SelfFollow)
                } else if self.is_following(follower, target.id) {
                    Err(ServiceError::AlreadyFollowing)
                } else if !self.has_user(follower) {
                    Err(ServiceError::UserNotFound)
                } else if self.next_id == u128::MAX {
                    Err(ServiceError::IdsExhausted)
                } else if target.followers_count == i32::MAX || self.user_by_id(
                    follower,
                ).unwrap().following_count == i32::MAX {
                    Err(ServiceError::CounterOverflow)
                } else {
                    Ok(())
                }
            },
        }
    }

    /// The state after the edge `follower -> target` was inserted at `now`.
    pub open spec fn after_follow(self, follower: u128, target: u128, now: i64) -> State {
        State {
            users: Seq::new(self.users.len(), |i: int| followed(self.users[i], follower, target)),
            follows: self.follows.push(
                Follow {
                    id: self.next_id,
                    follower_id: follower,
                    following_id: target,
                    created_at: now,
                },
            ),
            next_id: (self.next_id + 1) as u128,
            ..self
        }
    }

    /// What `unfollow` answers: the target must exist and the edge be recorded.
    pub open spec fn unfollow_outcome(self, follower: u128, target_name: Seq<char>) -> Result<
        (),
        ServiceError,
    > {
        match self.user_by_username(target_name) {
            None => Err(ServiceError::UserNotFound),
            Some(target) => {
                if !self.is_following(follower, target.id) {
                    Err(ServiceError::NotFollowing)
                } else {
                    Ok(())
                }
            },
        }
    }

    /// The state after the edge `follower -> target` was deleted.
    pub open spec fn after_unfollow(self, follower: u128, target: u128) -> State {
        State {
            users: Seq::new(
                self.users.len(),
                |i: int| unfollowed(self.users[i], follower, target),
            ),
            follows: self.follows.remove(self.follow_index(follower, target)),
            ..self
        }
    }

    /// Whether two states hold the same users but for their counters.
    pub open spec fn same_identities(self, other: State) -> bool {
        &&& self.users.len() == other.users.len()
        &&& forall|i: int|
            0 <= i < self.users.len() ==> {
                &&& (#[trigger] self.users[i]).id == (#[trigger] other.users[i]).id
                &&& self.users[i].username == other.users[i].username
                &&& self.users[i].email == other.users[i].email
            }
    }
}

/// Users that keep their identifiers stay findable.
pub proof fn lemma_same_identities(s: State, t: State)
    requires
        s.same_identities(t),
    ensures
        forall|id: u128| s.has_user(id) <==> t.has_user(id),
{
    assert forall|id: u128| s.has_user(id) <==> t.has_user(id) by {
        if s.has_user(id) {
            let k = s.user_index(id);
            assert(t.users[k].id == id);
        }
        if t.has_user(id) {
            let k = t.user_index(id);
            assert(s.users[k].id == id);
        }
    }
}

/// Inserting a new edge between two different users, with both counters
/// raised, keeps the store's invariant.
pub proof fn lemma_follow_keeps_wf(s: State, follower: u128, target: u128, now: i64)
    requires
        s.wf(),
        s.has_user(follower),
        s.has_user(target),
        follower != target,
        !s.is_following(follower, target),
        s.next_id < u128::MAX,
        s.user_by_id(follower).unwrap().following_count < i32::MAX,
        s.user_by_id(target).unwrap().followers_count < i32::MAX,
    ensures
        s.after_follow(follower, target, now).wf(),
{
    let t = s.after_follow(follower, target, now);
    let edge = Follow { id: s.next_id, follower_id: follower, following_id: target, created_at: now };
    assert(s.same_identities(t));
    lemma_same_identities(s, t);
    assert(t.follows_wf()) by {
        assert forall|i: int, j: int| 0 <= i < j < t.follows.len() implies !({
            &&& (#[trigger] t.follows[i]).follower_id == (#[trigger] t.follows[j]).follower_id
            &&& t.follows[i].following_id == t.follows[j].following_id
        }) by {
            if j == s.follows.len() {
                assert(t.follows[i] == s.follows[i]);
            } else {
                assert(t.follows[i] == s.follows[i] && t.follows[j] == s.follows[j]);
            }
        }
        assert forall|i: int| 0 <= i < t.follows.len() implies {
            &&& (#[trigger] t.follows[i]).follower_id != t.follows[i].following_id
            &&& t.follows[i].id < t.next_id
            &&& t.has_user(t.follows[i].follower_id)
            &&& t.has_user(t.follows[i].following_id)
        } by {
            if i < s.follows.len() {
                assert(t.follows[i] == s.follows[i]);
            }
        }
    }
    assert(t.counters_wf()) by {
        assert forall|i: int| 0 <= i < t.users.len() implies {
            &&& (#[trigger] t.users[i]).followers_count == t.followers_of(t.users[i].id)
            &&& t.users[i].following_count == t.following_of(t.users[i].id)
        } by {
            let u = s.users[i];
            lemma_user_index(s, i);
            lemma_count_push(s.follows, follows_to(u.id), edge);
            lemma_count_push(s.follows, follows_from(u.id), edge);
        }
    }
}

/// Deleting a recorded edge, with both counters lowered, keeps the store's
/// invariant; the floor of the counters is never reached.
pub proof fn lemma_unfollow_keeps_wf(s: State, follower: u128, target: u128)
    requires
        s.wf(),
        s.is_following(follower, target),
    ensures
        s.after_unfollow(follower, target).wf(),
        s.has_user(follower),
        s.has_user(target),
        follower != target,
        s.user_by_id(follower).unwrap().following_count >= 1,
        s.user_by_id(target).unwrap().followers_count >= 1,
{
    let t = s.after_unfollow(follower, target);
    let k = s.follow_index(follower, target);
    assert(s.same_identities(t));
    lemma_same_identities(s, t);
    lemma_user_index(s, s.user_index(follower));
    lemma_user_index(s, s.user_index(target));
    lemma_count_positive(s.follows, follows_from(follower), k);
    lemma_count_positive(s.follows, follows_to(target), k);
    assert(t.counters_wf()) by {
        assert forall|i: int| 0 <= i < t.users.len() implies {
            &&& (#[trigger] t.users[i]).followers_count == t.followers_of(t.users[i].id)
            &&& t.users[i].following_count == t.following_of(t.users[i].id)
        } by {
            let u = s.users[i];
            lemma_user_index(s, i);
            lemma_count_remove(s.follows, follows_to(u.id), k);
            lemma_count_remove(s.follows, follows_from(u.id), k);
        }
    }
}

impl Store {
    /// Records that `follower_id` follows the user named `target_username`.
    ///
    /// Either the edge is inserted and both counters are raised by one, or the
    /// store is left as it was and the answer says why.
    pub fn follow(&mut self, follower_id: u128, target_username: &str, now: i64) -> (r: Result<
        (),
        ServiceError,
    >)
        requires
            old(self).wf(),
        ensures
            final(self).wf(),
            r == old(self)@.follow_outcome(follower_id, target_username@),
            r is Ok ==> final(self)@ == old(self)@.after_follow(
                follower_id,
                old(self)@.user_by_username(target_username@).unwrap().id,
                now,
            ),
            r is Err ==> final(self)@ == old(self)@,
    {
        let ti = match self.find_username(target_username) {
            Some(i) => i,
            None => {
                return Err(ServiceError::UserNotFound);
            },
        };
        proof {
            lemma_user_index(self@, ti as int);
        }
        let target_id = self.users[ti].id;
        if follower_id == target_id {
            return Err(ServiceError::SelfFollow);
        }
        if self.find_follow(follower_id, target_id).is_some() {
            return Err(ServiceError::AlreadyFollowing);
        }
        let fi = match self.find_user(follower_id) {
            Some(i) => i,
            None => {
                return Err(ServiceError::UserNotFound);
            },
        };
        proof {
            lemma_user_index(self@, fi as int);
        }
        if self.next_id == u128::MAX {
            return Err(ServiceError::IdsExhausted);
        }
        if self.users[ti].followers_count == i32::MAX || self.users[fi].following_count
            == i32::MAX {
            return Err(ServiceError::CounterOverflow);
        }
        let edge = Follow {
            id: self.next_id,
            follower_id,
            following_id: target_id,
            created_at: now,
        };
        self.follows.push(edge);
        self.users[fi].following_count = self.users[fi].following_count + 1;
        self.users[ti].followers_count = self.users[ti].followers_count + 1;
        self.next_id = self.next_id + 1;
        proof {
            let s = old(self)@;
            let t = s.after_follow(follower_id, target_id, now);
            assert(self@.users =~= t.users) by {
                assert forall|i: int| 0 <= i < s.users.len() implies self@.users[i] == t.users[i] by {
                    lemma_user_index(s, i);
                }
            }
            assert(self@ == t);
            lemma_follow_keeps_wf(s, follower_id, target_id, now);
        }
        Ok(())
    }

    /// Deletes the edge from `follower_id` to the user named `target_username`.
    ///
    /// Either the edge is deleted and both counters are lowered by one, or the
    /// store is left as it was and the answer says why.
    pub fn unfollow(&mut self, follower_id: u128, target_username: &str) -> (r: Result<
        (),
        ServiceError,
    >)
        requires
            old(self).wf(),
        ensures
            final(self).wf(),
            r == old(self)@.unfollow_outcome(follower_id, target_username@),
            r is Ok ==> final(self)@ == old(self)@.after_unfollow(
                follower_id,
                old(self)@.user_by_username(target_username@).unwrap().id,
            ),
            r is Err ==> final(self)@ == old(self)@,
    {
        let ti = match self.find_username(target_username) {
            Some(i) => i,
            None => {
                return Err(ServiceError::UserNotFound);
            },
        };
        proof {
            lemma_user_index(self@, ti as int);
        }
        let target_id = self.users[ti].id;
        let k = match self.find_follow(follower_id, target_id) {
            Some(k) => k,
            None => {
                return Err(ServiceError::NotFollowing);
            },
        };
        proof {
            lemma_edge_index(self@, k as int, 0);
            lemma_unfollow_keeps_wf(self@, follower_id, target_id);
        }
        let fi = self.place_of_user(follower_id);
        self.follows.remove(k);
        let c = self.users[fi].following_count;
        self.users[fi].following_count = if c > 0 {
            c - 1
        } else {
            0
        };
        let c = self.users[ti].followers_count;
        self.users[ti].followers_count = if c > 0 {
            c - 1
        } else {
            0
        };
        proof {
            let s = old(self)@;
            let t = s.after_unfollow(follower_id, target_id);
            assert(self@.users =~= t.users) by {
                assert forall|i: int| 0 <= i < s.users.len() implies self@.users[i] == t.users[i] by {
                    lemma_user_index(s, i);
                }
            }
            assert(self@ == t);
        }
        Ok(())
    }

    /// Whether the edge `follower -> target` is recorded.
    pub fn is_following(&self, follower_id: u128, target_id: u128) -> (r: bool)
        ensures
            r == self@.is_following(follower_id, target_id),
    {
        self.find_follow(follower_id, target_id).is_some()
    }
}

} // verus!
