//! The timeline assembler: read-only feeds computed from posts, follow edges
//! and like edges at the moment of the request.
//!
//! A feed shows its posts newest first. Two posts made at the same instant
//! are shown in the order of their identifiers, larger first, so that a feed
//! is determined by the state it is read from.

use vstd::prelude::*;
use crate::models::enriched;
use crate::models::Tweet;
use crate::models::TweetResponse;
use crate::models::TweetWithUser;
use crate::store::content::owned_by;
use crate::store::lemma_tweet_index;
use crate::store::lemma_user_index;
use crate::store::State;
use crate::store::Store;

verus! {

/// The largest number of posts a timeline shows.
pub const TIMELINE_CAP: usize = 50;

/// Whether a post made at `at_a` under identifier `id_a` is shown before one
/// made at `at_b` under `id_b`.
pub open spec fn shown_before(at_a: i64, id_a: u128, at_b: i64, id_b: u128) -> bool {
    at_a > at_b || (at_a == at_b && id_a > id_b)
}

/// Whether `order` names place `k` of a table.
pub open spec fn lists_place(order: Seq<usize>, k: int) -> bool {
    exists|a: int| 0 <= a < order.len() && (#[trigger] order[a]) as int == k
}

/// Whether post `a` is shown before post `b`.
pub open spec fn newer(a: Tweet, b: Tweet) -> bool {
    shown_before(a.created_at, a.id, b.created_at, b.id)
}

/// The posts a timeline of `viewer` draws from in state `s`: the viewer's
/// own, and those of the users the viewer follows.
pub open spec fn on_timeline(s: State, viewer: u128) -> spec_fn(Tweet) -> bool {
    |t: Tweet| t.user_id == viewer || s.is_following(viewer, t.user_id)
}

impl State {
    /// The public shape of post `t` as `viewer` sees it: its owner's public
    /// fields, and whether the viewer likes it. Without a viewer, nobody does.
    pub open spec fn response(self, viewer: Option<u128>, t: Tweet) -> TweetResponse {
        enriched(
            t,
            self.user_by_id(t.user_id).unwrap(),
            match viewer {
                Some(v) => self.is_liked(v, t.id),
                None => false,
            },
        )
    }

    /// Whether `r` is the feed of the posts that satisfy `wanted`, as
    /// `viewer` sees them, cut to the first `cap` where a cap is given.
    ///
    /// Every entry is a wanted post in its public shape; the entries are
    /// ordered newest first; and a wanted post is left out only where the
    /// feed is full and every entry is shown before it.
    pub open spec fn is_feed(
        self,
        wanted: spec_fn(Tweet) -> bool,
        viewer: Option<u128>,
        cap: Option<nat>,
        r: Seq<TweetResponse>,
    ) -> bool {
        &&& cap matches Some(c) ==> r.len() <= c
        &&& forall|i: int|
            0 <= i < r.len() ==> {
                &&& self.tweet_by_id((#[trigger] r[i]).id) matches Some(t)
                &&& wanted(t)
                &&& r[i] == self.response(viewer, t)
            }
        &&& forall|i: int, j: int|
            0 <= i < j < r.len() ==> shown_before(
                (#[trigger] r[i]).created_at,
                r[i].id,
                (#[trigger] r[j]).created_at,
                r[j].id,
            )
        &&& forall|k: int|
            0 <= k < self.tweets.len() && wanted(#[trigger] self.tweets[k]) ==> {
                ||| exists|i: int| 0 <= i < r.len() && (#[trigger] r[i]).id == self.tweets[k].id
                ||| cap == Some(r.len()) && forall|i: int|
                    0 <= i < r.len() ==> shown_before(
                        (#[trigger] r[i]).created_at,
                        r[i].id,
                        self.tweets[k].created_at,
                        self.tweets[k].id,
                    )
            }
    }

    /// Whether `r` is the timeline of `viewer`: the feed of the viewer's own
    /// posts and of those of the users the viewer follows, cut to 50.
    pub open spec fn is_timeline(self, viewer: u128, r: Seq<TweetResponse>) -> bool {
        self.is_feed(on_timeline(self, viewer), Some(viewer), Some(TIMELINE_CAP as nat), r)
    }

    /// Whether `r` is the public list of the posts of the user named
    /// `username`: all of them, newest first, none marked as liked. There is
    /// none where there is no such user.
    pub open spec fn is_user_posts(self, username: Seq<char>, r: Seq<TweetResponse>) -> bool {
        match self.user_by_username(username) {
            Some(u) => self.is_feed(owned_by(u.id), None, None, r),
            None => r.len() == 0,
        }
    }

    /// Whether `order` lists places in the post table, all different, newest
    /// post first.
    pub open spec fn is_ranking(self, order: Seq<usize>) -> bool {
        &&& forall|a: int| 0 <= a < order.len() ==> (#[trigger] order[a]) < self.tweets.len()
        &&& forall|a: int, b: int|
            0 <= a < b < order.len() ==> newer(
                self.tweets[(#[trigger] order[a]) as int],
                self.tweets[(#[trigger] order[b]) as int],
            )
    }
}

/// Of two different posts of a well-formed state, one is shown before the
/// other; and the order is transitive.
pub proof fn lemma_newer_total(s: State, a: int, b: int, c: int)
    requires
        s.tweets_wf(),
        0 <= a < s.tweets.len(),
        0 <= b < s.tweets.len(),
        0 <= c < s.tweets.len(),
    ensures
        a != b ==> (newer(s.tweets[a], s.tweets[b]) || newer(s.tweets[b], s.tweets[a])),
        !(newer(s.tweets[a], s.tweets[b]) && newer(s.tweets[b], s.tweets[a])),
        newer(s.tweets[a], s.tweets[b]) && newer(s.tweets[b], s.tweets[c]) ==> newer(
            s.tweets[a],
            s.tweets[c],
        ),
{
    if a < b {
        assert(s.tweets[a].id != s.tweets[b].id);
    } else if b < a {
        assert(s.tweets[b].id != s.tweets[a].id);
    }
}

/// A ranking of all wanted posts, cut to a cap and put in public shape, is
/// the feed of the wanted posts.
pub proof fn lemma_ranking_is_feed(
    s: State,
    wanted: spec_fn(Tweet) -> bool,
    viewer: Option<u128>,
    cap: Option<nat>,
    full: Seq<usize>,
    order: Seq<usize>,
    r: Seq<TweetResponse>,
)
    requires
        s.wf(),
        s.is_ranking(full),
        forall|a: int| 0 <= a < full.len() ==> wanted(s.tweets[(#[trigger] full[a]) as int]),
        forall|k: int|
            0 <= k < s.tweets.len() && wanted(#[trigger] s.tweets[k]) ==> lists_place(full, k),
        match cap {
            Some(c) => order == (if full.len() <= c {
                full
            } else {
                full.take(c as int)
            }),
            None => order == full,
        },
        r.len() == order.len(),
        forall|i: int|
            0 <= i < r.len() ==> (#[trigger] r[i]) == s.response(
                viewer,
                s.tweets[order[i] as int],
            ),
    ensures
        s.is_feed(wanted, viewer, cap, r),
{
    assert forall|i: int| 0 <= i < r.len() implies {
        &&& s.tweet_by_id((#[trigger] r[i]).id) matches Some(t)
        &&& wanted(t)
        &&& r[i] == s.response(viewer, t)
    } by {
        assert(order[i] == full[i]);
        lemma_tweet_index(s, order[i] as int);
    }
    assert forall|i: int, j: int| 0 <= i < j < r.len() implies shown_before(
        (#[trigger] r[i]).created_at,
        r[i].id,
        (#[trigger] r[j]).created_at,
        r[j].id,
    ) by {
        assert(order[i] == full[i] && order[j] == full[j]);
    }
    assert forall|k: int| 0 <= k < s.tweets.len() && wanted(#[trigger] s.tweets[k]) implies {
        ||| exists|i: int| 0 <= i < r.len() && (#[trigger] r[i]).id == s.tweets[k].id
        ||| cap == Some(r.len()) && forall|i: int|
            0 <= i < r.len() ==> shown_before(
                (#[trigger] r[i]).created_at,
                r[i].id,
                s.tweets[k].created_at,
                s.tweets[k].id,
            )
    } by {
        assert(lists_place(full, k));
        let a = choose|a: int| 0 <= a < full.len() && full[a] as int == k;
        if a < order.len() {
            assert(order[a] == full[a]);
            assert(r[a].id == s.tweets[k].id);
        } else {
            assert forall|i: int| 0 <= i < r.len() implies shown_before(
                (#[trigger] r[i]).created_at,
                r[i].id,
                s.tweets[k].created_at,
                s.tweets[k].id,
            ) by {
                assert(order[i] == full[i]);
                assert(newer(s.tweets[full[i] as int], s.tweets[full[a] as int]));
            }
        }
    }
}

/// Whether post `a` is shown before post `b`.
pub fn is_newer(a: &Tweet, b: &Tweet) -> (r: bool)
    ensures
        r == newer(*a, *b),
{
    a.created_at > b.created_at || (a.created_at == b.created_at && a.id > b.id)
}

impl Store {
    /// The places of the posts a timeline of `viewer` draws from, ascending.
    fn timeline_candidates(&self, viewer: u128) -> (c: Vec<usize>)
        ensures
            forall|a: int|
                0 <= a < c.len() ==> (#[trigger] c[a]) < self@.tweets.len() && on_timeline(
                    self@,
                    viewer,
                )(self@.tweets[c[a] as int]),
            forall|a: int, b: int| 0 <= a < b < c.len() ==> (#[trigger] c[a]) < (#[trigger] c[b]),
            forall|k: int|
                0 <= k < self@.tweets.len() && on_timeline(self@, viewer)(
                    #[trigger] self@.tweets[k],
                ) ==> lists_place(c@, k),
    {
        let mut c: Vec<usize> = Vec::new();
        let mut k: usize = 0;
        while k < self.tweets.len()
            invariant
                k <= self.tweets.len(),
                forall|a: int|
                    0 <= a < c.len() ==> (#[trigger] c[a]) < k && on_timeline(self@, viewer)(
                        self@.tweets[c[a] as int],
                    ),
                forall|a: int, b: int|
                    0 <= a < b < c.len() ==> (#[trigger] c[a]) < (#[trigger] c[b]),
                forall|m: int|
                    0 <= m < k && on_timeline(self@, viewer)(#[trigger] self@.tweets[m])
                        ==> lists_place(c@, m),
            decreases self.tweets.len() - k,
        {
            let owner = self.tweets[k].user_id;
            if owner == viewer || self.find_follow(viewer, owner).is_some() {
                let ghost before = c@;
                c.push(k);
                proof {
                    assert forall|m: int|
                        0 <= m < k + 1 && on_timeline(self@, viewer)(
                            #[trigger] self@.tweets[m],
                        ) implies lists_place(c@, m) by {
                        if m < k {
                            assert(lists_place(before, m));
                            let a = choose|a: int| 0 <= a < before.len() && before[a] as int == m;
                            assert(c@[a] as int == m);
                        } else {
                            assert(c@[c.len() - 1] as int == m);
                        }
                    }
                }
            }
            k = k + 1;
        }
        c
    }

    /// The places of the posts owned by `owner`, ascending.
    fn owner_candidates(&self, owner: u128) -> (c: Vec<usize>)
        ensures
            forall|a: int|
                0 <= a < c.len() ==> (#[trigger] c[a]) < self@.tweets.len() && owned_by(owner)(
                    self@.tweets[c[a] as int],
                ),
            forall|a: int, b: int| 0 <= a < b < c.len() ==> (#[trigger] c[a]) < (#[trigger] c[b]),
            forall|k: int|
                0 <= k < self@.tweets.len() && owned_by(owner)(#[trigger] self@.tweets[k])
                    ==> lists_place(c@, k),
    {
        let mut c: Vec<usize> = Vec::new();
        let mut k: usize = 0;
        while k < self.tweets.len()
            invariant
                k <= self.tweets.len(),
                forall|a: int|
                    0 <= a < c.len() ==> (#[trigger] c[a]) < k && owned_by(owner)(
                        self@.tweets[c[a] as int],
                    ),
                forall|a: int, b: int|
                    0 <= a < b < c.len() ==> (#[trigger] c[a]) < (#[trigger] c[b]),
                forall|m: int|
                    0 <= m < k && owned_by(owner)(#[trigger] self@.tweets[m]) ==> lists_place(
                        c@,
                        m,
                    ),
            decreases self.tweets.len() - k,
        {
            if self.tweets[k].user_id == owner {
                let ghost before = c@;
                c.push(k);
                proof {
                    assert forall|m: int|
                        0 <= m < k + 1 && owned_by(owner)(
                            #[trigger] self@.tweets[m],
                        ) implies lists_place(c@, m) by {
                        if m < k {
                            assert(lists_place(before, m));
                            let a = choose|a: int| 0 <= a < before.len() && before[a] as int == m;
                            assert(c@[a] as int == m);
                        } else {
                            assert(c@[c.len() - 1] as int == m);
                        }
                    }
                }
            }
            k = k + 1;
        }
        c
    }

    /// Orders places in the post table newest post first.
    fn rank(&self, cand: &Vec<usize>) -> (out: Vec<usize>)
        requires
            self.wf(),
            forall|a: int| 0 <= a < cand.len() ==> (#[trigger] cand[a]) < self@.tweets.len(),
            forall|a: int, b: int|
                0 <= a < b < cand.len() ==> (#[trigger] cand[a]) != (#[trigger] cand[b]),
        ensures
            self@.is_ranking(out@),
            forall|a: int| 0 <= a < out.len() ==> cand@.contains(#[trigger] out[a]),
            forall|b: int| 0 <= b < cand.len() ==> out@.contains(#[trigger] cand[b]),
    {
        let mut out: Vec<usize> = Vec::new();
        let mut n: usize = 0;
        while n < cand.len()
            invariant
                n <= cand.len(),
                self.wf(),
                forall|a: int| 0 <= a < cand.len() ==> (#[trigger] cand[a]) < self@.tweets.len(),
                forall|a: int, b: int|
                    0 <= a < b < cand.len() ==> (#[trigger] cand[a]) != (#[trigger] cand[b]),
                self@.is_ranking(out@),
                forall|a: int|
                    0 <= a < out.len() ==> exists|b: int|
                        0 <= b < n && (#[trigger] cand[b]) == #[trigger] out[a],
                forall|b: int| 0 <= b < n ==> out@.contains(#[trigger] cand[b]),
            decreases cand.len() - n,
        {
            let k = cand[n];
            let mut p: usize = 0;
            while p < out.len() && is_newer(&self.tweets[out[p]], &self.tweets[k])
                invariant
                    p <= out.len(),
                    k < self@.tweets.len(),
                    self@.is_ranking(out@),
                    forall|a: int|
                        0 <= a < p ==> newer(
                            self@.tweets[(#[trigger] out[a]) as int],
                            self@.tweets[k as int],
                        ),
                decreases out.len() - p,
            {
                p = p + 1;
            }
            let ghost before = out@;
            proof {
                assert forall|b: int| p <= b < before.len() implies newer(
                    self@.tweets[k as int],
                    self@.tweets[(#[trigger] before[b]) as int],
                ) by {
                    let w = choose|w: int| 0 <= w < n && cand[w] == before[p as int];
                    assert(cand[w] != cand[n as int]);
                    lemma_newer_total(self@, k as int, before[p as int] as int, before[b] as int);
                }
            }
            out.insert(p, k);
            proof {
                assert forall|a: int| 0 <= a < out.len() implies exists|b: int|
                    0 <= b < n + 1 && (#[trigger] cand[b]) == #[trigger] out[a] by {
                    if a < p {
                        assert(out[a] == before[a]);
                        let w = choose|w: int| 0 <= w < n && cand[w] == before[a];
                        assert(cand[w] == out[a]);
                    } else if a == p {
                        assert(cand[n as int] == out[a]);
                    } else {
                        assert(out[a] == before[a - 1]);
                        let w = choose|w: int| 0 <= w < n && cand[w] == before[a - 1];
                        assert(cand[w] == out[a]);
                    }
                }
                assert forall|b: int| 0 <= b < n + 1 implies out@.contains(#[trigger] cand[b]) by {
                    if b < n {
                        assert(before.contains(cand[b]));
                        let a = choose|a: int| 0 <= a < before.len() && before[a] == cand[b];
                        if a < p {
                            assert(out@[a] == cand[b]);
                        } else {
                            assert(out@[a + 1] == cand[b]);
                        }
                    } else {
                        assert(out@[p as int] == cand[b]);
                    }
                }
                assert(self@.is_ranking(out@)) by {
                    assert forall|a: int| 0 <= a < out.len() implies (#[trigger] out@[a])
                        < self@.tweets.len() by {
                        if a < p {
                            assert(out@[a] == before[a]);
                        } else if a > p {
                            assert(out@[a] == before[a - 1]);
                        }
                    }
                    assert forall|a: int, b: int| 0 <= a < b < out.len() implies newer(
                        self@.tweets[(#[trigger] out@[a]) as int],
                        self@.tweets[(#[trigger] out@[b]) as int],
                    ) by {
                        let x = if a < p {
                            before[a]
                        } else if a == p {
                            k
                        } else {
                            before[a - 1]
                        };
                        let y = if b < p {
                            before[b]
                        } else if b == p {
                            k
                        } else {
                            before[b - 1]
                        };
                        assert(out@[a] == x && out@[b] == y);
                    }
                }
            }
            n = n + 1;
        }
        proof {
            assert forall|a: int| 0 <= a < out.len() implies cand@.contains(#[trigger] out[a]) by {
                let w = choose|w: int| 0 <= w < n && cand[w] == out[a];
                assert(cand@[w] == out[a]);
            }
        }
        out
    }

    /// Puts the posts at the places `order` in public shape, as `viewer`
    /// sees them.
    fn render(&self, order: &Vec<usize>, viewer: Option<u128>) -> (r: Vec<TweetResponse>)
        requires
            self.wf(),
            forall|a: int| 0 <= a < order.len() ==> (#[trigger] order[a]) < self@.tweets.len(),
        ensures
            r.len() == order.len(),
            forall|i: int|
                0 <= i < r.len() ==> (#[trigger] r[i]) == self@.response(
                    viewer,
                    self@.tweets[order[i] as int],
                ),
    {
        let mut r: Vec<TweetResponse> = Vec::new();
        let mut i: usize = 0;
        while i < order.len()
            invariant
                i <= order.len(),
                self.wf(),
                forall|a: int| 0 <= a < order.len() ==> (#[trigger] order[a]) < self@.tweets.len(),
                r.len() == i,
                forall|j: int|
                    0 <= j < i ==> (#[trigger] r[j]) == self@.response(
                        viewer,
                        self@.tweets[order[j] as int],
                    ),
            decreases order.len() - i,
        {
            let tweet = &self.tweets[order[i]];
            let is_liked = match viewer {
                Some(v) => self.find_like(v, tweet.id).is_some(),
                None => false,
            };
            let ui = self.place_of_user(tweet.user_id);
            proof {
                lemma_user_index(self@, ui as int);
            }
            let row = TweetWithUser::join(tweet, &self.users[ui]);
            r.push(TweetResponse::from_row(row, is_liked));
            i = i + 1;
        }
        r
    }

    /// The timeline of `viewer`: the viewer's own posts and those of the
    /// users the viewer follows, newest first, at most 50, each with its
    /// owner's public fields and with whether the viewer likes it.
    pub fn timeline(&self, viewer: u128) -> (r: Vec<TweetResponse>)
        requires
            self.wf(),
        ensures
            self@.is_timeline(viewer, r@),
    {
        let cand = self.timeline_candidates(viewer);
        let mut order = self.rank(&cand);
        let ghost full = order@;
        if order.len() > TIMELINE_CAP {
            order.truncate(TIMELINE_CAP);
        }
        let r = self.render(&order, Some(viewer));
        proof {
            assert(order@ == if full.len() <= TIMELINE_CAP {
                full
            } else {
                full.take(TIMELINE_CAP as int)
            });
            assert forall|a: int| 0 <= a < full.len() implies on_timeline(self@, viewer)(
                self@.tweets[(#[trigger] full[a]) as int],
            ) by {
                let b = choose|b: int| 0 <= b < cand.len() && cand@[b] == full[a];
                assert(cand[b] == full[a]);
            }
            assert forall|k: int|
                0 <= k < self@.tweets.len() && on_timeline(self@, viewer)(
                    #[trigger] self@.tweets[k],
                ) implies lists_place(full, k) by {
                assert(lists_place(cand@, k));
                let b = choose|b: int| 0 <= b < cand.len() && cand@[b] as int == k;
                assert(full.contains(cand[b]));
                let a = choose|a: int| 0 <= a < full.len() && full[a] == cand[b];
                assert(full[a] as int == k);
            }
            lemma_ranking_is_feed(
                self@,
                on_timeline(self@, viewer),
                Some(viewer),
                Some(TIMELINE_CAP as nat),
                full,
                order@,
                r@,
            );
        }
        r
    }

    /// The public list of the posts of the user named `username`: all of
    /// them, newest first, none marked as liked.
    pub fn user_posts(&self, username: &str) -> (r: Vec<TweetResponse>)
        requires
            self.wf(),
        ensures
            self@.is_user_posts(username@, r@),
    {
        let owner = match self.find_username(username) {
            Some(i) => {
                proof {
                    lemma_user_index(self@, i as int);
                }
                self.users[i].id
            },
            None => {
                return Vec::new();
            },
        };
        let cand = self.owner_candidates(owner);
        let order = self.rank(&cand);
        let r = self.render(&order, None);
        proof {
            let full = order@;
            assert forall|a: int| 0 <= a < full.len() implies owned_by(owner)(
                self@.tweets[(#[trigger] full[a]) as int],
            ) by {
                let b = choose|b: int| 0 <= b < cand.len() && cand@[b] == full[a];
                assert(cand[b] == full[a]);
            }
            assert forall|k: int|
                0 <= k < self@.tweets.len() && owned_by(owner)(
                    #[trigger] self@.tweets[k],
                ) implies lists_place(full, k) by {
                assert(lists_place(cand@, k));
                let b = choose|b: int| 0 <= b < cand.len() && cand@[b] as int == k;
                assert(full.contains(cand[b]));
                let a = choose|a: int| 0 <= a < full.len() && full[a] == cand[b];
                assert(full[a] as int == k);
            }
            lemma_ranking_is_feed(self@, owned_by(owner), None, None, full, full, r@);
        }
        r
    }
}

} // verus!
