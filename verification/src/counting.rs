//! How the number of matching rows changes when a row is added or removed.

use vstd::prelude::*;

verus! {

/// The number of rows of `s` that satisfy `p`.
pub open spec fn count_where<A>(s: Seq<A>, p: spec_fn(A) -> bool) -> nat {
    s.filter(p).len()
}

/// Adding a row adds one to the count exactly when the row matches.
pub proof fn lemma_count_push<A>(s: Seq<A>, p: spec_fn(A) -> bool, row: A)
    ensures
        count_where(s.push(row), p) == count_where(s, p) + (if p(row) { 1int } else { 0int }),
{
    s.lemma_filter_len_push(p, row);
}

/// Removing a row takes one from the count exactly when the row matches.
pub proof fn lemma_count_remove<A>(s: Seq<A>, p: spec_fn(A) -> bool, k: int)
    requires
        0 <= k < s.len(),
    ensures
        count_where(s.remove(k), p) == count_where(s, p) - (if p(s[k]) { 1int } else { 0int }),
{
    let head = s.take(k);
    let tail = s.skip(k + 1);
    assert(s =~= head.push(s[k]) + tail);
    assert(s.remove(k) =~= head + tail);
    Seq::filter_distributes_over_add(head.push(s[k]), tail, p);
    Seq::filter_distributes_over_add(head, tail, p);
    head.lemma_filter_len_push(p, s[k]);
}

/// Where no row matches, the count is zero.
pub proof fn lemma_count_none<A>(s: Seq<A>, p: spec_fn(A) -> bool)
    requires
        forall|i: int| 0 <= i < s.len() ==> !p(#[trigger] s[i]),
    ensures
        count_where(s, p) == 0,
    decreases s.len(),
{
    if s.len() > 0 {
        let rest = s.drop_last();
        assert forall|i: int| 0 <= i < rest.len() implies !p(#[trigger] rest[i]) by {
            assert(rest[i] == s[i]);
        }
        lemma_count_none(rest, p);
        assert(s =~= rest.push(s.last()));
        lemma_count_push(rest, p, s.last());
    }
}

/// A matching row makes the count positive.
pub proof fn lemma_count_positive<A>(s: Seq<A>, p: spec_fn(A) -> bool, k: int)
    requires
        0 <= k < s.len(),
        p(s[k]),
    ensures
        count_where(s, p) >= 1,
{
    lemma_count_remove(s, p, k);
}

/// Dropping rows that do not match `p` leaves the count of `p` as it was.
pub proof fn lemma_count_kept<A>(s: Seq<A>, keep: spec_fn(A) -> bool, p: spec_fn(A) -> bool)
    requires
        forall|i: int| 0 <= i < s.len() && p(#[trigger] s[i]) ==> keep(s[i]),
    ensures
        count_where(s.filter(keep), p) == count_where(s, p),
    decreases s.len(),
{
    reveal(Seq::filter);
    if s.len() > 0 {
        let rest = s.drop_last();
        assert forall|i: int| 0 <= i < rest.len() && p(#[trigger] rest[i]) implies keep(rest[i]) by {
            assert(rest[i] == s[i]);
        }
        lemma_count_kept(rest, keep, p);
        assert(s =~= rest.push(s.last()));
        lemma_count_push(rest, p, s.last());
        if keep(s.last()) {
            lemma_count_push(rest.filter(keep), p, s.last());
        }
    }
}

/// Filtering a sequence one row longer: the last row is kept or dropped.
pub proof fn lemma_filter_step<A>(s: Seq<A>, keep: spec_fn(A) -> bool, i: int)
    requires
        0 <= i < s.len(),
    ensures
        s.take(i + 1).filter(keep) == if keep(s[i]) {
            s.take(i).filter(keep).push(s[i])
        } else {
            s.take(i).filter(keep)
        },
{
    reveal(Seq::filter);
    assert(s.take(i + 1).drop_last() =~= s.take(i));
}

/// A row that survives a filter was a row of the sequence, and satisfies the
/// filter. Answers where it was.
pub proof fn filter_witness<A>(s: Seq<A>, keep: spec_fn(A) -> bool, a: int) -> (i: int)
    requires
        0 <= a < s.filter(keep).len(),
    ensures
        0 <= i < s.len(),
        s[i] == s.filter(keep)[a],
        keep(s[i]),
    decreases s.len(),
{
    reveal(Seq::filter);
    let rest = s.drop_last();
    if keep(s.last()) && a == rest.filter(keep).len() {
        s.len() - 1
    } else {
        filter_witness(rest, keep, a)
    }
}

/// Two rows that survive a filter were rows of the sequence, in the same
/// order. Answers where they were.
pub proof fn filter_pair_witness<A>(s: Seq<A>, keep: spec_fn(A) -> bool, a: int, b: int) -> (w: (
    int,
    int,
))
    requires
        0 <= a < b < s.filter(keep).len(),
    ensures
        0 <= w.0 < w.1 < s.len(),
        s[w.0] == s.filter(keep)[a],
        s[w.1] == s.filter(keep)[b],
    decreases s.len(),
{
    reveal(Seq::filter);
    let rest = s.drop_last();
    if keep(s.last()) && b == rest.filter(keep).len() {
        let i = filter_witness(rest, keep, a);
        (i, s.len() - 1)
    } else {
        filter_pair_witness(rest, keep, a, b)
    }
}

/// A row that satisfies the filter survives it. Answers where it then is.
pub proof fn filter_position<A>(s: Seq<A>, keep: spec_fn(A) -> bool, i: int) -> (a: int)
    requires
        0 <= i < s.len(),
        keep(s[i]),
    ensures
        0 <= a < s.filter(keep).len(),
        s.filter(keep)[a] == s[i],
    decreases s.len(),
{
    reveal(Seq::filter);
    let rest = s.drop_last();
    if i == s.len() - 1 {
        rest.filter(keep).len() as int
    } else {
        filter_position(rest, keep, i)
    }
}

} // verus!
