//! Ordering by use count: a stable sort that puts the most used entries
//! first and keeps entries with equal counts in the order they came.

use vstd::prelude::*;
use vstd::multiset::Multiset;

verus! {

broadcast use vstd::seq_lib::group_to_multiset_ensures;

/// An entry that carries a use count, read off its view.
pub trait Ranked: Sized + View {
    /// The use count of an entry with the given view.
    spec fn view_rank(v: Self::V) -> u32;

    /// The use count.
    fn use_count_of(&self) -> (r: u32)
        ensures
            r == Self::view_rank(self@),
    ;
}

/// The views of a list of ranked entries.
pub open spec fn ranked_views<T: Ranked>(s: Seq<T>) -> Seq<T::V> {
    s.map_values(|t: T| t@)
}

/// The rank function of `T`, on views.
pub open spec fn rank_of<T: Ranked>() -> spec_fn(T::V) -> u32 {
    |v: T::V| T::view_rank(v)
}

/// `x` inserted into `s` just after the last entry whose count is at least
/// its own.
pub open spec fn insert_ranked<A>(s: Seq<A>, x: A, key: spec_fn(A) -> u32) -> Seq<A>
    decreases s.len(),
{
    if s.len() == 0 {
        seq![x]
    } else if key(s.last()) >= key(x) {
        s.push(x)
    } else {
        insert_ranked(s.drop_last(), x, key).push(s.last())
    }
}

/// `s` ordered by decreasing count, entries with equal counts keeping their
/// order (a stable sort).
pub open spec fn rank_sorted<A>(s: Seq<A>, key: spec_fn(A) -> u32) -> Seq<A>
    decreases s.len(),
{
    if s.len() == 0 {
        s
    } else {
        insert_ranked(rank_sorted(s.drop_last(), key), s.last(), key)
    }
}

/// No entry is ranked below a later one.
pub open spec fn is_rank_ordered<A>(s: Seq<A>, key: spec_fn(A) -> u32) -> bool {
    forall|i: int, j: int| 0 <= i < j < s.len() ==> key(s[i]) >= key(s[j])
}

proof fn lemma_insert_ranked_at<A>(s: Seq<A>, x: A, key: spec_fn(A) -> u32, j: int)
    requires
        0 <= j <= s.len(),
        forall|k: int| j <= k < s.len() ==> key(s[k]) < key(x),
        j > 0 ==> key(s[j - 1]) >= key(x),
    ensures
        insert_ranked(s, x, key) == s.insert(j, x),
    decreases s.len(),
{
    if s.len() == 0 {
        assert(s.insert(j, x) =~= seq![x]);
    } else if j == s.len() {
        assert(s.insert(j, x) =~= s.push(x));
    } else {
        lemma_insert_ranked_at(s.drop_last(), x, key, j);
        assert(s.drop_last().insert(j, x).push(s.last()) =~= s.insert(j, x));
    }
}

proof fn lemma_insert_ranked_props<A>(s: Seq<A>, x: A, key: spec_fn(A) -> u32)
    requires
        is_rank_ordered(s, key),
    ensures
        is_rank_ordered(insert_ranked(s, x, key), key),
        insert_ranked(s, x, key).to_multiset() == s.to_multiset().insert(x),
        insert_ranked(s, x, key).len() == s.len() + 1,
    decreases s.len(),
{
    if s.len() == 0 {
        assert(seq![x] =~= Seq::<A>::empty().push(x));
        assert(Seq::<A>::empty().to_multiset() =~= Multiset::empty()) by {
            broadcast use vstd::multiset::group_multiset_axioms;
        }
    } else if key(s.last()) >= key(x) {
    } else {
        let t = s.drop_last();
        assert forall|i: int, j: int| 0 <= i < j < t.len() implies key(t[i]) >= key(t[j]) by {
            assert(t[i] == s[i] && t[j] == s[j]);
        }
        lemma_insert_ranked_props(t, x, key);
        let u = insert_ranked(t, x, key);
        assert forall|i: int| 0 <= i < u.len() implies key(u[i]) >= key(s.last()) by {
            assert(u.to_multiset().count(u[i]) > 0);
            assert(t.to_multiset().insert(x).count(u[i]) > 0);
            if u[i] != x {
                assert(t.to_multiset().count(u[i]) > 0);
                assert(t.contains(u[i]));
                let k = choose|k: int| 0 <= k < t.len() && t[k] == u[i];
                assert(s[k] == t[k]);
            }
        }
        assert(s =~= t.push(s.last()));
        broadcast use vstd::multiset::group_multiset_axioms;
        assert(u.push(s.last()).to_multiset() =~= s.to_multiset().insert(x));
    }
}

/// Sorting by rank orders the entries by decreasing count and keeps exactly
/// the same entries.
pub proof fn lemma_rank_sorted<A>(s: Seq<A>, key: spec_fn(A) -> u32)
    ensures
        is_rank_ordered(rank_sorted(s, key), key),
        rank_sorted(s, key).to_multiset() == s.to_multiset(),
        rank_sorted(s, key).len() == s.len(),
    decreases s.len(),
{
    if s.len() > 0 {
        lemma_rank_sorted(s.drop_last(), key);
        lemma_insert_ranked_props(rank_sorted(s.drop_last(), key), s.last(), key);
        assert(s =~= s.drop_last().push(s.last()));
    }
}

/// `v` ordered by decreasing use count; entries with equal counts keep their
/// order.
pub fn sort_by_rank<T: Ranked>(v: Vec<T>) -> (r: Vec<T>)
    ensures
        ranked_views(r@) == rank_sorted(ranked_views(v@), rank_of::<T>()),
{
    let ghost orig = v@;
    let ghost ov = ranked_views(orig);
    let ghost key = rank_of::<T>();
    let mut src = v;
    let mut out: Vec<T> = Vec::new();
    let mut i: usize = 0;
    let n = src.len();
    proof {
        assert(ov.take(0) =~= Seq::<T::V>::empty());
        assert(orig.skip(0) =~= orig);
        assert(ranked_views(out@) =~= Seq::<T::V>::empty());
    }
    while i < n
        invariant
            n == orig.len(),
            ov == ranked_views(orig),
            key == rank_of::<T>(),
            i <= n,
            src@ == orig.skip(i as int),
            ranked_views(out@) == rank_sorted(ov.take(i as int), key),
            is_rank_ordered(ranked_views(out@), key),
        decreases n - i,
    {
        proof {
            assert(src@.len() > 0);
        }
        let x = src.remove(0);
        let xr = x.use_count_of();
        let mut j = out.len();
        while j > 0 && out[j - 1].use_count_of() < xr
            invariant
                j <= out@.len(),
                key == rank_of::<T>(),
                xr == key(x@),
                forall|k: int| j <= k < out@.len() ==> key(ranked_views(out@)[k]) < key(x@),
            decreases j,
        {
            j = j - 1;
        }
        let ghost before = out@;
        proof {
            lemma_insert_ranked_at(ranked_views(out@), x@, key, j as int);
            lemma_insert_ranked_props(ranked_views(out@), x@, key);
            assert(ov.take(i + 1).drop_last() =~= ov.take(i as int));
            assert(x == orig[i as int]);
            assert(ov.take(i + 1).last() == x@);
            assert(src@ =~= orig.skip(i + 1));
        }
        out.insert(j, x);
        proof {
            assert(ranked_views(out@) =~= ranked_views(before).insert(j as int, x@));
        }
        i = i + 1;
    }
    proof {
        assert(ov.take(n as int) =~= ov);
    }
    out
}

} // verus!
