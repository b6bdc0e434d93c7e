use vstd::prelude::*;

verus! {

/// `x` placed before the first element of `s` that it must precede.
pub open spec fn insert_by<T>(s: Seq<T>, x: T, before: spec_fn(T, T) -> bool) -> Seq<T>
    decreases s.len(),
{
    if s.len() == 0 {
        seq![x]
    } else if before(x, s[0]) {
        seq![x] + s
    } else {
        seq![s[0]] + insert_by(s.drop_first(), x, before)
    }
}

/// Stable sort: each element in turn inserted after those it does not precede.
pub open spec fn sort_by<T>(s: Seq<T>, before: spec_fn(T, T) -> bool) -> Seq<T>
    decreases s.len(),
{
    if s.len() == 0 {
        seq![]
    } else {
        insert_by(sort_by(s.drop_last(), before), s.last(), before)
    }
}

/// Where insertion puts `x`: after the longest prefix that `x` does not precede.
pub proof fn lemma_insert_at<T>(s: Seq<T>, x: T, before: spec_fn(T, T) -> bool, j: int)
    requires
        0 <= j <= s.len(),
        forall|t: int| 0 <= t < j ==> !before(x, #[trigger] s[t]),
        j == s.len() || before(x, s[j]),
    ensures
        insert_by(s, x, before) == s.take(j) + seq![x] + s.skip(j),
    decreases j,
{
    if j == 0 {
        if s.len() == 0 {
            assert(s.take(0) + seq![x] + s.skip(0) =~= seq![x]);
        } else {
            assert(s.take(0) + seq![x] + s.skip(0) =~= seq![x] + s);
        }
    } else {
        let t = s.drop_first();
        assert forall|k: int| 0 <= k < j - 1 implies !before(x, #[trigger] t[k]) by {
            assert(t[k] == s[k + 1]);
        }
        if j < s.len() {
            assert(t[j - 1] == s[j]);
        }
        assert(!before(x, s[0]));
        lemma_insert_at(t, x, before, j - 1);
        assert(seq![s[0]] + (t.take(j - 1) + seq![x] + t.skip(j - 1)) =~= s.take(j) + seq![x] + s.skip(j));
    }
}

/// A sequence in which no element must precede an earlier one.
pub open spec fn sorted_by<T>(s: Seq<T>, before: spec_fn(T, T) -> bool) -> bool {
    forall|i: int, j: int| 0 <= i < j < s.len() ==> !before(#[trigger] s[j], #[trigger] s[i])
}

/// An irreflexive, transitive relation.
pub open spec fn strict_order<T>(before: spec_fn(T, T) -> bool) -> bool {
    &&& forall|a: T| !#[trigger] before(a, a)
    &&& forall|a: T, b: T, c: T| #[trigger] before(a, b) && #[trigger] before(b, c) ==> before(a, c)
}

proof fn lemma_insert_sorted<T>(s: Seq<T>, x: T, before: spec_fn(T, T) -> bool)
    requires
        strict_order(before),
        sorted_by(s, before),
    ensures
        sorted_by(insert_by(s, x, before), before),
        insert_by(s, x, before).to_multiset() == s.to_multiset().insert(x),
    decreases s.len(),
{
    broadcast use vstd::seq_lib::group_seq_properties;

    let r = insert_by(s, x, before);
    if s.len() == 0 {
        assert(r.to_multiset() =~= s.to_multiset().insert(x));
    } else if before(x, s[0]) {
        assert(r == seq![x] + s);
        assert forall|i: int, j: int| 0 <= i < j < r.len() implies !before(#[trigger] r[j], #[trigger] r[i]) by {
            if i == 0 {
                assert(r[j] == s[j - 1]);
                if before(s[j - 1], x) {
                    assert(before(s[j - 1], s[0]));
                    if j - 1 > 0 {
                        assert(!before(s[j - 1], s[0]));
                    } else {
                        assert(!before(s[0], s[0]));
                    }
                }
            } else {
                assert(r[i] == s[i - 1] && r[j] == s[j - 1]);
            }
        }
        vstd::seq_lib::lemma_multiset_commutative(seq![x], s);
        assert(r.to_multiset() =~= s.to_multiset().insert(x));
    } else {
        let t = s.drop_first();
        assert(sorted_by(t, before)) by {
            assert forall|i: int, j: int| 0 <= i < j < t.len() implies !before(#[trigger] t[j], #[trigger] t[i]) by {
                assert(t[i] == s[i + 1] && t[j] == s[j + 1]);
            }
        }
        lemma_insert_sorted(t, x, before);
        let u = insert_by(t, x, before);
        assert(r == seq![s[0]] + u);
        assert forall|k: int| 0 <= k < u.len() implies !before(#[trigger] u[k], s[0]) by {
            assert(u.contains(u[k]));
            assert(u.to_multiset().count(u[k]) > 0);
            assert(t.to_multiset().insert(x).count(u[k]) > 0);
            if u[k] != x {
                assert(t.to_multiset().count(u[k]) > 0);
                assert(t.contains(u[k]));
                let m = choose|m: int| 0 <= m < t.len() && t[m] == u[k];
                assert(t[m] == s[m + 1]);
            }
        }
        assert forall|i: int, j: int| 0 <= i < j < r.len() implies !before(#[trigger] r[j], #[trigger] r[i]) by {
            if i == 0 {
                assert(r[j] == u[j - 1]);
            } else {
                assert(r[i] == u[i - 1] && r[j] == u[j - 1]);
            }
        }
        vstd::seq_lib::lemma_multiset_commutative(seq![s[0]], u);
        vstd::seq_lib::lemma_multiset_commutative(seq![s[0]], t);
        assert(s == seq![s[0]] + t);
        assert(r.to_multiset() =~= s.to_multiset().insert(x));
    }
}

/// A stable sort by a strict order yields a sorted permutation of its input.
pub proof fn lemma_sort_by<T>(s: Seq<T>, before: spec_fn(T, T) -> bool)
    requires
        strict_order(before),
    ensures
        sorted_by(sort_by(s, before), before),
        sort_by(s, before).to_multiset() == s.to_multiset(),
    decreases s.len(),
{
    if s.len() == 0 {
        assert(sort_by(s, before).to_multiset() =~= s.to_multiset()) by {
            broadcast use vstd::seq_lib::group_seq_properties;
        }
    } else {
        lemma_sort_by(s.drop_last(), before);
        lemma_insert_sorted(sort_by(s.drop_last(), before), s.last(), before);
        assert(s.to_multiset() =~= s.drop_last().to_multiset().insert(s.last())) by {
            broadcast use vstd::seq_lib::group_seq_properties;
            assert(s == s.drop_last().push(s.last()));
        }
    }
}

} // verus!
