//! Stable sorting by a total preorder, and the lexicographic order of text.
use vstd::prelude::*;

use crate::text::chars_of;

verus! {

broadcast use vstd::seq_lib::group_to_multiset_ensures;

/// A total preorder to sort by.
pub trait SortKey: Sized {
    /// `self` may come before `other`.
    spec fn le_spec(&self, other: &Self) -> bool;

    proof fn lemma_le_total(a: &Self, b: &Self)
        ensures
            a.le_spec(b) || b.le_spec(a),
    ;

    proof fn lemma_le_trans(a: &Self, b: &Self, c: &Self)
        requires
            a.le_spec(b),
            b.le_spec(c),
        ensures
            a.le_spec(c),
    ;

    fn key_le(&self, other: &Self) -> (r: bool)
        ensures
            r == self.le_spec(other),
    ;
}

/// Every element may come before every later one.
pub open spec fn sorted<T: SortKey>(s: Seq<T>) -> bool {
    forall|i: int, j: int| 0 <= i < j < s.len() ==> s[i].le_spec(&s[j])
}

/// Where `x` goes in `r`: after the leading elements that may come before it.
pub open spec fn insert_pos<T: SortKey>(r: Seq<T>, x: T) -> int
    decreases r.len(),
{
    if r.len() == 0 {
        0
    } else if !r[0].le_spec(&x) {
        0
    } else {
        1 + insert_pos(r.drop_first(), x)
    }
}

/// Stable insertion sort: each element, in order, goes after everything
/// already placed that may come before it.
pub open spec fn sort_spec<T: SortKey>(s: Seq<T>) -> Seq<T>
    decreases s.len(),
{
    if s.len() == 0 {
        s
    } else {
        let r = sort_spec(s.drop_last());
        r.insert(insert_pos(r, s.last()), s.last())
    }
}

proof fn lemma_insert_pos<T: SortKey>(r: Seq<T>, x: T)
    ensures
        0 <= insert_pos(r, x) <= r.len(),
        forall|j: int| 0 <= j < insert_pos(r, x) ==> r[j].le_spec(&x),
        insert_pos(r, x) < r.len() ==> !r[insert_pos(r, x)].le_spec(&x),
    decreases r.len(),
{
    if r.len() > 0 && r[0].le_spec(&x) {
        lemma_insert_pos(r.drop_first(), x);
        assert forall|j: int| 0 <= j < insert_pos(r, x) implies r[j].le_spec(&x) by {
            if j > 0 {
                assert(r[j] == r.drop_first()[j - 1]);
            }
        }
    }
}

/// The sort's result is ordered and holds the same elements.
pub proof fn lemma_sort_spec<T: SortKey>(s: Seq<T>)
    ensures
        sorted(sort_spec(s)),
        sort_spec(s).to_multiset() == s.to_multiset(),
        sort_spec(s).len() == s.len(),
    decreases s.len(),
{
    if s.len() > 0 {
        let r = sort_spec(s.drop_last());
        let x = s.last();
        lemma_sort_spec(s.drop_last());
        lemma_insert_pos(r, x);
        let p = insert_pos(r, x);
        let t = r.insert(p, x);
        assert forall|i: int, j: int| 0 <= i < j < t.len() implies t[i].le_spec(&t[j]) by {
            if j < p {
            } else if j == p {
            } else if i < p {
                assert(t[j] == r[j - 1]);
            } else if i == p {
                assert(t[j] == r[j - 1]);
                T::lemma_le_total(&r[p], &x);
                if j - 1 > p {
                    T::lemma_le_trans(&x, &r[p], &r[j - 1]);
                }
            } else {
                assert(t[i] == r[i - 1] && t[j] == r[j - 1]);
            }
        }
        vstd::seq_lib::to_multiset_insert(r, p, x);
        assert(s =~= s.drop_last().push(x));
        vstd::seq_lib::to_multiset_build(s.drop_last(), x);
    }
}

/// The sort's result is sorted.
pub proof fn lemma_sort_sorted<T: SortKey>(s: Seq<T>)
    ensures
        sorted(sort_spec(s)),
{
    lemma_sort_spec(s);
}

/// Where `x` goes among the already sorted `out`.
fn find_pos<T: SortKey>(out: &Vec<T>, x: &T) -> (p: usize)
    ensures
        p == insert_pos(out@, *x),
{
    let mut p: usize = 0;
    proof {
        assert(out@.skip(0) =~= out@);
    }
    while p < out.len() && out[p].key_le(x)
        invariant
            p <= out@.len(),
            insert_pos(out@, *x) == p + insert_pos(out@.skip(p as int), *x),
        decreases out@.len() - p,
    {
        assert(out@.skip(p as int).drop_first() =~= out@.skip(p + 1));
        p = p + 1;
    }
    p
}

/// Stable sort of `v` by the key's order.
pub fn stable_sort<T: SortKey>(v: Vec<T>) -> (r: Vec<T>)
    ensures
        r@ == sort_spec(v@),
        sorted(r@),
        r@.to_multiset() == v@.to_multiset(),
{
    let ghost orig = v@;
    let mut input = v;
    let mut out: Vec<T> = Vec::new();
    let mut k: usize = 0;
    let n = input.len();
    assert(orig.len() == n);
    assert(orig.take(0) =~= Seq::<T>::empty());
    assert(orig.skip(0) =~= orig);
    while input.len() > 0
        invariant
            k <= orig.len(),
            k + input@.len() == orig.len(),
            orig.len() <= usize::MAX,
            input@ == orig.skip(k as int),
            out@ == sort_spec(orig.take(k as int)),
        decreases input@.len(),
    {
        let x = input.remove(0);
        let p = find_pos(&out, &x);
        proof {
            lemma_insert_pos(out@, x);
        }
        out.insert(p, x);
        proof {
            assert(orig.take(k + 1).drop_last() =~= orig.take(k as int));
            assert(orig.take(k + 1).last() == x);
            assert(input@ =~= orig.skip(k + 1));
        }
        k = k + 1;
    }
    assert(orig.take(k as int) =~= orig);
    proof {
        lemma_sort_spec(orig);
    }
    out
}

/// Lexicographic order of character sequences (by code point, as std
/// orders strings).
pub open spec fn lex_le(a: Seq<char>, b: Seq<char>) -> bool
    decreases a.len(),
{
    if a.len() == 0 {
        true
    } else if b.len() == 0 {
        false
    } else if a[0] != b[0] {
        a[0] < b[0]
    } else {
        lex_le(a.drop_first(), b.drop_first())
    }
}

pub proof fn lemma_lex_total(a: Seq<char>, b: Seq<char>)
    ensures
        lex_le(a, b) || lex_le(b, a),
    decreases a.len(),
{
    if a.len() > 0 && b.len() > 0 {
        if a[0] == b[0] {
            lemma_lex_total(a.drop_first(), b.drop_first());
        }
    }
}

pub proof fn lemma_lex_trans(a: Seq<char>, b: Seq<char>, c: Seq<char>)
    requires
        lex_le(a, b),
        lex_le(b, c),
    ensures
        lex_le(a, c),
    decreases a.len(),
{
    if a.len() > 0 && b.len() > 0 && c.len() > 0 && a[0] == b[0] && b[0] == c[0] {
        lemma_lex_trans(a.drop_first(), b.drop_first(), c.drop_first());
    }
}

/// Whether `a` comes no later than `b` lexicographically.
pub fn str_lex_le(a: &str, b: &str) -> (r: bool)
    ensures
        r == lex_le(a@, b@),
{
    let ca = chars_of(a);
    let cb = chars_of(b);
    let mut i: usize = 0;
    assert(a@.skip(0) =~= a@);
    assert(b@.skip(0) =~= b@);
    while i < ca.len() && i < cb.len() && ca[i] == cb[i]
        invariant
            ca@ == a@,
            cb@ == b@,
            i <= ca@.len(),
            i <= cb@.len(),
            lex_le(a@, b@) == lex_le(a@.skip(i as int), b@.skip(i as int)),
        decreases ca@.len() - i,
    {
        assert(a@.skip(i as int).drop_first() =~= a@.skip(i + 1));
        assert(b@.skip(i as int).drop_first() =~= b@.skip(i + 1));
        i = i + 1;
    }
    if i == ca.len() {
        true
    } else if i == cb.len() {
        false
    } else {
        ca[i] < cb[i]
    }
}

} // verus!
