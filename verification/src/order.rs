//! The order of entries: paths compared byte by byte, a proper prefix first.

use vstd::prelude::*;
use vstd::multiset::Multiset;
use crate::dir_entry::DirEntry;

verus! {

/// `a` comes strictly before `b` when both are read from index `i` on.
pub open spec fn lex_lt_from(a: Seq<u8>, b: Seq<u8>, i: int) -> bool
    decreases b.len() - i,
{
    if i < 0 || i >= b.len() {
        false
    } else if i >= a.len() {
        true
    } else if a[i] != b[i] {
        a[i] < b[i]
    } else {
        lex_lt_from(a, b, i + 1)
    }
}

/// `a` comes strictly before `b` in lexicographic byte order.
pub open spec fn lex_lt(a: Seq<u8>, b: Seq<u8>) -> bool {
    lex_lt_from(a, b, 0)
}

/// Entry `a` sorts strictly before entry `b`.
pub open spec fn path_lt(a: DirEntry, b: DirEntry) -> bool {
    lex_lt(a.key(), b.key())
}

/// No entry is followed, anywhere later, by one that sorts strictly before it.
pub open spec fn sorted_by_path(s: Seq<DirEntry>) -> bool {
    forall|i: int, j: int| 0 <= i < j < s.len() ==> !path_lt(#[trigger] s[j], #[trigger] s[i])
}

/// The first index at or after `from` whose entry does not sort before `e`.
pub open spec fn insertion_point(s: Seq<DirEntry>, e: DirEntry, from: int) -> int
    decreases s.len() - from,
{
    if from < 0 || from >= s.len() || !path_lt(s[from], e) {
        from
    } else {
        insertion_point(s, e, from + 1)
    }
}

/// `s` with `e` placed before the first entry that does not sort before it.
pub open spec fn insert_sorted(s: Seq<DirEntry>, e: DirEntry) -> Seq<DirEntry> {
    s.insert(insertion_point(s, e, 0), e)
}

/// The entries of `s` in path order; entries with equal paths keep their
/// relative order.
pub open spec fn sort_by_path(s: Seq<DirEntry>) -> Seq<DirEntry>
    decreases s.len(),
{
    if s.len() == 0 {
        Seq::empty()
    } else {
        insert_sorted(sort_by_path(s.skip(1)), s[0])
    }
}

/// If `a` comes before `b`, then `b` does not come before `a`.
pub proof fn lemma_lex_asymmetric(a: Seq<u8>, b: Seq<u8>, i: int)
    requires
        lex_lt_from(a, b, i),
    ensures
        !lex_lt_from(b, a, i),
    decreases b.len() - i,
{
    if i < a.len() && a[i] == b[i] {
        lemma_lex_asymmetric(a, b, i + 1);
    }
}

/// If `a` comes before `c`, then any `b` has `a` before it or comes before `c`.
pub proof fn lemma_lex_between(a: Seq<u8>, b: Seq<u8>, c: Seq<u8>, i: int)
    requires
        lex_lt_from(a, c, i),
    ensures
        lex_lt_from(a, b, i) || lex_lt_from(b, c, i),
    decreases c.len() - i,
{
    if i < a.len() && i < b.len() && a[i] == c[i] && a[i] == b[i] {
        lemma_lex_between(a, b, c, i + 1);
    }
}

/// Two byte strings neither of which comes before the other are equal.
pub proof fn lemma_lex_total(a: Seq<u8>, b: Seq<u8>)
    requires
        !lex_lt(a, b),
        !lex_lt(b, a),
    ensures
        a == b,
{
    lemma_lex_total_from(a, b, 0);
    assert(a =~= b);
}

proof fn lemma_lex_total_from(a: Seq<u8>, b: Seq<u8>, i: int)
    requires
        0 <= i <= a.len(),
        i <= b.len(),
        !lex_lt_from(a, b, i),
        !lex_lt_from(b, a, i),
    ensures
        a.len() == b.len(),
        forall|k: int| i <= k < a.len() ==> a[k] == b[k],
    decreases a.len() - i,
{
    if i < a.len() && i < b.len() {
        lemma_lex_total_from(a, b, i + 1);
    }
}

/// The insertion point lies within bounds, everything before it sorts
/// before `e`, and the entry at it, if any, does not.
pub proof fn lemma_insertion_point(s: Seq<DirEntry>, e: DirEntry, from: int)
    requires
        0 <= from <= s.len(),
    ensures
        from <= insertion_point(s, e, from) <= s.len(),
        forall|k: int| from <= k < insertion_point(s, e, from) ==> path_lt(#[trigger] s[k], e),
        insertion_point(s, e, from) < s.len() ==> !path_lt(s[insertion_point(s, e, from)], e),
    decreases s.len() - from,
{
    if from < s.len() && path_lt(s[from], e) {
        lemma_insertion_point(s, e, from + 1);
    }
}

/// Inserting into a sorted sequence keeps it sorted and adds exactly `e`.
pub proof fn lemma_insert_sorted(s: Seq<DirEntry>, e: DirEntry)
    requires
        sorted_by_path(s),
    ensures
        sorted_by_path(insert_sorted(s, e)),
        insert_sorted(s, e).to_multiset() == s.to_multiset().insert(e),
        insert_sorted(s, e).len() == s.len() + 1,
{
    let p = insertion_point(s, e, 0);
    let t = insert_sorted(s, e);
    lemma_insertion_point(s, e, 0);
    vstd::seq_lib::to_multiset_insert(s, p, e);
    assert forall|i: int, j: int| 0 <= i < j < t.len() implies !path_lt(
        #[trigger] t[j],
        #[trigger] t[i],
    ) by {
        if j == p {
            // t[j] is e, t[i] = s[i] sorts before e
            assert(path_lt(s[i], e));
            lemma_lex_asymmetric(s[i].key(), e.key(), 0);
        } else if i == p {
            // t[i] is e, t[j] = s[j - 1] with j - 1 >= p
            if path_lt(t[j], e) {
                assert(t[j] == s[j - 1]);
                lemma_lex_between(s[j - 1].key(), s[p].key(), e.key(), 0);
                if j - 1 > p {
                    assert(!path_lt(s[j - 1], s[p]));
                }
            }
        } else {
            let i0 = if i < p { i } else { i - 1 };
            let j0 = if j < p { j } else { j - 1 };
            assert(t[i] == s[i0] && t[j] == s[j0]);
            assert(!path_lt(s[j0], s[i0]));
        }
    }
}

/// Sorting yields a sorted sequence that holds each entry as often as the
/// input does.
pub proof fn lemma_sort_by_path(s: Seq<DirEntry>)
    ensures
        sorted_by_path(sort_by_path(s)),
        sort_by_path(s).to_multiset() == s.to_multiset(),
        sort_by_path(s).len() == s.len(),
    decreases s.len(),
{
    broadcast use vstd::seq_lib::group_to_multiset_ensures;
    if s.len() == 0 {
        assert(s =~= Seq::empty());
    } else {
        let rest = s.skip(1);
        lemma_sort_by_path(rest);
        lemma_insert_sorted(sort_by_path(rest), s[0]);
        assert(s =~= rest.insert(0, s[0]));
        vstd::seq_lib::to_multiset_insert(rest, 0, s[0]);
    }
}

/// No two entries of `s` have the same path.
pub open spec fn distinct_paths(s: Seq<DirEntry>) -> bool {
    forall|i: int, j: int|
        0 <= i < s.len() && 0 <= j < s.len() && i != j ==> (#[trigger] s[i]).key()
            != (#[trigger] s[j]).key()
}

/// Entries of `m` with the same path are the same entry, and none occurs twice.
pub open spec fn single_paths(m: Multiset<DirEntry>) -> bool {
    &&& forall|x: DirEntry, y: DirEntry|
        m.count(x) > 0 && m.count(y) > 0 && x.key() == y.key() ==> x == y
    &&& forall|x: DirEntry| m.count(x) <= 1
}

/// Entries with distinct paths make a multiset with single paths.
pub proof fn lemma_distinct_paths_single(s: Seq<DirEntry>)
    requires
        distinct_paths(s),
    ensures
        single_paths(s.to_multiset()),
{
    broadcast use vstd::seq_lib::group_to_multiset_ensures;
    let m = s.to_multiset();
    assert(s.no_duplicates()) by {
        assert forall|i: int, j: int|
            0 <= i < s.len() && 0 <= j < s.len() && i != j implies s[i] != s[j] by {
            assert(s[i].key() != s[j].key());
        }
    }
    s.lemma_multiset_has_no_duplicates();
    assert forall|x: DirEntry| m.count(x) <= 1 by {
        if m.count(x) > 0 {
            assert(m.contains(x));
        }
    }
    assert forall|x: DirEntry, y: DirEntry|
        m.count(x) > 0 && m.count(y) > 0 && x.key() == y.key() implies x == y by {
        assert(s.contains(x));
        assert(s.contains(y));
        let i = choose|i: int| 0 <= i < s.len() && s[i] == x;
        let j = choose|j: int| 0 <= j < s.len() && s[j] == y;
        if i != j {
            assert(s[i].key() != s[j].key());
        }
    }
}

/// Two sorted sequences that hold the same entries, each with a path of its
/// own, are the same sequence.
pub proof fn lemma_sorted_unique(a: Seq<DirEntry>, b: Seq<DirEntry>)
    requires
        sorted_by_path(a),
        sorted_by_path(b),
        a.to_multiset() == b.to_multiset(),
        single_paths(a.to_multiset()),
    ensures
        a == b,
    decreases a.len(),
{
    broadcast use vstd::seq_lib::group_to_multiset_ensures;
    let m = a.to_multiset();
    vstd::seq_lib::to_multiset_len(a);
    vstd::seq_lib::to_multiset_len(b);
    if a.len() == 0 {
        assert(a =~= b);
    } else {
        assert(a.contains(a[0]));
        assert(b.contains(b[0]));
        assert(m.count(a[0]) > 0);
        assert(m.count(b[0]) > 0);
        assert(b.contains(a[0]));
        assert(a.contains(b[0]));
        let k = choose|k: int| 0 <= k < b.len() && b[k] == a[0];
        let n = choose|n: int| 0 <= n < a.len() && a[n] == b[0];
        if k != 0 && n != 0 {
            assert(!path_lt(b[k], b[0]));
            assert(!path_lt(a[n], a[0]));
            lemma_lex_total(a[0].key(), b[0].key());
        }
        assert(a[0] == b[0]);
        let a1 = a.remove(0);
        let b1 = b.remove(0);
        assert(a1.to_multiset() == m.remove(a[0]));
        assert(b1.to_multiset() == m.remove(a[0]));
        assert forall|i: int, j: int| 0 <= i < j < a1.len() implies !path_lt(
            #[trigger] a1[j],
            #[trigger] a1[i],
        ) by {
            assert(a1[i] == a[i + 1] && a1[j] == a[j + 1]);
        }
        assert forall|i: int, j: int| 0 <= i < j < b1.len() implies !path_lt(
            #[trigger] b1[j],
            #[trigger] b1[i],
        ) by {
            assert(b1[i] == b[i + 1] && b1[j] == b[j + 1]);
        }
        let m1 = a1.to_multiset();
        assert forall|x: DirEntry| m1.count(x) <= m.count(x) by {}
        assert(single_paths(m1));
        lemma_sorted_unique(a1, b1);
        assert forall|i: int| 0 <= i < a.len() implies a[i] == b[i] by {
            if i > 0 {
                assert(a[i] == a1[i - 1]);
                assert(b[i] == b1[i - 1]);
            }
        }
        assert(a =~= b);
    }
}

/// Sorting does not depend on the order of arrival: two sequences of the
/// same entries, each with a path of its own, sort to the same sequence.
pub proof fn lemma_sort_is_canonical(s: Seq<DirEntry>, t: Seq<DirEntry>)
    requires
        s.to_multiset() == t.to_multiset(),
        distinct_paths(s),
    ensures
        sort_by_path(s) == sort_by_path(t),
{
    lemma_sort_by_path(s);
    lemma_sort_by_path(t);
    lemma_distinct_paths_single(s);
    lemma_sorted_unique(sort_by_path(s), sort_by_path(t));
}

/// Whether `a` comes strictly before `b` in lexicographic byte order.
pub fn bytes_lt(a: &[u8], b: &[u8]) -> (lt: bool)
    ensures
        lt == lex_lt(a@, b@),
{
    let mut i: usize = 0;
    while i < a.len() && i < b.len()
        invariant
            i <= a.len(),
            i <= b.len(),
            lex_lt(a@, b@) == lex_lt_from(a@, b@, i as int),
        decreases a.len() - i,
    {
        if a[i] != b[i] {
            return a[i] < b[i];
        }
        i += 1;
    }
    i < b.len()
}

/// Whether entry `a` sorts strictly before entry `b`.
pub fn entry_lt(a: &DirEntry, b: &DirEntry) -> (lt: bool)
    ensures
        lt == path_lt(*a, *b),
{
    bytes_lt(a.path.as_str().as_bytes(), b.path.as_str().as_bytes())
}

/// Sorts entries by path; entries with equal paths keep their order.
pub fn sort_entries(buffer: Vec<DirEntry>) -> (sorted: Vec<DirEntry>)
    ensures
        sorted@ == sort_by_path(buffer@),
        sorted_by_path(sorted@),
        sorted@.to_multiset() == buffer@.to_multiset(),
        sorted@.len() == buffer@.len(),
{
    let mut rest = buffer;
    let mut sorted: Vec<DirEntry> = Vec::new();
    proof {
        assert(buffer@.skip(buffer@.len() as int) =~= Seq::empty());
    }
    while rest.len() > 0
        invariant
            rest@ == buffer@.take(rest@.len() as int),
            rest@.len() <= buffer@.len(),
            sorted@ == sort_by_path(buffer@.skip(rest@.len() as int)),
            sorted@.len() + rest@.len() == buffer@.len(),
        decreases rest.len(),
    {
        let ghost n = rest@.len() as int;
        let e = rest.pop().unwrap();
        let mut pos: usize = 0;
        proof {
            lemma_insertion_point(sorted@, e, 0);
        }
        while pos < sorted.len() && entry_lt(&sorted[pos], &e)
            invariant
                pos <= sorted.len(),
                insertion_point(sorted@, e, 0) == insertion_point(sorted@, e, pos as int),
            decreases sorted.len() - pos,
        {
            pos += 1;
        }
        sorted.insert(pos, e);
        proof {
            assert(e == buffer@[n - 1]);
            assert(rest@ =~= buffer@.take(n - 1));
            let tail = buffer@.skip(n - 1);
            assert(tail.skip(1) =~= buffer@.skip(n));
            assert(tail[0] == e);
        }
    }
    proof {
        assert(buffer@.skip(0) =~= buffer@);
        lemma_sort_by_path(buffer@);
    }
    sorted
}

} // verus!
