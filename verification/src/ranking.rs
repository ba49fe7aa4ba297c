//! Ranked, paginated selection: the execution core of the query builder.
//!
//! A query over one entity type filters the table, ranks the survivors by a
//! sort key (highest key first; ties keep table order), and returns one page.
//! The ranking works on `(key, index)` pairs so that one verified sort serves
//! every entity type.

use vstd::prelude::*;

verus! {

/// `a` comes before `b` in a ranking: higher key first; equal keys keep the
/// original (index) order, which makes the sort stable.
pub open spec fn pair_before(a: (i64, usize), b: (i64, usize)) -> bool {
    a.0 > b.0 || (a.0 == b.0 && a.1 <= b.1)
}

/// Exec test for `pair_before`.
pub fn pair_before_ex(a: (i64, usize), b: (i64, usize)) -> (r: bool)
    ensures
        r == pair_before(a, b),
{
    a.0 > b.0 || (a.0 == b.0 && a.1 <= b.1)
}

/// `x` inserted into the ranked sequence `s` before the first element it
/// outranks.
pub open spec fn insert_pair(s: Seq<(i64, usize)>, x: (i64, usize)) -> Seq<(i64, usize)>
    decreases s.len(),
{
    if s.len() == 0 {
        seq![x]
    } else if pair_before(x, s[0]) {
        seq![x] + s
    } else {
        seq![s[0]] + insert_pair(s.subrange(1, s.len() as int), x)
    }
}

/// Stable insertion sort of `(key, index)` pairs, highest key first.
pub open spec fn sort_pairs(s: Seq<(i64, usize)>) -> Seq<(i64, usize)>
    decreases s.len(),
{
    if s.len() == 0 {
        Seq::empty()
    } else {
        insert_pair(sort_pairs(s.drop_last()), s.last())
    }
}

/// Every index in `s` is below `n`.
pub open spec fn idx_ok(s: Seq<(i64, usize)>, n: int) -> bool {
    forall|j: int| 0 <= j < s.len() ==> (#[trigger] s[j]).1 < n
}

pub proof fn lemma_insert_pair_len(s: Seq<(i64, usize)>, x: (i64, usize))
    ensures
        insert_pair(s, x).len() == s.len() + 1,
    decreases s.len(),
{
    if s.len() == 0 {
    } else if pair_before(x, s[0]) {
    } else {
        lemma_insert_pair_len(s.subrange(1, s.len() as int), x);
    }
}

pub proof fn lemma_insert_pair_idx_ok(s: Seq<(i64, usize)>, x: (i64, usize), n: int)
    requires
        idx_ok(s, n),
        x.1 < n,
    ensures
        idx_ok(insert_pair(s, x), n),
    decreases s.len(),
{
    if s.len() == 0 {
    } else if pair_before(x, s[0]) {
    } else {
        let rest = s.subrange(1, s.len() as int);
        assert(idx_ok(rest, n));
        lemma_insert_pair_idx_ok(rest, x, n);
    }
}

pub proof fn lemma_sort_pairs_idx_ok(s: Seq<(i64, usize)>, n: int)
    requires
        idx_ok(s, n),
    ensures
        idx_ok(sort_pairs(s), n),
        sort_pairs(s).len() == s.len(),
    decreases s.len(),
{
    if s.len() == 0 {
    } else {
        let pre = s.drop_last();
        assert(idx_ok(pre, n));
        lemma_sort_pairs_idx_ok(pre, n);
        lemma_insert_pair_idx_ok(sort_pairs(pre), s.last(), n);
        lemma_insert_pair_len(sort_pairs(pre), s.last());
    }
}

/// Where the first `k` elements of `s` all outrank `x` and the element at `k`
/// (if any) does not, inserting `x` splits `s` at `k`.
pub proof fn lemma_insert_pair_split(s: Seq<(i64, usize)>, x: (i64, usize), k: int)
    requires
        0 <= k <= s.len(),
        forall|j: int| 0 <= j < k ==> !pair_before(x, #[trigger] s[j]),
        k < s.len() ==> pair_before(x, s[k]),
    ensures
        insert_pair(s, x) == s.subrange(0, k) + seq![x] + s.subrange(k, s.len() as int),
    decreases k,
{
    if k == 0 {
        if s.len() == 0 {
            assert(insert_pair(s, x) =~= s.subrange(0, 0) + seq![x] + s.subrange(0, 0));
        } else {
            assert(pair_before(x, s[0]));
            assert(insert_pair(s, x) =~= s.subrange(0, 0) + seq![x] + s.subrange(
                0,
                s.len() as int,
            ));
        }
    } else {
        assert(!pair_before(x, s[0]));
        let rest = s.subrange(1, s.len() as int);
        assert(forall|j: int| 0 <= j < k - 1 ==> !pair_before(x, #[trigger] rest[j]));
        assert(k - 1 < rest.len() ==> pair_before(x, rest[k - 1]));
        lemma_insert_pair_split(rest, x, k - 1);
        assert(insert_pair(s, x) =~= s.subrange(0, k) + seq![x] + s.subrange(k, s.len() as int));
    }
}

/// Inserts `x` into the ranked vector `v`.
pub fn insert_pair_ex(v: &Vec<(i64, usize)>, x: (i64, usize)) -> (r: Vec<(i64, usize)>)
    ensures
        r@ == insert_pair(v@, x),
{
    let mut k: usize = 0;
    while k < v.len() && !pair_before_ex(x, v[k])
        invariant
            k <= v@.len(),
            forall|j: int| 0 <= j < k ==> !pair_before(x, #[trigger] v@[j]),
        decreases v@.len() - k,
    {
        k = k + 1;
    }
    let mut r: Vec<(i64, usize)> = Vec::new();
    let mut i: usize = 0;
    while i < k
        invariant
            i <= k,
            k <= v@.len(),
            r@ == v@.subrange(0, i as int),
        decreases k - i,
    {
        r.push(v[i]);
        i = i + 1;
        assert(r@ =~= v@.subrange(0, i as int));
    }
    r.push(x);
    while i < v.len()
        invariant
            k <= i <= v@.len(),
            r@ == v@.subrange(0, k as int) + seq![x] + v@.subrange(k as int, i as int),
        decreases v@.len() - i,
    {
        r.push(v[i]);
        i = i + 1;
        assert(r@ =~= v@.subrange(0, k as int) + seq![x] + v@.subrange(k as int, i as int));
    }
    proof {
        lemma_insert_pair_split(v@, x, k as int);
    }
    r
}

/// Stable insertion sort of the ranked vector, highest key first.
pub fn sort_pairs_ex(v: &Vec<(i64, usize)>) -> (r: Vec<(i64, usize)>)
    ensures
        r@ == sort_pairs(v@),
{
    let mut r: Vec<(i64, usize)> = Vec::new();
    let mut i: usize = 0;
    while i < v.len()
        invariant
            i <= v@.len(),
            r@ == sort_pairs(v@.subrange(0, i as int)),
        decreases v@.len() - i,
    {
        r = insert_pair_ex(&r, v[i]);
        i = i + 1;
        proof {
            let pre = v@.subrange(0, i as int);
            assert(pre.drop_last() =~= v@.subrange(0, i - 1));
            assert(pre.last() == v@[i - 1]);
        }
    }
    assert(v@.subrange(0, v@.len() as int) =~= v@);
    r
}

/// One page of `s`: offset `(page - 1) * limit`, at most `limit` elements.
/// A page before the first or past the end gives the empty sequence.
pub open spec fn paginate<T>(s: Seq<T>, page: int, limit: int) -> Seq<T> {
    let off = (page - 1) * limit;
    if page < 1 || limit < 0 || off >= s.len() {
        Seq::empty()
    } else if off + limit >= s.len() {
        s.subrange(off, s.len() as int)
    } else {
        s.subrange(off, off + limit)
    }
}

/// One page of the ranked vector.
pub fn paginate_pairs(v: &Vec<(i64, usize)>, page: i64, limit: i64) -> (r: Vec<(i64, usize)>)
    requires
        1 <= page,
        0 <= limit,
    ensures
        r@ == paginate(v@, page as int, limit as int),
{
    proof {
        assert((page as i128 - 1) * (limit as i128) == (page - 1) as int * limit as int
            && 0 <= (page as i128 - 1) * (limit as i128) <= (i64::MAX as i128) * (i64::MAX as i128))
            by (nonlinear_arith)
            requires
                1 <= page <= i64::MAX,
                0 <= limit <= i64::MAX,
        ;
    }
    let off128: i128 = (page as i128 - 1) * (limit as i128);
    if off128 >= v.len() as i128 {
        let r: Vec<(i64, usize)> = Vec::new();
        return r;
    }
    let off: usize = off128 as usize;
    let end: usize = if limit as i128 >= v.len() as i128 - off128 {
        v.len()
    } else {
        (off128 + limit as i128) as usize
    };
    let mut r: Vec<(i64, usize)> = Vec::new();
    let mut i: usize = off;
    while i < end
        invariant
            off <= i <= end <= v@.len(),
            r@ == v@.subrange(off as int, i as int),
        decreases end - i,
    {
        r.push(v[i]);
        i = i + 1;
        assert(r@ =~= v@.subrange(off as int, i as int));
    }
    assert(r@ =~= paginate(v@, page as int, limit as int));
    r
}

pub proof fn lemma_paginate_idx_ok(s: Seq<(i64, usize)>, page: int, limit: int, n: int)
    requires
        idx_ok(s, n),
    ensures
        idx_ok(paginate(s, page, limit), n),
{
    let r = paginate(s, page, limit);
    let off = (page - 1) * limit;
    assert forall|j: int| 0 <= j < r.len() implies (#[trigger] r[j]).1 < n by {
        assert(r[j] == s[off + j]);
    }
}

/// The `(key, index)` pairs of the entities accepted by the filter `m`, keyed
/// by `k`, in table order.
pub open spec fn pairs_of<T>(items: Seq<T>, m: spec_fn(T) -> bool, k: spec_fn(T) -> i64) -> Seq<
    (i64, usize),
>
    decreases items.len(),
{
    if items.len() == 0 {
        Seq::empty()
    } else {
        let pre = pairs_of(items.drop_last(), m, k);
        if m(items.last()) {
            pre.push((k(items.last()), (items.len() - 1) as usize))
        } else {
            pre
        }
    }
}

pub proof fn lemma_pairs_of_idx_ok<T>(items: Seq<T>, m: spec_fn(T) -> bool, k: spec_fn(T) -> i64)
    ensures
        idx_ok(pairs_of(items, m, k), items.len() as int),
    decreases items.len(),
{
    if items.len() == 0 {
    } else {
        lemma_pairs_of_idx_ok(items.drop_last(), m, k);
    }
}

/// The entities named by the pairs' indices, in pair order.
pub open spec fn gather<T>(items: Seq<T>, pairs: Seq<(i64, usize)>) -> Seq<T> {
    pairs.map_values(|p: (i64, usize)| items[p.1 as int])
}

/// A full ranked query: filter by `m`, rank by `k` (highest first, ties in
/// table order), and return page `page` of at most `limit` entities.
pub open spec fn ranked_query<T>(
    items: Seq<T>,
    m: spec_fn(T) -> bool,
    k: spec_fn(T) -> i64,
    page: int,
    limit: int,
) -> Seq<T> {
    gather(items, paginate(sort_pairs(pairs_of(items, m, k)), page, limit))
}

/// Every pair points into the table, carries the pointed entity's key, and
/// the pointed entity passes the filter.
pub open spec fn pairs_faithful<T>(
    pairs: Seq<(i64, usize)>,
    items: Seq<T>,
    m: spec_fn(T) -> bool,
    k: spec_fn(T) -> i64,
) -> bool {
    forall|j: int|
        0 <= j < pairs.len() ==> {
            let p = #[trigger] pairs[j];
            &&& p.1 < items.len()
            &&& m(items[p.1 as int])
            &&& p.0 == k(items[p.1 as int])
        }
}

pub proof fn lemma_pairs_of_faithful<T>(items: Seq<T>, m: spec_fn(T) -> bool, k: spec_fn(T) -> i64)
    requires
        items.len() <= usize::MAX,
    ensures
        pairs_faithful(pairs_of(items, m, k), items, m, k),
    decreases items.len(),
{
    if items.len() == 0 {
    } else {
        let pre = items.drop_last();
        lemma_pairs_of_faithful(pre, m, k);
        assert forall|j: int|
            0 <= j < pairs_of(items, m, k).len() implies {
            let p = #[trigger] pairs_of(items, m, k)[j];
            &&& p.1 < items.len()
            &&& m(items[p.1 as int])
            &&& p.0 == k(items[p.1 as int])
        } by {
            let prepairs = pairs_of(pre, m, k);
            if m(items.last()) {
                assert(pairs_of(items, m, k) == prepairs.push(
                    (k(items.last()), (items.len() - 1) as usize),
                ));
                if j < prepairs.len() {
                    let q = prepairs[j];
                    assert(q.1 < pre.len() && m(pre[q.1 as int]) && q.0 == k(pre[q.1 as int]));
                    assert(pre[q.1 as int] == items[q.1 as int]);
                } else {
                    assert(items[items.len() - 1] == items.last());
                }
            } else {
                assert(pairs_of(items, m, k) == prepairs);
                let q = prepairs[j];
                assert(q.1 < pre.len() && m(pre[q.1 as int]) && q.0 == k(pre[q.1 as int]));
                assert(pre[q.1 as int] == items[q.1 as int]);
            }
        }
    }
}

/// Every element of the insertion result is the inserted pair or one of the
/// original pairs.
pub proof fn lemma_insert_pair_elems(s: Seq<(i64, usize)>, x: (i64, usize))
    ensures
        forall|j: int|
            0 <= j < insert_pair(s, x).len() ==> insert_pair(s, x)[j] == x || s.contains(
                #[trigger] insert_pair(s, x)[j],
            ),
    decreases s.len(),
{
    if s.len() == 0 {
    } else if pair_before(x, s[0]) {
        assert forall|j: int|
            0 <= j < insert_pair(s, x).len() implies insert_pair(s, x)[j] == x || s.contains(
            #[trigger] insert_pair(s, x)[j],
        ) by {
            if j > 0 {
                assert(insert_pair(s, x)[j] == s[j - 1]);
            }
        }
    } else {
        let rest = s.subrange(1, s.len() as int);
        lemma_insert_pair_elems(rest, x);
        assert forall|j: int|
            0 <= j < insert_pair(s, x).len() implies insert_pair(s, x)[j] == x || s.contains(
            #[trigger] insert_pair(s, x)[j],
        ) by {
            if j > 0 {
                let y = insert_pair(rest, x)[j - 1];
                assert(insert_pair(s, x)[j] == y);
                if y != x {
                    let w = choose|w: int| 0 <= w < rest.len() && rest[w] == y;
                    assert(s[w + 1] == y);
                }
            }
        }
    }
}

/// Every element of the sorted sequence is one of the original pairs.
pub proof fn lemma_sort_pairs_elems(s: Seq<(i64, usize)>)
    ensures
        forall|j: int|
            0 <= j < sort_pairs(s).len() ==> s.contains(#[trigger] sort_pairs(s)[j]),
    decreases s.len(),
{
    if s.len() == 0 {
    } else {
        let pre = s.drop_last();
        lemma_sort_pairs_elems(pre);
        lemma_insert_pair_elems(sort_pairs(pre), s.last());
        assert forall|j: int|
            0 <= j < sort_pairs(s).len() implies s.contains(#[trigger] sort_pairs(s)[j]) by {
            let y = sort_pairs(s)[j];
            if y == s.last() {
                assert(s[s.len() - 1] == y);
            } else {
                assert(sort_pairs(pre).contains(y));
                let w = choose|w: int| 0 <= w < sort_pairs(pre).len() && sort_pairs(pre)[w] == y;
                assert(pre.contains(y));
                let v = choose|v: int| 0 <= v < pre.len() && pre[v] == y;
                assert(s[v] == y);
            }
        }
    }
}

/// Pairs stand in ranking order: higher keys first, equal keys by index.
pub open spec fn pairs_sorted(s: Seq<(i64, usize)>) -> bool {
    forall|i: int, j: int| 0 <= i < j < s.len() ==> pair_before(#[trigger] s[i], #[trigger] s[j])
}

pub proof fn lemma_insert_pair_sorted(s: Seq<(i64, usize)>, x: (i64, usize))
    requires
        pairs_sorted(s),
    ensures
        pairs_sorted(insert_pair(s, x)),
    decreases s.len(),
{
    if s.len() == 0 {
    } else if pair_before(x, s[0]) {
        let r = insert_pair(s, x);
        assert forall|i: int, j: int|
            0 <= i < j < r.len() implies pair_before(#[trigger] r[i], #[trigger] r[j]) by {
            if i == 0 {
                assert(r[j] == s[j - 1]);
            } else {
                assert(r[i] == s[i - 1] && r[j] == s[j - 1]);
            }
        }
    } else {
        let rest = s.subrange(1, s.len() as int);
        assert(pairs_sorted(rest));
        lemma_insert_pair_sorted(rest, x);
        lemma_insert_pair_elems(rest, x);
        let r = insert_pair(s, x);
        let ri = insert_pair(rest, x);
        assert forall|i: int, j: int|
            0 <= i < j < r.len() implies pair_before(#[trigger] r[i], #[trigger] r[j]) by {
            if i == 0 {
                let y = ri[j - 1];
                assert(r[j] == y);
                if y == x {
                    assert(pair_before(s[0], x));
                } else {
                    let w = choose|w: int| 0 <= w < rest.len() && rest[w] == y;
                    assert(s[w + 1] == y);
                    assert(pair_before(s[0], s[w + 1]));
                }
            } else {
                assert(r[i] == ri[i - 1] && r[j] == ri[j - 1]);
            }
        }
    }
}

/// The sort really ranks: its output stands in ranking order.
pub proof fn lemma_sort_pairs_sorted(s: Seq<(i64, usize)>)
    ensures
        pairs_sorted(sort_pairs(s)),
    decreases s.len(),
{
    if s.len() == 0 {
    } else {
        lemma_sort_pairs_sorted(s.drop_last());
        lemma_insert_pair_sorted(sort_pairs(s.drop_last()), s.last());
    }
}

/// What a ranked query guarantees its caller beyond its definition: at most
/// `limit` results, every result drawn from the table and passing the
/// filter, and the results ranked by non-increasing key.
pub proof fn lemma_ranked_query_sound<T>(
    items: Seq<T>,
    m: spec_fn(T) -> bool,
    k: spec_fn(T) -> i64,
    page: int,
    limit: int,
)
    requires
        items.len() <= usize::MAX,
        1 <= page,
        0 <= limit,
    ensures
        ({
            let r = ranked_query(items, m, k, page, limit);
            &&& r.len() <= limit
            &&& forall|j: int| 0 <= j < r.len() ==> m(#[trigger] r[j]) && items.contains(r[j])
            &&& forall|i: int, j: int| 0 <= i < j < r.len() ==> k(#[trigger] r[i]) >= k(
                #[trigger] r[j],
            )
        }),
{
    let pairs = pairs_of(items, m, k);
    let sorted = sort_pairs(pairs);
    let pagev = paginate(sorted, page, limit);
    let r = ranked_query(items, m, k, page, limit);
    lemma_pairs_of_faithful(items, m, k);
    lemma_sort_pairs_elems(pairs);
    lemma_sort_pairs_sorted(pairs);
    let off = (page - 1) * limit;
    assert forall|j: int| 0 <= j < pagev.len() implies {
        &&& (#[trigger] pagev[j]).1 < items.len()
        &&& m(items[pagev[j].1 as int])
        &&& pagev[j].0 == k(items[pagev[j].1 as int])
    } by {
        assert(pagev[j] == sorted[off + j]);
        assert(pairs.contains(sorted[off + j]));
        let w = choose|w: int| 0 <= w < pairs.len() && pairs[w] == sorted[off + j];
    }
    assert forall|j: int| 0 <= j < r.len() implies m(#[trigger] r[j]) && items.contains(r[j]) by {
        assert(r[j] == items[pagev[j].1 as int]);
    }
    assert forall|i: int, j: int|
        0 <= i < j < r.len() implies k(#[trigger] r[i]) >= k(#[trigger] r[j]) by {
        assert(pagev[i] == sorted[off + i] && pagev[j] == sorted[off + j]);
        assert(pair_before(sorted[off + i], sorted[off + j]));
        assert(r[i] == items[pagev[i].1 as int] && r[j] == items[pagev[j].1 as int]);
    }
}

} // verus!
