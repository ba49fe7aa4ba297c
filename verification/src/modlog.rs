//! Moderation-log queries: one ranked, paged read shared by all eight
//! moderation-action tables, scoped by community and by acting moderator,
//! most recent action first.

use vstd::prelude::*;
use crate::entities::{Dup, ModActionView};
use crate::ranking::{
    gather, idx_ok, lemma_paginate_idx_ok, lemma_pairs_of_idx_ok, lemma_sort_pairs_idx_ok,
    paginate_pairs, pairs_of, ranked_query, sort_pairs_ex,
};

verus! {

/// A record passes the scoping filters: the named community (when given) and
/// the named acting moderator (when given).
pub open spec fn mod_matches(
    a: ModActionView,
    community_id: Option<i32>,
    mod_user_id: Option<i32>,
) -> bool {
    &&& match community_id {
        Option::Some(c) => a.community_id == Option::Some(c),
        Option::None => true,
    }
    &&& match mod_user_id {
        Option::Some(m) => a.mod_user_id == m,
        Option::None => true,
    }
}

pub fn mod_matches_ex(
    a: &ModActionView,
    community_id: &Option<i32>,
    mod_user_id: &Option<i32>,
) -> (b: bool)
    ensures
        b == mod_matches(*a, *community_id, *mod_user_id),
{
    let comm_ok = match community_id {
        Option::Some(c) => match a.community_id {
            Option::Some(ac) => ac == *c,
            Option::None => false,
        },
        Option::None => true,
    };
    let mod_ok = match mod_user_id {
        Option::Some(m) => a.mod_user_id == *m,
        Option::None => true,
    };
    comm_ok && mod_ok
}

/// The scoping filter as a closure.
pub open spec fn mod_m(community_id: Option<i32>, mod_user_id: Option<i32>) -> spec_fn(
    ModActionView,
) -> bool {
    |a: ModActionView| mod_matches(a, community_id, mod_user_id)
}

/// The ranking key: most recent action first.
pub open spec fn mod_k() -> spec_fn(ModActionView) -> i64 {
    |a: ModActionView| a.when_ as i64
}

/// What a moderation-log read of one table returns.
pub open spec fn spec_query_mod(
    items: Seq<ModActionView>,
    community_id: Option<i32>,
    mod_user_id: Option<i32>,
    page: int,
    limit: int,
) -> Seq<ModActionView> {
    ranked_query(items, mod_m(community_id, mod_user_id), mod_k(), page, limit)
}

/// Runs a scoped, paged read over one moderation-action table.
pub fn query_mod_actions(
    items: &Vec<ModActionView>,
    community_id: &Option<i32>,
    mod_user_id: &Option<i32>,
    page: i64,
    limit: i64,
) -> (r: Vec<ModActionView>)
    requires
        1 <= page,
        0 <= limit,
    ensures
        r@ == spec_query_mod(items@, *community_id, *mod_user_id, page as int, limit as int),
{
    let ghost m = mod_m(*community_id, *mod_user_id);
    let ghost kf = mod_k();
    let mut pairs: Vec<(i64, usize)> = Vec::new();
    let mut i: usize = 0;
    while i < items.len()
        invariant
            i <= items@.len(),
            pairs@ == pairs_of(items@.subrange(0, i as int), m, kf),
            m == mod_m(*community_id, *mod_user_id),
            kf == mod_k(),
        decreases items@.len() - i,
    {
        if mod_matches_ex(&items[i], community_id, mod_user_id) {
            let key = items[i].when_ as i64;
            pairs.push((key, i));
        }
        i = i + 1;
        proof {
            let pre = items@.subrange(0, i as int);
            assert(pre.drop_last() =~= items@.subrange(0, i - 1));
            assert(pre.last() == items@[i - 1]);
            assert(m(items@[i - 1]) == mod_matches(items@[i - 1], *community_id, *mod_user_id));
            assert(kf(items@[i - 1]) == items@[i - 1].when_ as i64);
        }
    }
    assert(items@.subrange(0, items@.len() as int) =~= items@);
    let sorted = sort_pairs_ex(&pairs);
    let pagev = paginate_pairs(&sorted, page, limit);
    proof {
        lemma_pairs_of_idx_ok(items@, m, kf);
        lemma_sort_pairs_idx_ok(pairs@, items@.len() as int);
        lemma_paginate_idx_ok(sorted@, page as int, limit as int, items@.len() as int);
    }
    let mut out: Vec<ModActionView> = Vec::new();
    let mut j: usize = 0;
    while j < pagev.len()
        invariant
            j <= pagev@.len(),
            idx_ok(pagev@, items@.len() as int),
            out@ == gather(items@, pagev@.subrange(0, j as int)),
        decreases pagev@.len() - j,
    {
        let idx = pagev[j].1;
        out.push(items[idx].dup());
        j = j + 1;
        assert(out@ =~= gather(items@, pagev@.subrange(0, j as int)));
    }
    assert(pagev@.subrange(0, pagev@.len() as int) =~= pagev@);
    out
}

} // verus!
