//! Per-entity ranked queries over the four searchable entity types.
//!
//! Each query applies the generic ranked selection of `ranking` with the
//! entity's own text matcher and sort key. The matcher reads the primary text
//! fields; the URL matcher reads only the URL field.

use vstd::prelude::*;
use crate::entities::{CommentView, CommunityView, Dup, PostView, UserView};
use crate::query::{QueryOptions, SortType};
use crate::ranking::{
    gather, idx_ok, lemma_paginate_idx_ok, lemma_pairs_of_idx_ok, lemma_sort_pairs_idx_ok,
    paginate_pairs, pairs_of, ranked_query, sort_pairs_ex,
};
use crate::text::contains_ci;
use crate::text::str_contains_ci;

verus! {

/// The sort key of a post: higher ranks first.
pub open spec fn post_key(p: PostView, sort: SortType) -> i64 {
    match sort {
        SortType::Hot => (p.score as int * 4096 + p.published as int) as i64,
        SortType::New => p.published as i64,
        SortType::Top => p.score as i64,
        SortType::MostComments => p.number_of_comments as i64,
    }
}

pub fn post_key_ex(p: &PostView, sort: SortType) -> (k: i64)
    ensures
        k == post_key(*p, sort),
{
    match sort {
        SortType::Hot => p.score as i64 * 4096 + p.published as i64,
        SortType::New => p.published as i64,
        SortType::Top => p.score as i64,
        SortType::MostComments => p.number_of_comments as i64,
    }
}

/// The sort key of a comment. Comments carry no comment count; the
/// most-comments ordering falls back to score.
pub open spec fn comment_key(c: CommentView, sort: SortType) -> i64 {
    match sort {
        SortType::Hot => (c.score as int * 4096 + c.published as int) as i64,
        SortType::New => c.published as i64,
        SortType::Top => c.score as i64,
        SortType::MostComments => c.score as i64,
    }
}

pub fn comment_key_ex(c: &CommentView, sort: SortType) -> (k: i64)
    ensures
        k == comment_key(*c, sort),
{
    match sort {
        SortType::Hot => c.score as i64 * 4096 + c.published as i64,
        SortType::New => c.published as i64,
        SortType::Top => c.score as i64,
        SortType::MostComments => c.score as i64,
    }
}

/// The sort key of a community: its subscriber count stands for score.
pub open spec fn community_key(c: CommunityView, sort: SortType) -> i64 {
    match sort {
        SortType::Hot => (c.number_of_subscribers as int * 4096 + c.published as int) as i64,
        SortType::New => c.published as i64,
        SortType::Top => c.number_of_subscribers as i64,
        SortType::MostComments => c.number_of_subscribers as i64,
    }
}

pub fn community_key_ex(c: &CommunityView, sort: SortType) -> (k: i64)
    ensures
        k == community_key(*c, sort),
{
    match sort {
        SortType::Hot => c.number_of_subscribers as i64 * 4096 + c.published as i64,
        SortType::New => c.published as i64,
        SortType::Top => c.number_of_subscribers as i64,
        SortType::MostComments => c.number_of_subscribers as i64,
    }
}

/// The sort key of a user.
pub open spec fn user_key(u: UserView, sort: SortType) -> i64 {
    match sort {
        SortType::Hot => (u.score as int * 4096 + u.published as int) as i64,
        SortType::New => u.published as i64,
        SortType::Top => u.score as i64,
        SortType::MostComments => u.score as i64,
    }
}

pub fn user_key_ex(u: &UserView, sort: SortType) -> (k: i64)
    ensures
        k == user_key(*u, sort),
{
    match sort {
        SortType::Hot => u.score as i64 * 4096 + u.published as i64,
        SortType::New => u.published as i64,
        SortType::Top => u.score as i64,
        SortType::MostComments => u.score as i64,
    }
}

/// A post passes the query's filters: term against the title,
/// URL search against the URL field alone, community and author scoping,
/// and NSFW visibility.
pub open spec fn post_matches(p: PostView, o: QueryOptions) -> bool {
    &&& match o.search_term {
        Option::Some(t) => contains_ci(p.name@, t@),
        Option::None => true,
    }
    &&& match o.url_search {
        Option::Some(u) => match p.url {
            Option::Some(pu) => contains_ci(pu@, u@),
            Option::None => false,
        },
        Option::None => true,
    }
    &&& match o.community_id {
        Option::Some(c) => p.community_id == c,
        Option::None => true,
    }
    &&& match o.creator_id {
        Option::Some(c) => p.creator_id == c,
        Option::None => true,
    }
    &&& (o.show_nsfw || !p.nsfw)
}

pub fn post_matches_ex(p: &PostView, o: &QueryOptions) -> (b: bool)
    ensures
        b == post_matches(*p, *o),
{
    let term_ok = match &o.search_term {
        Option::Some(t) => str_contains_ci(&p.name, t),
        Option::None => true,
    };
    let url_ok = match &o.url_search {
        Option::Some(u) => match &p.url {
            Option::Some(pu) => str_contains_ci(pu, u),
            Option::None => false,
        },
        Option::None => true,
    };
    let comm_ok = match &o.community_id {
        Option::Some(c) => p.community_id == *c,
        Option::None => true,
    };
    let creator_ok = match &o.creator_id {
        Option::Some(c) => p.creator_id == *c,
        Option::None => true,
    };
    let nsfw_ok = o.show_nsfw || !p.nsfw;
    term_ok && url_ok && comm_ok && creator_ok && nsfw_ok
}

/// A comment passes the query's filters: term against the content, author
/// scoping.
pub open spec fn comment_matches(c: CommentView, o: QueryOptions) -> bool {
    &&& match o.search_term {
        Option::Some(t) => contains_ci(c.content@, t@),
        Option::None => true,
    }
    &&& match o.creator_id {
        Option::Some(cr) => c.creator_id == cr,
        Option::None => true,
    }
}

pub fn comment_matches_ex(c: &CommentView, o: &QueryOptions) -> (b: bool)
    ensures
        b == comment_matches(*c, *o),
{
    let term_ok = match &o.search_term {
        Option::Some(t) => str_contains_ci(&c.content, t),
        Option::None => true,
    };
    let creator_ok = match &o.creator_id {
        Option::Some(cr) => c.creator_id == *cr,
        Option::None => true,
    };
    term_ok && creator_ok
}

/// A community passes the query's filters: term against name or title, and
/// NSFW visibility.
pub open spec fn community_matches(c: CommunityView, o: QueryOptions) -> bool {
    &&& match o.search_term {
        Option::Some(t) => contains_ci(c.name@, t@) || contains_ci(c.title@, t@),
        Option::None => true,
    }
    &&& (o.show_nsfw || !c.nsfw)
}

pub fn community_matches_ex(c: &CommunityView, o: &QueryOptions) -> (b: bool)
    ensures
        b == community_matches(*c, *o),
{
    let term_ok = match &o.search_term {
        Option::Some(t) => str_contains_ci(&c.name, t) || str_contains_ci(&c.title, t),
        Option::None => true,
    };
    let nsfw_ok = o.show_nsfw || !c.nsfw;
    term_ok && nsfw_ok
}

/// A user passes the query's filters: term against the user name.
pub open spec fn user_matches(u: UserView, o: QueryOptions) -> bool {
    match o.search_term {
        Option::Some(t) => contains_ci(u.name@, t@),
        Option::None => true,
    }
}

pub fn user_matches_ex(u: &UserView, o: &QueryOptions) -> (b: bool)
    ensures
        b == user_matches(*u, *o),
{
    match &o.search_term {
        Option::Some(t) => str_contains_ci(&u.name, t),
        Option::None => true,
    }
}

/// The post filter as a closure over fixed options.
pub open spec fn post_m(o: QueryOptions) -> spec_fn(PostView) -> bool {
    |p: PostView| post_matches(p, o)
}

/// The post key as a closure over fixed options.
pub open spec fn post_k(o: QueryOptions) -> spec_fn(PostView) -> i64 {
    |p: PostView| post_key(p, o.sort)
}

/// What a post query returns: the ranked page of matching posts.
pub open spec fn spec_query_posts(items: Seq<PostView>, o: QueryOptions) -> Seq<PostView> {
    ranked_query(items, post_m(o), post_k(o), o.page as int, o.limit as int)
}

/// Runs a post query against the post table.
pub fn query_posts(items: &Vec<PostView>, o: &QueryOptions) -> (r: Vec<PostView>)
    requires
        1 <= o.page,
        0 <= o.limit,
    ensures
        r@ == spec_query_posts(items@, *o),
{
    let ghost m = post_m(*o);
    let ghost kf = post_k(*o);
    let mut pairs: Vec<(i64, usize)> = Vec::new();
    let mut i: usize = 0;
    while i < items.len()
        invariant
            i <= items@.len(),
            pairs@ == pairs_of(items@.subrange(0, i as int), m, kf),
            m == post_m(*o),
            kf == post_k(*o),
        decreases items@.len() - i,
    {
        if post_matches_ex(&items[i], o) {
            let key = post_key_ex(&items[i], o.sort);
            pairs.push((key, i));
        }
        i = i + 1;
        proof {
            let pre = items@.subrange(0, i as int);
            assert(pre.drop_last() =~= items@.subrange(0, i - 1));
            assert(pre.last() == items@[i - 1]);
            assert(m(items@[i - 1]) == post_matches(items@[i - 1], *o));
            assert(kf(items@[i - 1]) == post_key(items@[i - 1], o.sort));
        }
    }
    assert(items@.subrange(0, items@.len() as int) =~= items@);
    let sorted = sort_pairs_ex(&pairs);
    let pagev = paginate_pairs(&sorted, o.page, o.limit);
    proof {
        lemma_pairs_of_idx_ok(items@, m, kf);
        lemma_sort_pairs_idx_ok(pairs@, items@.len() as int);
        lemma_paginate_idx_ok(sorted@, o.page as int, o.limit as int, items@.len() as int);
    }
    let mut out: Vec<PostView> = Vec::new();
    let mut j: usize = 0;
    while j < pagev.len()
        invariant
            j <= pagev@.len(),
            idx_ok(pagev@, items@.len() as int),
            out@ == gather(items@, pagev@.subrange(0, j as int)),
        decreases pagev@.len() - j,
    {
        let idx = pagev[j].1;
        out.push(items[idx].dup());
        j = j + 1;
        assert(out@ =~= gather(items@, pagev@.subrange(0, j as int)));
    }
    assert(pagev@.subrange(0, pagev@.len() as int) =~= pagev@);
    out
}

/// The comment filter as a closure over fixed options.
pub open spec fn comment_m(o: QueryOptions) -> spec_fn(CommentView) -> bool {
    |c: CommentView| comment_matches(c, o)
}

/// The comment key as a closure over fixed options.
pub open spec fn comment_k(o: QueryOptions) -> spec_fn(CommentView) -> i64 {
    |c: CommentView| comment_key(c, o.sort)
}

/// What a comment query returns: the ranked page of matching comments.
pub open spec fn spec_query_comments(items: Seq<CommentView>, o: QueryOptions) -> Seq<
    CommentView,
> {
    ranked_query(items, comment_m(o), comment_k(o), o.page as int, o.limit as int)
}

/// Runs a comment query against the comment table.
pub fn query_comments(items: &Vec<CommentView>, o: &QueryOptions) -> (r: Vec<CommentView>)
    requires
        1 <= o.page,
        0 <= o.limit,
    ensures
        r@ == spec_query_comments(items@, *o),
{
    let ghost m = comment_m(*o);
    let ghost kf = comment_k(*o);
    let mut pairs: Vec<(i64, usize)> = Vec::new();
    let mut i: usize = 0;
    while i < items.len()
        invariant
            i <= items@.len(),
            pairs@ == pairs_of(items@.subrange(0, i as int), m, kf),
            m == comment_m(*o),
            kf == comment_k(*o),
        decreases items@.len() - i,
    {
        if comment_matches_ex(&items[i], o) {
            let key = comment_key_ex(&items[i], o.sort);
            pairs.push((key, i));
        }
        i = i + 1;
        proof {
            let pre = items@.subrange(0, i as int);
            assert(pre.drop_last() =~= items@.subrange(0, i - 1));
            assert(pre.last() == items@[i - 1]);
            assert(m(items@[i - 1]) == comment_matches(items@[i - 1], *o));
            assert(kf(items@[i - 1]) == comment_key(items@[i - 1], o.sort));
        }
    }
    assert(items@.subrange(0, items@.len() as int) =~= items@);
    let sorted = sort_pairs_ex(&pairs);
    let pagev = paginate_pairs(&sorted, o.page, o.limit);
    proof {
        lemma_pairs_of_idx_ok(items@, m, kf);
        lemma_sort_pairs_idx_ok(pairs@, items@.len() as int);
        lemma_paginate_idx_ok(sorted@, o.page as int, o.limit as int, items@.len() as int);
    }
    let mut out: Vec<CommentView> = Vec::new();
    let mut j: usize = 0;
    while j < pagev.len()
        invariant
            j <= pagev@.len(),
            idx_ok(pagev@, items@.len() as int),
            out@ == gather(items@, pagev@.subrange(0, j as int)),
        decreases pagev@.len() - j,
    {
        let idx = pagev[j].1;
        out.push(items[idx].dup());
        j = j + 1;
        assert(out@ =~= gather(items@, pagev@.subrange(0, j as int)));
    }
    assert(pagev@.subrange(0, pagev@.len() as int) =~= pagev@);
    out
}

/// The community filter as a closure over fixed options.
pub open spec fn community_m(o: QueryOptions) -> spec_fn(CommunityView) -> bool {
    |c: CommunityView| community_matches(c, o)
}

/// The community key as a closure over fixed options.
pub open spec fn community_k(o: QueryOptions) -> spec_fn(CommunityView) -> i64 {
    |c: CommunityView| community_key(c, o.sort)
}

/// What a community query returns: the ranked page of matching communities.
pub open spec fn spec_query_communities(items: Seq<CommunityView>, o: QueryOptions) -> Seq<
    CommunityView,
> {
    ranked_query(items, community_m(o), community_k(o), o.page as int, o.limit as int)
}

/// Runs a community query against the community table.
pub fn query_communities(items: &Vec<CommunityView>, o: &QueryOptions) -> (r: Vec<CommunityView>)
    requires
        1 <= o.page,
        0 <= o.limit,
    ensures
        r@ == spec_query_communities(items@, *o),
{
    let ghost m = community_m(*o);
    let ghost kf = community_k(*o);
    let mut pairs: Vec<(i64, usize)> = Vec::new();
    let mut i: usize = 0;
    while i < items.len()
        invariant
            i <= items@.len(),
            pairs@ == pairs_of(items@.subrange(0, i as int), m, kf),
            m == community_m(*o),
            kf == community_k(*o),
        decreases items@.len() - i,
    {
        if community_matches_ex(&items[i], o) {
            let key = community_key_ex(&items[i], o.sort);
            pairs.push((key, i));
        }
        i = i + 1;
        proof {
            let pre = items@.subrange(0, i as int);
            assert(pre.drop_last() =~= items@.subrange(0, i - 1));
            assert(pre.last() == items@[i - 1]);
            assert(m(items@[i - 1]) == community_matches(items@[i - 1], *o));
            assert(kf(items@[i - 1]) == community_key(items@[i - 1], o.sort));
        }
    }
    assert(items@.subrange(0, items@.len() as int) =~= items@);
    let sorted = sort_pairs_ex(&pairs);
    let pagev = paginate_pairs(&sorted, o.page, o.limit);
    proof {
        lemma_pairs_of_idx_ok(items@, m, kf);
        lemma_sort_pairs_idx_ok(pairs@, items@.len() as int);
        lemma_paginate_idx_ok(sorted@, o.page as int, o.limit as int, items@.len() as int);
    }
    let mut out: Vec<CommunityView> = Vec::new();
    let mut j: usize = 0;
    while j < pagev.len()
        invariant
            j <= pagev@.len(),
            idx_ok(pagev@, items@.len() as int),
            out@ == gather(items@, pagev@.subrange(0, j as int)),
        decreases pagev@.len() - j,
    {
        let idx = pagev[j].1;
        out.push(items[idx].dup());
        j = j + 1;
        assert(out@ =~= gather(items@, pagev@.subrange(0, j as int)));
    }
    assert(pagev@.subrange(0, pagev@.len() as int) =~= pagev@);
    out
}

/// The user filter as a closure over fixed options.
pub open spec fn user_m(o: QueryOptions) -> spec_fn(UserView) -> bool {
    |u: UserView| user_matches(u, o)
}

/// The user key as a closure over fixed options.
pub open spec fn user_k(o: QueryOptions) -> spec_fn(UserView) -> i64 {
    |u: UserView| user_key(u, o.sort)
}

/// What a user query returns: the ranked page of matching users.
pub open spec fn spec_query_users(items: Seq<UserView>, o: QueryOptions) -> Seq<UserView> {
    ranked_query(items, user_m(o), user_k(o), o.page as int, o.limit as int)
}

/// Runs a user query against the user table.
pub fn query_users(items: &Vec<UserView>, o: &QueryOptions) -> (r: Vec<UserView>)
    requires
        1 <= o.page,
        0 <= o.limit,
    ensures
        r@ == spec_query_users(items@, *o),
{
    let ghost m = user_m(*o);
    let ghost kf = user_k(*o);
    let mut pairs: Vec<(i64, usize)> = Vec::new();
    let mut i: usize = 0;
    while i < items.len()
        invariant
            i <= items@.len(),
            pairs@ == pairs_of(items@.subrange(0, i as int), m, kf),
            m == user_m(*o),
            kf == user_k(*o),
        decreases items@.len() - i,
    {
        if user_matches_ex(&items[i], o) {
            let key = user_key_ex(&items[i], o.sort);
            pairs.push((key, i));
        }
        i = i + 1;
        proof {
            let pre = items@.subrange(0, i as int);
            assert(pre.drop_last() =~= items@.subrange(0, i - 1));
            assert(pre.last() == items@[i - 1]);
            assert(m(items@[i - 1]) == user_matches(items@[i - 1], *o));
            assert(kf(items@[i - 1]) == user_key(items@[i - 1], o.sort));
        }
    }
    assert(items@.subrange(0, items@.len() as int) =~= items@);
    let sorted = sort_pairs_ex(&pairs);
    let pagev = paginate_pairs(&sorted, o.page, o.limit);
    proof {
        lemma_pairs_of_idx_ok(items@, m, kf);
        lemma_sort_pairs_idx_ok(pairs@, items@.len() as int);
        lemma_paginate_idx_ok(sorted@, o.page as int, o.limit as int, items@.len() as int);
    }
    let mut out: Vec<UserView> = Vec::new();
    let mut j: usize = 0;
    while j < pagev.len()
        invariant
            j <= pagev@.len(),
            idx_ok(pagev@, items@.len() as int),
            out@ == gather(items@, pagev@.subrange(0, j as int)),
        decreases pagev@.len() - j,
    {
        let idx = pagev[j].1;
        out.push(items[idx].dup());
        j = j + 1;
        assert(out@ =~= gather(items@, pagev@.subrange(0, j as int)));
    }
    assert(pagev@.subrange(0, pagev@.len() as int) =~= pagev@);
    out
}

} // verus!
