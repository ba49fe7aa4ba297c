//! The cross-cutting guarantees of the handlers, stated and proved against
//! the dispatch contract's transition relations.

use vstd::prelude::*;
use crate::api::{
    ApiError, bootstrap_site, CreateSite, Ctx, EditSite, GetModlog, GetModlogResponse, GetSite,
    GetSiteResponse, Oper, Perform, Search, SearchResponse, SiteResponse, TransferSite,
};
use crate::auth::spec_decode;
use crate::entities::UserView;
use crate::moderation::any_match;
use crate::query::{MAX_PAGE_LIMIT, SearchType, spec_resolve_limit, spec_search_type_of};
use crate::store::{
    first_idx, lemma_first_idx_exists, lemma_first_idx_props, spec_order_admins, spec_user_by_id,
    Store,
};

verus! {

/// Bootstrap idempotence: from a store with no site and a first-run
/// configuration, one site read bootstraps the site; a second read against
/// the resulting state creates nothing further and returns the same site.
pub proof fn lemma_bootstrap_idempotent(
    g1: Oper<GetSite>,
    g2: Oper<GetSite>,
    s: Store,
    ctx: Ctx,
    s1: Store,
    r1: Result<GetSiteResponse, ApiError>,
    s2: Store,
    r2: Result<GetSiteResponse, ApiError>,
)
    requires
        s.wf(),
        s.site is None,
        ctx.setup is Some,
        g1.outcome(s, ctx, s1, r1),
        g2.outcome(s1, ctx, s2, r2),
    ensures
        s1.site == Option::Some(bootstrap_site(s, ctx)),
        s1.next_user_id == s.next_user_id + 1,
        s.next_user_id + 1 < i32::MAX ==> s1.wf(),
        r1 matches Ok(resp1) && resp1.site == s1.site,
        s2 == s1,
        r2 matches Ok(resp2) && resp2.site == s1.site,
{
    if s.next_user_id + 1 < i32::MAX {
        assert forall|i: int| 0 <= i < s1.users.len() implies (#[trigger] s1.users[i]).id
            < s1.next_user_id by {
            if i < s.users.len() {
                assert(s1.users[i] == s.users[i]);
            } else {
                assert(s1.users[i].id == s.next_user_id);
            }
        }
    }
}

/// Re-entrant bootstrap safety: a site-creation attempt against a store that
/// already holds a site changes nothing and is refused with the uniqueness
/// conflict, even when its identity, policy and privilege checks all pass.
pub proof fn lemma_create_site_refused(
    c: Oper<CreateSite>,
    s: Store,
    ctx: Ctx,
    s2: Store,
    r: Result<SiteResponse, ApiError>,
)
    requires
        s.site is Some,
        c.outcome(s, ctx, s2, r),
        spec_decode(c.data.auth@, s.sessions@) is Some,
        !any_match(c.data.name@, ctx.policy@),
        c.data.description matches Some(desc) ==> !any_match(desc@, ctx.policy@),
        spec_user_by_id(s.users@, spec_decode(c.data.auth@, s.sessions@)->Some_0) matches Some(u)
            && u.admin,
    ensures
        s2 == s,
        r == Err::<SiteResponse, ApiError>(ApiError::SiteAlreadyExists),
{
}

/// Admin ordering: for any admin sequence containing the site creator, the
/// presented list has the creator at index 0 and keeps the order of the
/// remaining admins.
pub proof fn lemma_admin_ordering(admins: Seq<UserView>, creator_id: i32, w: int)
    requires
        0 <= w < admins.len(),
        admins[w].id == creator_id,
    ensures
        ({
            let r = spec_order_admins(admins, creator_id);
            let fi = first_idx(admins, creator_id);
            &&& 0 <= fi < admins.len()
            &&& r.len() == admins.len()
            &&& r[0] == admins[fi]
            &&& r[0].id == creator_id
            &&& r.subrange(1, r.len() as int) == admins.subrange(0, fi) + admins.subrange(
                fi + 1,
                admins.len() as int,
            )
        }),
{
    lemma_first_idx_exists(admins, creator_id, w);
    lemma_first_idx_props(admins, creator_id);
    let r = spec_order_admins(admins, creator_id);
    let fi = first_idx(admins, creator_id);
    assert(r.subrange(1, r.len() as int) =~= admins.subrange(0, fi) + admins.subrange(
        fi + 1,
        admins.len() as int,
    ));
}

/// Search completeness: an `All` search and a single-kind search over the
/// same term, scope, sort and page agree on that kind's result sequence.
pub proof fn lemma_search_completeness(
    a: Oper<Search>,
    b: Oper<Search>,
    s: Store,
    ctx: Ctx,
    sa: Store,
    ra: Result<SearchResponse, ApiError>,
    sb: Store,
    rb: Result<SearchResponse, ApiError>,
)
    requires
        spec_search_type_of(a.data.type_@) == Option::Some(SearchType::All),
        a.data.q == b.data.q,
        a.data.community_id == b.data.community_id,
        a.data.sort == b.data.sort,
        a.data.page == b.data.page,
        a.data.limit == b.data.limit,
        a.data.auth == b.data.auth,
        a.outcome(s, ctx, sa, ra),
        b.outcome(s, ctx, sb, rb),
    ensures
        match (ra, rb) {
            (Ok(pa), Ok(pb)) => {
                let stb = spec_search_type_of(b.data.type_@);
                &&& stb == Option::Some(SearchType::Posts) ==> pa.posts@ == pb.posts@
                &&& stb == Option::Some(SearchType::Comments) ==> pa.comments@ == pb.comments@
                &&& stb == Option::Some(SearchType::Communities) ==> pa.communities@
                    == pb.communities@
                &&& stb == Option::Some(SearchType::Users) ==> pa.users@ == pb.users@
            },
            _ => true,
        },
{
}

/// Modlog gating: with a community given, the three site-wide-only sequences
/// are empty regardless of store contents.
pub proof fn lemma_modlog_gating(
    g: Oper<GetModlog>,
    s: Store,
    ctx: Ctx,
    s2: Store,
    r: Result<GetModlogResponse, ApiError>,
)
    requires
        g.data.community_id is Some,
        g.outcome(s, ctx, s2, r),
    ensures
        r matches Ok(resp) ==> {
            &&& resp.removed_communities@.len() == 0
            &&& resp.banned@.len() == 0
            &&& resp.added@.len() == 0
        },
{
}

/// Pagination bound: any requested limit above the configured maximum is
/// clamped to the maximum.
pub proof fn lemma_pagination_bound(l: i64)
    requires
        l > MAX_PAGE_LIMIT as i64,
    ensures
        spec_resolve_limit(Option::Some(l)) == Option::Some(MAX_PAGE_LIMIT as i64),
{
}

/// Ownership-transfer audit: a successful transfer leaves exactly one new
/// add-admin record, targeting the new owner, acted by the old owner, and
/// the site's creator field now names the new owner.
pub proof fn lemma_transfer_audit(
    t: Oper<TransferSite>,
    s: Store,
    ctx: Ctx,
    s2: Store,
    r: Result<GetSiteResponse, ApiError>,
)
    requires
        t.outcome(s, ctx, s2, r),
    ensures
        r matches Ok(resp) ==> {
            &&& s2.added@.len() == s.added@.len() + 1
            &&& s2.added@.last().target_id == t.data.user_id
            &&& s2.added@.last().mod_user_id == s.site->Some_0.creator_id
            &&& s2.site matches Some(site) && site.creator_id == t.data.user_id
        },
{
}

/// Authorization: a site edit by an identity that exists but is not an admin
/// fails as not-an-admin and leaves the whole store, the site row included,
/// unchanged.
pub proof fn lemma_edit_site_authorization(
    e: Oper<EditSite>,
    s: Store,
    ctx: Ctx,
    s2: Store,
    r: Result<SiteResponse, ApiError>,
)
    requires
        e.outcome(s, ctx, s2, r),
        spec_decode(e.data.auth@, s.sessions@) is Some,
        spec_user_by_id(s.users@, spec_decode(e.data.auth@, s.sessions@)->Some_0) matches Some(u)
            && !u.admin,
        !any_match(e.data.name@, ctx.policy@),
        e.data.description matches Some(desc) ==> !any_match(desc@, ctx.policy@),
    ensures
        s2 == s,
        s2.site == s.site,
        r == Err::<SiteResponse, ApiError>(ApiError::NotAnAdmin),
{
}

} // verus!
