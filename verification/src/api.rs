//! The operation handlers and their dispatch contract.
//!
//! Each command type is a flat field set; `Oper` binds a command payload to
//! its handler through the `Perform` trait, whose contract ties the executed
//! handler to that command's exact transition relation over the store.

use vstd::prelude::*;
use vstd::string::StringExecFns;
use crate::auth::{decode, spec_decode};
use crate::entities::{
    Category, CommentView, CommunityView, Dup, dup_opt_string, dup_vec, ModActionView, PostView,
    SetupConfig, SiteView, UserView,
};
use crate::moderation::{any_match, check, matched_of};
use crate::modlog::{query_mod_actions, spec_query_mod};
use crate::query::{
    resolve_limit, resolve_page, QueryOptions, search_type_of_str, sort_of_str, SearchType,
    SortType, spec_resolve_limit, spec_resolve_page, spec_search_type_of, spec_sort_of,
};
use crate::search::{
    query_comments, query_communities, query_posts, query_users, spec_query_comments,
    spec_query_communities, spec_query_posts, spec_query_users,
};
use crate::store::{
    filter_admins, filter_banned, find_user, order_admins, spec_admins, spec_banned,
    spec_order_admins, spec_user_by_id, Store,
};
use crate::text::{join_terms, spec_join};

verus! {

/// The classified failures a handler surfaces, each carrying its wire code.
pub enum ApiError {
    /// Token missing, malformed, expired, or signature invalid.
    NotLoggedIn,
    /// The actor lacks the required privilege (not admin / not creator).
    NotAnAdmin,
    /// Uniqueness violation on site creation.
    SiteAlreadyExists,
    /// The site row to update is absent or the update was refused.
    CouldntUpdateSite,
    /// A referenced user or site is absent where existence is required.
    NotFound,
    /// Unknown sort-mode name.
    InvalidSort,
    /// Unknown search-kind name.
    InvalidSearchType,
    /// Page below 1.
    InvalidPage,
    /// Limit below 1.
    InvalidLimit,
    /// The moderation filter matched these banned terms.
    Slurs(Vec<String>),
}

impl ApiError {
    /// The wire code: a single string per classification; the moderation
    /// failure carries the joined matched terms instead of a generic code.
    pub open spec fn spec_code(self) -> Seq<char> {
        match self {
            ApiError::NotLoggedIn => "not_logged_in"@,
            ApiError::NotAnAdmin => "not_an_admin"@,
            ApiError::SiteAlreadyExists => "site_already_exists"@,
            ApiError::CouldntUpdateSite => "couldnt_update_site"@,
            ApiError::NotFound => "not_found"@,
            ApiError::InvalidSort => "invalid_sort"@,
            ApiError::InvalidSearchType => "invalid_search_type"@,
            ApiError::InvalidPage => "invalid_page"@,
            ApiError::InvalidLimit => "invalid_limit"@,
            ApiError::Slurs(v) => spec_join(v@, ", "@),
        }
    }

    /// Renders the wire code.
    pub fn code(&self) -> (r: String)
        ensures
            r@ == self.spec_code(),
    {
        match self {
            ApiError::NotLoggedIn => String::from_str("not_logged_in"),
            ApiError::NotAnAdmin => String::from_str("not_an_admin"),
            ApiError::SiteAlreadyExists => String::from_str("site_already_exists"),
            ApiError::CouldntUpdateSite => String::from_str("couldnt_update_site"),
            ApiError::NotFound => String::from_str("not_found"),
            ApiError::InvalidSort => String::from_str("invalid_sort"),
            ApiError::InvalidSearchType => String::from_str("invalid_search_type"),
            ApiError::InvalidPage => String::from_str("invalid_page"),
            ApiError::InvalidLimit => String::from_str("invalid_limit"),
            ApiError::Slurs(v) => join_terms(v, ", "),
        }
    }
}

/// Per-request context the transport layer supplies: the clock, the
/// first-run configuration, and the banned-term policy.
pub struct Ctx {
    /// The current time, seconds.
    pub now: i32,
    /// First-run admin configuration, when the deployment has one.
    pub setup: Option<SetupConfig>,
    /// The banned-term policy the moderation filter scans against.
    pub policy: Vec<String>,
}

/// The dispatch envelope binding a command payload to its handler.
pub struct Oper<T> {
    pub data: T,
}

impl<T> Oper<T> {
    pub fn new(data: T) -> (r: Oper<T>)
        ensures
            r.data == data,
    {
        Oper { data }
    }
}

/// The dispatch contract: performing a command from a store state satisfying
/// the command's precondition yields a state and result in the command's
/// transition relation.
pub trait Perform<Resp>: Sized {
    /// What the handler asks of the caller's store state.
    spec fn pre(&self, s: Store, ctx: Ctx) -> bool;

    /// The command's exact transition relation: which result and successor
    /// store state the handler produces from `s`.
    spec fn outcome(&self, s: Store, ctx: Ctx, s2: Store, r: Result<Resp, ApiError>) -> bool;

    /// Runs the handler against the store.
    fn perform(&self, store: &mut Store, ctx: &Ctx) -> (r: Result<Resp, ApiError>)
        requires
            self.pre(*old(store), *ctx),
        ensures
            self.outcome(*old(store), *ctx, *final(store), r),
    ;
}

/// Lists all content categories.
pub struct ListCategories {}

pub struct ListCategoriesResponse {
    pub categories: Vec<Category>,
}

impl Perform<ListCategoriesResponse> for Oper<ListCategories> {
    open spec fn pre(&self, s: Store, ctx: Ctx) -> bool {
        true
    }

    open spec fn outcome(
        &self,
        s: Store,
        ctx: Ctx,
        s2: Store,
        r: Result<ListCategoriesResponse, ApiError>,
    ) -> bool {
        &&& s2 == s
        &&& r matches Ok(resp) && resp.categories@ == s.categories@
    }

    fn perform(&self, store: &mut Store, ctx: &Ctx) -> (r: Result<
        ListCategoriesResponse,
        ApiError,
    >) {
        let categories = dup_vec(&store.categories);
        Ok(ListCategoriesResponse { categories })
    }
}

/// All fields of the two states agree except possibly `site`.
pub open spec fn same_except_site(s: Store, s2: Store) -> bool {
    &&& s2.categories == s.categories
    &&& s2.users == s.users
    &&& s2.posts == s.posts
    &&& s2.comments == s.comments
    &&& s2.communities == s.communities
    &&& s2.removed_posts == s.removed_posts
    &&& s2.locked_posts == s.locked_posts
    &&& s2.stickied_posts == s.stickied_posts
    &&& s2.removed_comments == s.removed_comments
    &&& s2.removed_communities == s.removed_communities
    &&& s2.banned_from_community == s.banned_from_community
    &&& s2.banned_site == s.banned_site
    &&& s2.added_to_community == s.added_to_community
    &&& s2.added == s.added
    &&& s2.sessions == s.sessions
    &&& s2.next_user_id == s.next_user_id
}

/// All fields agree except possibly `site` and the admin-addition table.
pub open spec fn same_except_site_added(s: Store, s2: Store) -> bool {
    &&& s2.categories == s.categories
    &&& s2.users == s.users
    &&& s2.posts == s.posts
    &&& s2.comments == s.comments
    &&& s2.communities == s.communities
    &&& s2.removed_posts == s.removed_posts
    &&& s2.locked_posts == s.locked_posts
    &&& s2.stickied_posts == s.stickied_posts
    &&& s2.removed_comments == s.removed_comments
    &&& s2.removed_communities == s.removed_communities
    &&& s2.banned_from_community == s.banned_from_community
    &&& s2.banned_site == s.banned_site
    &&& s2.added_to_community == s.added_to_community
    &&& s2.sessions == s.sessions
    &&& s2.next_user_id == s.next_user_id
}

/// All fields agree except possibly `site`, `users` and the id counter: what
/// bootstrap touches.
pub open spec fn same_except_bootstrap(s: Store, s2: Store) -> bool {
    &&& s2.categories == s.categories
    &&& s2.posts == s.posts
    &&& s2.comments == s.comments
    &&& s2.communities == s.communities
    &&& s2.removed_posts == s.removed_posts
    &&& s2.locked_posts == s.locked_posts
    &&& s2.stickied_posts == s.stickied_posts
    &&& s2.removed_comments == s.removed_comments
    &&& s2.removed_communities == s.removed_communities
    &&& s2.banned_from_community == s.banned_from_community
    &&& s2.banned_site == s.banned_site
    &&& s2.added_to_community == s.added_to_community
    &&& s2.added == s.added
    &&& s2.sessions == s.sessions
}

/// Reads the moderation log, scoped by community and acting moderator.
pub struct GetModlog {
    pub mod_user_id: Option<i32>,
    pub community_id: Option<i32>,
    pub page: Option<i64>,
    pub limit: Option<i64>,
}

/// Nine named action lists. The six community-scoped lists are always
/// queried; the three site-wide-only lists (`removed_communities`, `banned`,
/// `added`) are queried only when no community is given, and otherwise come
/// back empty without touching their tables.
pub struct GetModlogResponse {
    pub removed_posts: Vec<ModActionView>,
    pub locked_posts: Vec<ModActionView>,
    pub stickied_posts: Vec<ModActionView>,
    pub removed_comments: Vec<ModActionView>,
    pub removed_communities: Vec<ModActionView>,
    pub banned_from_community: Vec<ModActionView>,
    pub banned: Vec<ModActionView>,
    pub added_to_community: Vec<ModActionView>,
    pub added: Vec<ModActionView>,
}

impl Perform<GetModlogResponse> for Oper<GetModlog> {
    open spec fn pre(&self, s: Store, ctx: Ctx) -> bool {
        true
    }

    open spec fn outcome(
        &self,
        s: Store,
        ctx: Ctx,
        s2: Store,
        r: Result<GetModlogResponse, ApiError>,
    ) -> bool {
        let d = self.data;
        &&& s2 == s
        &&& match spec_resolve_page(d.page) {
            Option::None => r == Err::<GetModlogResponse, ApiError>(ApiError::InvalidPage),
            Option::Some(page) => match spec_resolve_limit(d.limit) {
                Option::None => r == Err::<GetModlogResponse, ApiError>(ApiError::InvalidLimit),
                Option::Some(limit) => r matches Ok(resp) && {
                    &&& resp.removed_posts@ == spec_query_mod(
                        s.removed_posts@,
                        d.community_id,
                        d.mod_user_id,
                        page as int,
                        limit as int,
                    )
                    &&& resp.locked_posts@ == spec_query_mod(
                        s.locked_posts@,
                        d.community_id,
                        d.mod_user_id,
                        page as int,
                        limit as int,
                    )
                    &&& resp.stickied_posts@ == spec_query_mod(
                        s.stickied_posts@,
                        d.community_id,
                        d.mod_user_id,
                        page as int,
                        limit as int,
                    )
                    &&& resp.removed_comments@ == spec_query_mod(
                        s.removed_comments@,
                        d.community_id,
                        d.mod_user_id,
                        page as int,
                        limit as int,
                    )
                    &&& resp.banned_from_community@ == spec_query_mod(
                        s.banned_from_community@,
                        d.community_id,
                        d.mod_user_id,
                        page as int,
                        limit as int,
                    )
                    &&& resp.added_to_community@ == spec_query_mod(
                        s.added_to_community@,
                        d.community_id,
                        d.mod_user_id,
                        page as int,
                        limit as int,
                    )
                    &&& d.community_id is None ==> {
                        &&& resp.removed_communities@ == spec_query_mod(
                            s.removed_communities@,
                            Option::None,
                            d.mod_user_id,
                            page as int,
                            limit as int,
                        )
                        &&& resp.banned@ == spec_query_mod(
                            s.banned_site@,
                            Option::None,
                            d.mod_user_id,
                            page as int,
                            limit as int,
                        )
                        &&& resp.added@ == spec_query_mod(
                            s.added@,
                            Option::None,
                            d.mod_user_id,
                            page as int,
                            limit as int,
                        )
                    }
                    &&& d.community_id is Some ==> {
                        &&& resp.removed_communities@ == Seq::<ModActionView>::empty()
                        &&& resp.banned@ == Seq::<ModActionView>::empty()
                        &&& resp.added@ == Seq::<ModActionView>::empty()
                    }
                },
            },
        }
    }

    fn perform(&self, store: &mut Store, ctx: &Ctx) -> (r: Result<GetModlogResponse, ApiError>) {
        let page = match resolve_page(&self.data.page) {
            Option::Some(p) => p,
            Option::None => {
                return Err(ApiError::InvalidPage);
            },
        };
        let limit = match resolve_limit(&self.data.limit) {
            Option::Some(l) => l,
            Option::None => {
                return Err(ApiError::InvalidLimit);
            },
        };
        let community_id = self.data.community_id;
        let mod_user_id = self.data.mod_user_id;
        let removed_posts = query_mod_actions(
            &store.removed_posts,
            &community_id,
            &mod_user_id,
            page,
            limit,
        );
        let locked_posts = query_mod_actions(
            &store.locked_posts,
            &community_id,
            &mod_user_id,
            page,
            limit,
        );
        let stickied_posts = query_mod_actions(
            &store.stickied_posts,
            &community_id,
            &mod_user_id,
            page,
            limit,
        );
        let removed_comments = query_mod_actions(
            &store.removed_comments,
            &community_id,
            &mod_user_id,
            page,
            limit,
        );
        let banned_from_community = query_mod_actions(
            &store.banned_from_community,
            &community_id,
            &mod_user_id,
            page,
            limit,
        );
        let added_to_community = query_mod_actions(
            &store.added_to_community,
            &community_id,
            &mod_user_id,
            page,
            limit,
        );
        let site_wide: Option<i32> = Option::None;
        let (removed_communities, banned, added) = match community_id {
            Option::None => (
                query_mod_actions(&store.removed_communities, &site_wide, &mod_user_id, page, limit),
                query_mod_actions(&store.banned_site, &site_wide, &mod_user_id, page, limit),
                query_mod_actions(&store.added, &site_wide, &mod_user_id, page, limit),
            ),
            Option::Some(_) => (Vec::new(), Vec::new(), Vec::new()),
        };
        Ok(
            GetModlogResponse {
                removed_posts,
                locked_posts,
                stickied_posts,
                removed_comments,
                removed_communities,
                banned_from_community,
                banned,
                added_to_community,
                added,
            },
        )
    }
}

/// Federated search across the four searchable entity types.
pub struct Search {
    pub q: String,
    pub type_: String,
    pub community_id: Option<i32>,
    pub sort: String,
    pub page: Option<i64>,
    pub limit: Option<i64>,
    pub auth: Option<String>,
}

/// The four result sequences; the kinds a search did not select come back as
/// empty sequences, never absent fields.
pub struct SearchResponse {
    pub type_: String,
    pub comments: Vec<CommentView>,
    pub posts: Vec<PostView>,
    pub communities: Vec<CommunityView>,
    pub users: Vec<UserView>,
}

/// The acting user a search runs as: an absent or undecodable token degrades
/// to anonymous search rather than failing.
pub open spec fn spec_search_uid(d: Search, s: Store) -> Option<i32> {
    match d.auth {
        Option::Some(tok) => spec_decode(tok@, s.sessions@),
        Option::None => Option::None,
    }
}

/// The query options one search arm runs with.
pub open spec fn mk_opts(
    d: Search,
    uid: Option<i32>,
    sort: SortType,
    page: i64,
    limit: i64,
    url: bool,
    show_nsfw: bool,
) -> QueryOptions {
    QueryOptions {
        sort,
        search_term: if url {
            Option::None
        } else {
            Option::Some(d.q)
        },
        url_search: if url {
            Option::Some(d.q)
        } else {
            Option::None
        },
        community_id: d.community_id,
        creator_id: Option::None,
        show_nsfw,
        my_user_id: uid,
        page,
        limit,
    }
}

/// Builds the query options one search arm runs with.
pub fn mk_opts_ex(
    d: &Search,
    uid: Option<i32>,
    sort: SortType,
    page: i64,
    limit: i64,
    url: bool,
    show_nsfw: bool,
) -> (o: QueryOptions)
    ensures
        o == mk_opts(*d, uid, sort, page, limit, url, show_nsfw),
{
    QueryOptions {
        sort,
        search_term: if url {
            Option::None
        } else {
            Option::Some(d.q.clone())
        },
        url_search: if url {
            Option::Some(d.q.clone())
        } else {
            Option::None
        },
        community_id: d.community_id,
        creator_id: Option::None,
        show_nsfw,
        my_user_id: uid,
        page,
        limit,
    }
}

/// The posts a search returns: selected by the Posts, Url and All kinds.
/// Post search opts in to NSFW content.
pub open spec fn spec_search_posts(
    s: Store,
    d: Search,
    uid: Option<i32>,
    st: SearchType,
    sort: SortType,
    page: i64,
    limit: i64,
) -> Seq<PostView> {
    if st == SearchType::Posts || st == SearchType::All {
        spec_query_posts(s.posts@, mk_opts(d, uid, sort, page, limit, false, true))
    } else if st == SearchType::Url {
        spec_query_posts(s.posts@, mk_opts(d, uid, sort, page, limit, true, true))
    } else {
        Seq::empty()
    }
}

/// The comments a search returns: selected by the Comments and All kinds.
pub open spec fn spec_search_comments(
    s: Store,
    d: Search,
    uid: Option<i32>,
    st: SearchType,
    sort: SortType,
    page: i64,
    limit: i64,
) -> Seq<CommentView> {
    if st == SearchType::Comments || st == SearchType::All {
        spec_query_comments(s.comments@, mk_opts(d, uid, sort, page, limit, false, false))
    } else {
        Seq::empty()
    }
}

/// The communities a search returns: selected by the Communities and All
/// kinds; NSFW communities stay hidden.
pub open spec fn spec_search_communities(
    s: Store,
    d: Search,
    uid: Option<i32>,
    st: SearchType,
    sort: SortType,
    page: i64,
    limit: i64,
) -> Seq<CommunityView> {
    if st == SearchType::Communities || st == SearchType::All {
        spec_query_communities(s.communities@, mk_opts(d, uid, sort, page, limit, false, false))
    } else {
        Seq::empty()
    }
}

/// The users a search returns: selected by the Users and All kinds.
pub open spec fn spec_search_users(
    s: Store,
    d: Search,
    uid: Option<i32>,
    st: SearchType,
    sort: SortType,
    page: i64,
    limit: i64,
) -> Seq<UserView> {
    if st == SearchType::Users || st == SearchType::All {
        spec_query_users(s.users@, mk_opts(d, uid, sort, page, limit, false, false))
    } else {
        Seq::empty()
    }
}

impl Perform<SearchResponse> for Oper<Search> {
    open spec fn pre(&self, s: Store, ctx: Ctx) -> bool {
        true
    }

    open spec fn outcome(
        &self,
        s: Store,
        ctx: Ctx,
        s2: Store,
        r: Result<SearchResponse, ApiError>,
    ) -> bool {
        let d = self.data;
        let uid = spec_search_uid(d, s);
        &&& s2 == s
        &&& match spec_sort_of(d.sort@) {
            Option::None => r == Err::<SearchResponse, ApiError>(ApiError::InvalidSort),
            Option::Some(sort) => match spec_search_type_of(d.type_@) {
                Option::None => r == Err::<SearchResponse, ApiError>(ApiError::InvalidSearchType),
                Option::Some(st) => match spec_resolve_page(d.page) {
                    Option::None => r == Err::<SearchResponse, ApiError>(ApiError::InvalidPage),
                    Option::Some(page) => match spec_resolve_limit(d.limit) {
                        Option::None => r == Err::<SearchResponse, ApiError>(
                            ApiError::InvalidLimit,
                        ),
                        Option::Some(limit) => r matches Ok(resp) && {
                            &&& resp.type_ == d.type_
                            &&& resp.posts@ == spec_search_posts(s, d, uid, st, sort, page, limit)
                            &&& resp.comments@ == spec_search_comments(
                                s,
                                d,
                                uid,
                                st,
                                sort,
                                page,
                                limit,
                            )
                            &&& resp.communities@ == spec_search_communities(
                                s,
                                d,
                                uid,
                                st,
                                sort,
                                page,
                                limit,
                            )
                            &&& resp.users@ == spec_search_users(s, d, uid, st, sort, page, limit)
                        },
                    },
                },
            },
        }
    }

    fn perform(&self, store: &mut Store, ctx: &Ctx) -> (r: Result<SearchResponse, ApiError>) {
        let d = &self.data;
        let uid: Option<i32> = match &d.auth {
            Option::Some(tok) => decode(tok, &store.sessions),
            Option::None => Option::None,
        };
        let sort = match sort_of_str(&d.sort) {
            Option::Some(x) => x,
            Option::None => {
                return Err(ApiError::InvalidSort);
            },
        };
        let st = match search_type_of_str(&d.type_) {
            Option::Some(x) => x,
            Option::None => {
                return Err(ApiError::InvalidSearchType);
            },
        };
        let page = match resolve_page(&d.page) {
            Option::Some(p) => p,
            Option::None => {
                return Err(ApiError::InvalidPage);
            },
        };
        let limit = match resolve_limit(&d.limit) {
            Option::Some(l) => l,
            Option::None => {
                return Err(ApiError::InvalidLimit);
            },
        };
        let mut posts: Vec<PostView> = Vec::new();
        let mut comments: Vec<CommentView> = Vec::new();
        let mut communities: Vec<CommunityView> = Vec::new();
        let mut users: Vec<UserView> = Vec::new();
        match st {
            SearchType::Posts => {
                let o = mk_opts_ex(d, uid, sort, page, limit, false, true);
                posts = query_posts(&store.posts, &o);
            },
            SearchType::Comments => {
                let o = mk_opts_ex(d, uid, sort, page, limit, false, false);
                comments = query_comments(&store.comments, &o);
            },
            SearchType::Communities => {
                let o = mk_opts_ex(d, uid, sort, page, limit, false, false);
                communities = query_communities(&store.communities, &o);
            },
            SearchType::Users => {
                let o = mk_opts_ex(d, uid, sort, page, limit, false, false);
                users = query_users(&store.users, &o);
            },
            SearchType::All => {
                let op = mk_opts_ex(d, uid, sort, page, limit, false, true);
                posts = query_posts(&store.posts, &op);
                let oc = mk_opts_ex(d, uid, sort, page, limit, false, false);
                comments = query_comments(&store.comments, &oc);
                let om = mk_opts_ex(d, uid, sort, page, limit, false, false);
                communities = query_communities(&store.communities, &om);
                let ou = mk_opts_ex(d, uid, sort, page, limit, false, false);
                users = query_users(&store.users, &ou);
            },
            SearchType::Url => {
                let o = mk_opts_ex(d, uid, sort, page, limit, true, true);
                posts = query_posts(&store.posts, &o);
            },
        }
        Ok(
            SearchResponse {
                type_: d.type_.clone(),
                comments,
                posts,
                communities,
                users,
            },
        )
    }
}

/// The result is the moderation-policy failure carrying exactly the terms
/// matched in `text`.
pub open spec fn slur_result<Resp>(
    r: Result<Resp, ApiError>,
    text: Seq<char>,
    policy: Seq<String>,
) -> bool {
    r matches Err(ApiError::Slurs(v)) && v@ == matched_of(text, policy)
}

/// Creates the singleton site row.
pub struct CreateSite {
    pub name: String,
    pub description: Option<String>,
    pub enable_downvotes: bool,
    pub open_registration: bool,
    pub enable_nsfw: bool,
    pub auth: String,
}

/// Edits the singleton site row, preserving its creator.
pub struct EditSite {
    pub name: String,
    pub description: Option<String>,
    pub enable_downvotes: bool,
    pub open_registration: bool,
    pub enable_nsfw: bool,
    pub auth: String,
}

pub struct SiteResponse {
    pub site: SiteView,
}

impl Perform<SiteResponse> for Oper<CreateSite> {
    open spec fn pre(&self, s: Store, ctx: Ctx) -> bool {
        true
    }

    open spec fn outcome(
        &self,
        s: Store,
        ctx: Ctx,
        s2: Store,
        r: Result<SiteResponse, ApiError>,
    ) -> bool {
        let d = self.data;
        match spec_decode(d.auth@, s.sessions@) {
            Option::None => s2 == s && r == Err::<SiteResponse, ApiError>(ApiError::NotLoggedIn),
            Option::Some(uid) => if any_match(d.name@, ctx.policy@) {
                s2 == s && slur_result(r, d.name@, ctx.policy@)
            } else if d.description matches Some(desc) && any_match(desc@, ctx.policy@) {
                s2 == s && slur_result(r, d.description->Some_0@, ctx.policy@)
            } else {
                match spec_user_by_id(s.users@, uid) {
                    Option::None => s2 == s && r == Err::<SiteResponse, ApiError>(
                        ApiError::NotFound,
                    ),
                    Option::Some(u) => if !u.admin {
                        s2 == s && r == Err::<SiteResponse, ApiError>(ApiError::NotAnAdmin)
                    } else if s.site is Some {
                        s2 == s && r == Err::<SiteResponse, ApiError>(ApiError::SiteAlreadyExists)
                    } else {
                        let site = SiteView {
                            name: d.name,
                            description: d.description,
                            creator_id: uid,
                            enable_downvotes: d.enable_downvotes,
                            open_registration: d.open_registration,
                            enable_nsfw: d.enable_nsfw,
                            published: ctx.now,
                            updated: Option::None,
                        };
                        &&& s2.site == Option::Some(site)
                        &&& same_except_site(s, s2)
                        &&& r matches Ok(resp) && resp.site == site
                    },
                }
            },
        }
    }

    fn perform(&self, store: &mut Store, ctx: &Ctx) -> (r: Result<SiteResponse, ApiError>) {
        let d = &self.data;
        let uid = match decode(&d.auth, &store.sessions) {
            Option::Some(u) => u,
            Option::None => {
                return Err(ApiError::NotLoggedIn);
            },
        };
        if let Err(slurs) = check(&d.name, &ctx.policy) {
            return Err(ApiError::Slurs(slurs));
        }
        if let Option::Some(description) = &d.description {
            if let Err(slurs) = check(description, &ctx.policy) {
                return Err(ApiError::Slurs(slurs));
            }
        }
        let u = match find_user(&store.users, uid) {
            Option::Some(u) => u,
            Option::None => {
                return Err(ApiError::NotFound);
            },
        };
        if !u.admin {
            return Err(ApiError::NotAnAdmin);
        }
        if let Option::Some(_) = &store.site {
            return Err(ApiError::SiteAlreadyExists);
        }
        let site = SiteView {
            name: d.name.clone(),
            description: dup_opt_string(&d.description),
            creator_id: uid,
            enable_downvotes: d.enable_downvotes,
            open_registration: d.open_registration,
            enable_nsfw: d.enable_nsfw,
            published: ctx.now,
            updated: Option::None,
        };
        let site_view = site.dup();
        store.site = Option::Some(site);
        Ok(SiteResponse { site: site_view })
    }
}

impl Perform<SiteResponse> for Oper<EditSite> {
    open spec fn pre(&self, s: Store, ctx: Ctx) -> bool {
        true
    }

    open spec fn outcome(
        &self,
        s: Store,
        ctx: Ctx,
        s2: Store,
        r: Result<SiteResponse, ApiError>,
    ) -> bool {
        let d = self.data;
        match spec_decode(d.auth@, s.sessions@) {
            Option::None => s2 == s && r == Err::<SiteResponse, ApiError>(ApiError::NotLoggedIn),
            Option::Some(uid) => if any_match(d.name@, ctx.policy@) {
                s2 == s && slur_result(r, d.name@, ctx.policy@)
            } else if d.description matches Some(desc) && any_match(desc@, ctx.policy@) {
                s2 == s && slur_result(r, d.description->Some_0@, ctx.policy@)
            } else {
                match spec_user_by_id(s.users@, uid) {
                    Option::None => s2 == s && r == Err::<SiteResponse, ApiError>(
                        ApiError::NotFound,
                    ),
                    Option::Some(u) => if !u.admin {
                        s2 == s && r == Err::<SiteResponse, ApiError>(ApiError::NotAnAdmin)
                    } else {
                        match s.site {
                            Option::None => s2 == s && r == Err::<SiteResponse, ApiError>(
                                ApiError::CouldntUpdateSite,
                            ),
                            Option::Some(old_site) => {
                                let site = SiteView {
                                    name: d.name,
                                    description: d.description,
                                    creator_id: old_site.creator_id,
                                    enable_downvotes: d.enable_downvotes,
                                    open_registration: d.open_registration,
                                    enable_nsfw: d.enable_nsfw,
                                    published: old_site.published,
                                    updated: Option::Some(ctx.now),
                                };
                                &&& s2.site == Option::Some(site)
                                &&& same_except_site(s, s2)
                                &&& r matches Ok(resp) && resp.site == site
                            },
                        }
                    },
                }
            },
        }
    }

    fn perform(&self, store: &mut Store, ctx: &Ctx) -> (r: Result<SiteResponse, ApiError>) {
        let d = &self.data;
        let uid = match decode(&d.auth, &store.sessions) {
            Option::Some(u) => u,
            Option::None => {
                return Err(ApiError::NotLoggedIn);
            },
        };
        if let Err(slurs) = check(&d.name, &ctx.policy) {
            return Err(ApiError::Slurs(slurs));
        }
        if let Option::Some(description) = &d.description {
            if let Err(slurs) = check(description, &ctx.policy) {
                return Err(ApiError::Slurs(slurs));
            }
        }
        let u = match find_user(&store.users, uid) {
            Option::Some(u) => u,
            Option::None => {
                return Err(ApiError::NotFound);
            },
        };
        if !u.admin {
            return Err(ApiError::NotAnAdmin);
        }
        let found_site = match &store.site {
            Option::Some(sv) => sv.dup(),
            Option::None => {
                return Err(ApiError::CouldntUpdateSite);
            },
        };
        let site = SiteView {
            name: d.name.clone(),
            description: dup_opt_string(&d.description),
            creator_id: found_site.creator_id,
            enable_downvotes: d.enable_downvotes,
            open_registration: d.open_registration,
            enable_nsfw: d.enable_nsfw,
            published: found_site.published,
            updated: Option::Some(ctx.now),
        };
        let site_view = site.dup();
        store.site = Option::Some(site);
        Ok(SiteResponse { site: site_view })
    }
}

/// Reads the site, bootstrapping it on a first run with a setup
/// configuration.
pub struct GetSite {}

pub struct GetSiteResponse {
    pub site: Option<SiteView>,
    pub admins: Vec<UserView>,
    pub banned: Vec<UserView>,
    /// Live presence counting is an external collaborator's responsibility;
    /// this core always reports 0.
    pub online: usize,
}

/// The administrator bootstrap creates on a first run.
pub open spec fn bootstrap_admin(s: Store, ctx: Ctx) -> UserView {
    UserView {
        id: s.next_user_id,
        name: ctx.setup->Some_0.admin_username,
        admin: true,
        banned: false,
        published: ctx.now,
        score: 0,
    }
}

/// The site row bootstrap creates on a first run, owned by the new
/// administrator, with every feature flag off.
pub open spec fn bootstrap_site(s: Store, ctx: Ctx) -> SiteView {
    SiteView {
        name: ctx.setup->Some_0.site_name,
        description: Option::None,
        creator_id: s.next_user_id,
        enable_downvotes: false,
        open_registration: false,
        enable_nsfw: false,
        published: ctx.now,
        updated: Option::None,
    }
}

impl Perform<GetSiteResponse> for Oper<GetSite> {
    /// Store integrity is needed only where bootstrap will allocate an id.
    open spec fn pre(&self, s: Store, ctx: Ctx) -> bool {
        s.site is None && ctx.setup is Some ==> s.wf()
    }

    open spec fn outcome(
        &self,
        s: Store,
        ctx: Ctx,
        s2: Store,
        r: Result<GetSiteResponse, ApiError>,
    ) -> bool {
        match s.site {
            Option::Some(site) => {
                &&& s2 == s
                &&& r matches Ok(resp) && {
                    &&& resp.site == Option::Some(site)
                    &&& resp.admins@ == spec_order_admins(spec_admins(s.users@), site.creator_id)
                    &&& resp.banned@ == spec_banned(s.users@)
                    &&& resp.online == 0
                }
            },
            Option::None => match ctx.setup {
                Option::None => {
                    &&& s2 == s
                    &&& r matches Ok(resp) && {
                        &&& resp.site is None
                        &&& resp.admins@ == Seq::<UserView>::empty()
                        &&& resp.banned@ == Seq::<UserView>::empty()
                        &&& resp.online == 0
                    }
                },
                Option::Some(setup) => {
                    let admin = bootstrap_admin(s, ctx);
                    let site = bootstrap_site(s, ctx);
                    &&& s2.site == Option::Some(site)
                    &&& s2.users@ == s.users@.push(admin)
                    &&& s2.next_user_id == s.next_user_id + 1
                    &&& same_except_bootstrap(s, s2)
                    &&& r matches Ok(resp) && {
                        &&& resp.site == Option::Some(site)
                        &&& resp.admins@ == spec_order_admins(
                            spec_admins(s2.users@),
                            site.creator_id,
                        )
                        &&& resp.banned@ == spec_banned(s2.users@)
                        &&& resp.online == 0
                    }
                },
            },
        }
    }

    fn perform(&self, store: &mut Store, ctx: &Ctx) -> (r: Result<GetSiteResponse, ApiError>) {
        let has_site = match &store.site {
            Option::Some(_) => true,
            Option::None => false,
        };
        let site_view: SiteView = if has_site {
            match &store.site {
                Option::Some(sv) => sv.dup(),
                Option::None => {
                    return Err(ApiError::NotFound);
                },
            }
        } else {
            match &ctx.setup {
                Option::Some(setup) => {
                    let new_id = store.next_user_id;
                    let admin = UserView {
                        id: new_id,
                        name: setup.admin_username.clone(),
                        admin: true,
                        banned: false,
                        published: ctx.now,
                        score: 0,
                    };
                    store.users.push(admin);
                    store.next_user_id = new_id + 1;
                    let site = SiteView {
                        name: setup.site_name.clone(),
                        description: Option::None,
                        creator_id: new_id,
                        enable_downvotes: false,
                        open_registration: false,
                        enable_nsfw: false,
                        published: ctx.now,
                        updated: Option::None,
                    };
                    let sv = site.dup();
                    store.site = Option::Some(site);
                    sv
                },
                Option::None => {
                    // Neither a site nor a first-run configuration: an empty
                    // site with no admin or banned lists.
                    return Ok(
                        GetSiteResponse {
                            site: Option::None,
                            admins: Vec::new(),
                            banned: Vec::new(),
                            online: 0,
                        },
                    );
                },
            }
        };
        let admins = order_admins(filter_admins(&store.users), site_view.creator_id);
        let banned = filter_banned(&store.users);
        Ok(GetSiteResponse { site: Option::Some(site_view), admins, banned, online: 0 })
    }
}

/// Transfers site ownership to another user, leaving an add-admin audit
/// record.
pub struct TransferSite {
    pub user_id: i32,
    pub auth: String,
}

impl Perform<GetSiteResponse> for Oper<TransferSite> {
    open spec fn pre(&self, s: Store, ctx: Ctx) -> bool {
        true
    }

    open spec fn outcome(
        &self,
        s: Store,
        ctx: Ctx,
        s2: Store,
        r: Result<GetSiteResponse, ApiError>,
    ) -> bool {
        let d = self.data;
        match spec_decode(d.auth@, s.sessions@) {
            Option::None => s2 == s && r == Err::<GetSiteResponse, ApiError>(
                ApiError::NotLoggedIn,
            ),
            Option::Some(uid) => match s.site {
                Option::None => s2 == s && r == Err::<GetSiteResponse, ApiError>(
                    ApiError::NotFound,
                ),
                Option::Some(site0) => if site0.creator_id != uid {
                    s2 == s && r == Err::<GetSiteResponse, ApiError>(ApiError::NotAnAdmin)
                } else {
                    let site = SiteView {
                        name: site0.name,
                        description: site0.description,
                        creator_id: d.user_id,
                        enable_downvotes: site0.enable_downvotes,
                        open_registration: site0.open_registration,
                        enable_nsfw: site0.enable_nsfw,
                        published: site0.published,
                        updated: Option::Some(ctx.now),
                    };
                    let rec = ModActionView {
                        mod_user_id: uid,
                        target_id: d.user_id,
                        community_id: Option::None,
                        flag: false,
                        when_: ctx.now,
                    };
                    &&& s2.site == Option::Some(site)
                    &&& s2.added@ == s.added@.push(rec)
                    &&& same_except_site_added(s, s2)
                    &&& r matches Ok(resp) && {
                        &&& resp.site == Option::Some(site)
                        &&& resp.admins@ == spec_order_admins(spec_admins(s.users@), d.user_id)
                        &&& resp.banned@ == spec_banned(s.users@)
                        &&& resp.online == 0
                    }
                },
            },
        }
    }

    fn perform(&self, store: &mut Store, ctx: &Ctx) -> (r: Result<GetSiteResponse, ApiError>) {
        let d = &self.data;
        let uid = match decode(&d.auth, &store.sessions) {
            Option::Some(u) => u,
            Option::None => {
                return Err(ApiError::NotLoggedIn);
            },
        };
        let read_site = match &store.site {
            Option::Some(sv) => sv.dup(),
            Option::None => {
                return Err(ApiError::NotFound);
            },
        };
        if read_site.creator_id != uid {
            return Err(ApiError::NotAnAdmin);
        }
        let site = SiteView {
            name: read_site.name,
            description: read_site.description,
            creator_id: d.user_id,
            enable_downvotes: read_site.enable_downvotes,
            open_registration: read_site.open_registration,
            enable_nsfw: read_site.enable_nsfw,
            published: read_site.published,
            updated: Option::Some(ctx.now),
        };
        let site_view = site.dup();
        store.site = Option::Some(site);
        let rec = ModActionView {
            mod_user_id: uid,
            target_id: d.user_id,
            community_id: Option::None,
            flag: false,
            when_: ctx.now,
        };
        store.added.push(rec);
        let admins = order_admins(filter_admins(&store.users), d.user_id);
        let banned = filter_banned(&store.users);
        Ok(GetSiteResponse { site: Option::Some(site_view), admins, banned, online: 0 })
    }
}

} // verus!
