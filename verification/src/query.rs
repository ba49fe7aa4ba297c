//! Query options: sort modes, search kinds, and validated pagination.
//!
//! Every option has a stated default and effect; caller-supplied limits above
//! the configured maximum are clamped, and a page before the first is an
//! input error.

use vstd::prelude::*;
use vstd::string::StringExecFns;

verus! {

/// How a query orders its results.
#[derive(Clone, Copy, PartialEq, Eq, Structural, Debug)]
pub enum SortType {
    /// Score decayed by recency: recent high-score entities first.
    Hot,
    /// Most recent first.
    New,
    /// Highest score first.
    Top,
    /// Most comments first.
    MostComments,
}

/// Which entity kinds a search runs over.
#[derive(Clone, Copy, PartialEq, Eq, Structural, Debug)]
pub enum SearchType {
    All,
    Comments,
    Posts,
    Communities,
    Users,
    Url,
}

/// The sort mode named by `s`, or `None` for an unknown name.
pub open spec fn spec_sort_of(s: Seq<char>) -> Option<SortType> {
    if s == "Hot"@ {
        Option::Some(SortType::Hot)
    } else if s == "New"@ {
        Option::Some(SortType::New)
    } else if s == "Top"@ {
        Option::Some(SortType::Top)
    } else if s == "MostComments"@ {
        Option::Some(SortType::MostComments)
    } else {
        Option::None
    }
}

/// Parses a sort-mode name.
pub fn sort_of_str(s: &String) -> (r: Option<SortType>)
    ensures
        r == spec_sort_of(s@),
{
    if *s == String::from_str("Hot") {
        Option::Some(SortType::Hot)
    } else if *s == String::from_str("New") {
        Option::Some(SortType::New)
    } else if *s == String::from_str("Top") {
        Option::Some(SortType::Top)
    } else if *s == String::from_str("MostComments") {
        Option::Some(SortType::MostComments)
    } else {
        Option::None
    }
}

/// The search kind named by `s`, or `None` for an unknown name.
pub open spec fn spec_search_type_of(s: Seq<char>) -> Option<SearchType> {
    if s == "All"@ {
        Option::Some(SearchType::All)
    } else if s == "Comments"@ {
        Option::Some(SearchType::Comments)
    } else if s == "Posts"@ {
        Option::Some(SearchType::Posts)
    } else if s == "Communities"@ {
        Option::Some(SearchType::Communities)
    } else if s == "Users"@ {
        Option::Some(SearchType::Users)
    } else if s == "Url"@ {
        Option::Some(SearchType::Url)
    } else {
        Option::None
    }
}

/// Parses a search-kind name.
pub fn search_type_of_str(s: &String) -> (r: Option<SearchType>)
    ensures
        r == spec_search_type_of(s@),
{
    if *s == String::from_str("All") {
        Option::Some(SearchType::All)
    } else if *s == String::from_str("Comments") {
        Option::Some(SearchType::Comments)
    } else if *s == String::from_str("Posts") {
        Option::Some(SearchType::Posts)
    } else if *s == String::from_str("Communities") {
        Option::Some(SearchType::Communities)
    } else if *s == String::from_str("Users") {
        Option::Some(SearchType::Users)
    } else if *s == String::from_str("Url") {
        Option::Some(SearchType::Url)
    } else {
        Option::None
    }
}

/// Page limit used when the caller gives none.
pub const DEFAULT_PAGE_LIMIT: i64 = 10;

/// Largest page limit a caller can obtain; higher requests are clamped.
pub const MAX_PAGE_LIMIT: i64 = 50;

/// The effective page: default 1; a page below 1 is an input error (`None`).
pub open spec fn spec_resolve_page(page: Option<i64>) -> Option<i64> {
    match page {
        Option::None => Option::Some(1),
        Option::Some(p) => if p >= 1 {
            Option::Some(p)
        } else {
            Option::None
        },
    }
}

/// Resolves the requested page. 1-based; default 1; below 1 rejected.
pub fn resolve_page(page: &Option<i64>) -> (r: Option<i64>)
    ensures
        r == spec_resolve_page(*page),
        r matches Some(p) ==> p >= 1,
{
    match page {
        Option::None => Option::Some(1),
        Option::Some(p) => if *p >= 1 {
            Option::Some(*p)
        } else {
            Option::None
        },
    }
}

/// The effective limit: default `DEFAULT_PAGE_LIMIT`; above `MAX_PAGE_LIMIT`
/// clamped to it; below 1 an input error (`None`).
pub open spec fn spec_resolve_limit(limit: Option<i64>) -> Option<i64> {
    match limit {
        Option::None => Option::Some(DEFAULT_PAGE_LIMIT as i64),
        Option::Some(l) => if l < 1 {
            Option::None
        } else if l > MAX_PAGE_LIMIT as i64 {
            Option::Some(MAX_PAGE_LIMIT as i64)
        } else {
            Option::Some(l)
        },
    }
}

/// Resolves the requested limit, clamping requests above the maximum.
pub fn resolve_limit(limit: &Option<i64>) -> (r: Option<i64>)
    ensures
        r == spec_resolve_limit(*limit),
        r matches Some(l) ==> 1 <= l <= MAX_PAGE_LIMIT as i64,
{
    match limit {
        Option::None => Option::Some(DEFAULT_PAGE_LIMIT),
        Option::Some(l) => if *l < 1 {
            Option::None
        } else if *l > MAX_PAGE_LIMIT {
            Option::Some(MAX_PAGE_LIMIT)
        } else {
            Option::Some(*l)
        },
    }
}

/// The full option surface of one entity query.
pub struct QueryOptions {
    /// Ranking of the results.
    pub sort: SortType,
    /// Case-insensitive match against the entity's primary text fields.
    pub search_term: Option<String>,
    /// Posts only: case-insensitive match against the URL field alone.
    pub url_search: Option<String>,
    /// Posts only: keep entities of this community.
    pub community_id: Option<i32>,
    /// Keep entities by this author.
    pub creator_id: Option<i32>,
    /// NSFW entities are excluded unless the caller opts in.
    pub show_nsfw: bool,
    /// Acting user, for personalised fields; the store's row mapping joins
    /// them, outside this core.
    pub my_user_id: Option<i32>,
    /// 1-based page, already validated.
    pub page: i64,
    /// Page size, already validated and clamped.
    pub limit: i64,
}

impl QueryOptions {
    /// The stated defaults: no scoping, no term, NSFW excluded, first page,
    /// default limit.
    pub fn defaults(sort: SortType) -> (r: QueryOptions)
        ensures
            r.sort == sort,
            r.search_term is None,
            r.url_search is None,
            r.community_id is None,
            r.creator_id is None,
            !r.show_nsfw,
            r.my_user_id is None,
            r.page == 1,
            r.limit == DEFAULT_PAGE_LIMIT as i64,
    {
        QueryOptions {
            sort,
            search_term: Option::None,
            url_search: Option::None,
            community_id: Option::None,
            creator_id: Option::None,
            show_nsfw: false,
            my_user_id: Option::None,
            page: 1,
            limit: DEFAULT_PAGE_LIMIT,
        }
    }
}

} // verus!
