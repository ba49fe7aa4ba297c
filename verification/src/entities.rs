//! The entity views the core reads from and writes to the relational store,
//! and the per-request data derived from them.
//!
//! The store itself is an external collaborator; these types model exactly the
//! fields this core's policy logic reads.

use vstd::prelude::*;

verus! {

/// Exact duplication: the copy equals the original.
pub trait Dup: Sized {
    fn dup(&self) -> (r: Self)
        ensures
            r == *self,
    ;
}

/// Duplicates a vector element by element.
pub fn dup_vec<T: Dup>(v: &Vec<T>) -> (r: Vec<T>)
    ensures
        r@ == v@,
{
    let mut r: Vec<T> = Vec::new();
    let mut i: usize = 0;
    while i < v.len()
        invariant
            i <= v@.len(),
            r@ == v@.subrange(0, i as int),
        decreases v@.len() - i,
    {
        r.push(v[i].dup());
        i = i + 1;
        assert(r@ =~= v@.subrange(0, i as int));
    }
    assert(v@.subrange(0, v@.len() as int) =~= v@);
    r
}

/// Duplicates an optional string.
pub fn dup_opt_string(o: &Option<String>) -> (r: Option<String>)
    ensures
        r == *o,
{
    match o {
        Option::None => Option::None,
        Option::Some(s) => Option::Some(s.clone()),
    }
}

/// A content category (read-only reference data).
pub struct Category {
    pub id: i32,
    pub name: String,
}

impl Dup for Category {
    fn dup(&self) -> (r: Self) {
        Category { id: self.id, name: self.name.clone() }
    }
}

/// The singleton site row, joined with what responses show of it.
pub struct SiteView {
    pub name: String,
    pub description: Option<String>,
    pub creator_id: i32,
    pub enable_downvotes: bool,
    pub open_registration: bool,
    pub enable_nsfw: bool,
    pub published: i32,
    pub updated: Option<i32>,
}

impl Dup for SiteView {
    fn dup(&self) -> (r: Self) {
        SiteView {
            name: self.name.clone(),
            description: dup_opt_string(&self.description),
            creator_id: self.creator_id,
            enable_downvotes: self.enable_downvotes,
            open_registration: self.open_registration,
            enable_nsfw: self.enable_nsfw,
            published: self.published,
            updated: self.updated,
        }
    }
}

/// A user row as listings show it.
pub struct UserView {
    pub id: i32,
    pub name: String,
    pub admin: bool,
    pub banned: bool,
    pub published: i32,
    pub score: i32,
}

impl Dup for UserView {
    fn dup(&self) -> (r: Self) {
        UserView {
            id: self.id,
            name: self.name.clone(),
            admin: self.admin,
            banned: self.banned,
            published: self.published,
            score: self.score,
        }
    }
}

/// A post as search results show it.
pub struct PostView {
    pub id: i32,
    pub name: String,
    pub url: Option<String>,
    pub creator_id: i32,
    pub community_id: i32,
    pub score: i32,
    pub number_of_comments: i32,
    pub nsfw: bool,
    pub published: i32,
}

impl Dup for PostView {
    fn dup(&self) -> (r: Self) {
        PostView {
            id: self.id,
            name: self.name.clone(),
            url: dup_opt_string(&self.url),
            creator_id: self.creator_id,
            community_id: self.community_id,
            score: self.score,
            number_of_comments: self.number_of_comments,
            nsfw: self.nsfw,
            published: self.published,
        }
    }
}

/// A comment as search results show it.
pub struct CommentView {
    pub id: i32,
    pub content: String,
    pub creator_id: i32,
    pub post_id: i32,
    pub score: i32,
    pub published: i32,
}

impl Dup for CommentView {
    fn dup(&self) -> (r: Self) {
        CommentView {
            id: self.id,
            content: self.content.clone(),
            creator_id: self.creator_id,
            post_id: self.post_id,
            score: self.score,
            published: self.published,
        }
    }
}

/// A community as search results show it.
pub struct CommunityView {
    pub id: i32,
    pub name: String,
    pub title: String,
    pub number_of_subscribers: i32,
    pub nsfw: bool,
    pub published: i32,
}

impl Dup for CommunityView {
    fn dup(&self) -> (r: Self) {
        CommunityView {
            id: self.id,
            name: self.name.clone(),
            title: self.title.clone(),
            number_of_subscribers: self.number_of_subscribers,
            nsfw: self.nsfw,
            published: self.published,
        }
    }
}

/// One moderation-action record. The same shape serves all eight action
/// tables; `flag` carries the table's boolean outcome (removed, locked,
/// banned, ...) and `target_id` the acted-on entity or user.
#[derive(Clone, Copy)]
pub struct ModActionView {
    pub mod_user_id: i32,
    pub target_id: i32,
    pub community_id: Option<i32>,
    pub flag: bool,
    pub when_: i32,
}

impl Dup for ModActionView {
    fn dup(&self) -> (r: Self) {
        *self
    }
}

/// A live signed-token session: the decodable tokens and who they identify.
pub struct Session {
    pub token: String,
    pub user_id: i32,
}

/// First-run configuration: present only until bootstrap has created the
/// initial administrator and site.
pub struct SetupConfig {
    pub admin_username: String,
    pub admin_email: Option<String>,
    pub admin_password: String,
    pub site_name: String,
}

} // verus!
