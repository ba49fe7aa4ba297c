//! The modelled relational store: the tables this core reads and writes,
//! with the singleton-site constraint carried in the type, plus the user
//! lookups and the admin-list presentation rule.

use vstd::prelude::*;
use crate::entities::{
    Category, CommentView, CommunityView, Dup, ModActionView, PostView, Session, SiteView,
    UserView,
};

verus! {

/// Every table the core touches. The `site` field being an `Option` is the
/// store's unique constraint on the singleton site row.
pub struct Store {
    pub site: Option<SiteView>,
    pub categories: Vec<Category>,
    pub users: Vec<UserView>,
    pub posts: Vec<PostView>,
    pub comments: Vec<CommentView>,
    pub communities: Vec<CommunityView>,
    pub removed_posts: Vec<ModActionView>,
    pub locked_posts: Vec<ModActionView>,
    pub stickied_posts: Vec<ModActionView>,
    pub removed_comments: Vec<ModActionView>,
    pub removed_communities: Vec<ModActionView>,
    pub banned_from_community: Vec<ModActionView>,
    pub banned_site: Vec<ModActionView>,
    pub added_to_community: Vec<ModActionView>,
    pub added: Vec<ModActionView>,
    pub sessions: Vec<Session>,
    pub next_user_id: i32,
}

impl Store {
    /// The store's own integrity: user ids stay below the id counter, so a
    /// fresh id never collides, and the counter can still grow.
    pub open spec fn wf(self) -> bool {
        &&& forall|i: int|
            0 <= i < self.users.len() ==> (#[trigger] self.users[i]).id < self.next_user_id
        &&& self.next_user_id < i32::MAX
    }
}

/// The first user carrying `id`, front to back.
pub open spec fn spec_user_by_id(users: Seq<UserView>, id: i32) -> Option<UserView>
    decreases users.len(),
{
    if users.len() == 0 {
        Option::None
    } else if users[0].id == id {
        Option::Some(users[0])
    } else {
        spec_user_by_id(users.subrange(1, users.len() as int), id)
    }
}

/// The user `id` exists and holds the admin flag.
pub open spec fn spec_is_admin(users: Seq<UserView>, id: i32) -> bool {
    match spec_user_by_id(users, id) {
        Option::Some(u) => u.admin,
        Option::None => false,
    }
}

/// Reads one user row by id.
pub fn find_user(users: &Vec<UserView>, id: i32) -> (r: Option<UserView>)
    ensures
        r == spec_user_by_id(users@, id),
{
    let n = users.len();
    assert(users@.subrange(0, n as int) =~= users@);
    let mut i: usize = 0;
    while i < n
        invariant
            i <= n,
            n == users@.len(),
            spec_user_by_id(users@, id) == spec_user_by_id(
                users@.subrange(i as int, n as int),
                id,
            ),
        decreases n - i,
    {
        let tail = Ghost(users@.subrange(i as int, n as int));
        assert(tail@[0] == users@[i as int]);
        if users[i].id == id {
            assert(spec_user_by_id(users@, id) == Option::Some(users@[i as int]));
            return Option::Some(users[i].dup());
        }
        assert(tail@.subrange(1, tail@.len() as int) =~= users@.subrange(i + 1 as int, n as int));
        i = i + 1;
    }
    assert(users@.subrange(n as int, n as int) =~= Seq::<UserView>::empty());
    Option::None
}

/// The users holding the admin flag, in table order.
pub open spec fn spec_admins(users: Seq<UserView>) -> Seq<UserView>
    decreases users.len(),
{
    if users.len() == 0 {
        Seq::empty()
    } else {
        let pre = spec_admins(users.drop_last());
        if users.last().admin {
            pre.push(users.last())
        } else {
            pre
        }
    }
}

/// The banned users, in table order.
pub open spec fn spec_banned(users: Seq<UserView>) -> Seq<UserView>
    decreases users.len(),
{
    if users.len() == 0 {
        Seq::empty()
    } else {
        let pre = spec_banned(users.drop_last());
        if users.last().banned {
            pre.push(users.last())
        } else {
            pre
        }
    }
}

/// Lists the admin users.
pub fn filter_admins(users: &Vec<UserView>) -> (r: Vec<UserView>)
    ensures
        r@ == spec_admins(users@),
{
    let mut r: Vec<UserView> = Vec::new();
    let mut i: usize = 0;
    while i < users.len()
        invariant
            i <= users@.len(),
            r@ == spec_admins(users@.subrange(0, i as int)),
        decreases users@.len() - i,
    {
        if users[i].admin {
            r.push(users[i].dup());
        }
        i = i + 1;
        proof {
            let pre = users@.subrange(0, i as int);
            assert(pre.drop_last() =~= users@.subrange(0, i - 1));
            assert(pre.last() == users@[i - 1]);
        }
    }
    assert(users@.subrange(0, users@.len() as int) =~= users@);
    r
}

/// Lists the banned users.
pub fn filter_banned(users: &Vec<UserView>) -> (r: Vec<UserView>)
    ensures
        r@ == spec_banned(users@),
{
    let mut r: Vec<UserView> = Vec::new();
    let mut i: usize = 0;
    while i < users.len()
        invariant
            i <= users@.len(),
            r@ == spec_banned(users@.subrange(0, i as int)),
        decreases users@.len() - i,
    {
        if users[i].banned {
            r.push(users[i].dup());
        }
        i = i + 1;
        proof {
            let pre = users@.subrange(0, i as int);
            assert(pre.drop_last() =~= users@.subrange(0, i - 1));
            assert(pre.last() == users@[i - 1]);
        }
    }
    assert(users@.subrange(0, users@.len() as int) =~= users@);
    r
}

/// The first position of the user `id` in `admins`, or a negative value when
/// absent.
pub open spec fn first_idx(admins: Seq<UserView>, id: i32) -> int
    decreases admins.len(),
{
    if admins.len() == 0 {
        -1
    } else if admins[0].id == id {
        0
    } else {
        let rest = first_idx(admins.subrange(1, admins.len() as int), id);
        if rest < 0 {
            -1
        } else {
            1 + rest
        }
    }
}

pub proof fn lemma_first_idx_found(admins: Seq<UserView>, id: i32, i: int)
    requires
        0 <= i < admins.len(),
        admins[i].id == id,
        forall|j: int| 0 <= j < i ==> (#[trigger] admins[j]).id != id,
    ensures
        first_idx(admins, id) == i,
    decreases i,
{
    if i == 0 {
    } else {
        let rest = admins.subrange(1, admins.len() as int);
        assert(forall|j: int| 0 <= j < i - 1 ==> (#[trigger] rest[j]).id != id);
        assert(rest[i - 1] == admins[i]);
        lemma_first_idx_found(rest, id, i - 1);
    }
}

pub proof fn lemma_first_idx_none(admins: Seq<UserView>, id: i32)
    requires
        forall|j: int| 0 <= j < admins.len() ==> (#[trigger] admins[j]).id != id,
    ensures
        first_idx(admins, id) < 0,
    decreases admins.len(),
{
    if admins.len() == 0 {
    } else {
        let rest = admins.subrange(1, admins.len() as int);
        assert(forall|j: int| 0 <= j < rest.len() ==> (#[trigger] rest[j]).id != id);
        lemma_first_idx_none(rest, id);
    }
}

pub proof fn lemma_first_idx_exists(admins: Seq<UserView>, id: i32, i: int)
    requires
        0 <= i < admins.len(),
        admins[i].id == id,
    ensures
        first_idx(admins, id) >= 0,
    decreases admins.len(),
{
    if admins[0].id == id {
    } else {
        let rest = admins.subrange(1, admins.len() as int);
        assert(rest[i - 1] == admins[i]);
        lemma_first_idx_exists(rest, id, i - 1);
    }
}

pub proof fn lemma_first_idx_props(admins: Seq<UserView>, id: i32)
    requires
        first_idx(admins, id) >= 0,
    ensures
        0 <= first_idx(admins, id) < admins.len(),
        admins[first_idx(admins, id)].id == id,
        forall|j: int| 0 <= j < first_idx(admins, id) ==> (#[trigger] admins[j]).id != id,
    decreases admins.len(),
{
    if admins.len() == 0 {
    } else if admins[0].id == id {
    } else {
        let rest = admins.subrange(1, admins.len() as int);
        lemma_first_idx_props(rest, id);
        let fi = first_idx(admins, id);
        assert(fi == 1 + first_idx(rest, id));
        assert forall|j: int| 0 <= j < fi implies (#[trigger] admins[j]).id != id by {
            if j > 0 {
                assert(rest[j - 1] == admins[j]);
            }
        }
    }
}

/// The admin list as responses present it: where the site creator appears in
/// it, the creator stands first and the others keep their order; where the
/// creator does not appear, the list is unchanged.
pub open spec fn spec_order_admins(admins: Seq<UserView>, creator_id: i32) -> Seq<UserView> {
    let i = first_idx(admins, creator_id);
    if i < 0 {
        admins
    } else {
        seq![admins[i]] + admins.subrange(0, i) + admins.subrange(i + 1, admins.len() as int)
    }
}

/// Moves the site creator (when present) to the front of the admin list.
pub fn order_admins(admins: Vec<UserView>, creator_id: i32) -> (r: Vec<UserView>)
    ensures
        r@ == spec_order_admins(admins@, creator_id),
{
    let n = admins.len();
    let mut i: usize = 0;
    let mut found: bool = false;
    while i < n && !found
        invariant
            i <= n,
            n == admins@.len(),
            !found ==> forall|j: int| 0 <= j < i ==> (#[trigger] admins@[j]).id != creator_id,
            found ==> i < n && admins@[i as int].id == creator_id && forall|j: int|
                0 <= j < i ==> (#[trigger] admins@[j]).id != creator_id,
        decreases n - i + (if found { 0int } else { 1int }),
    {
        if admins[i].id == creator_id {
            found = true;
        } else {
            i = i + 1;
        }
    }
    if !found {
        proof {
            lemma_first_idx_none(admins@, creator_id);
        }
        return admins;
    }
    proof {
        lemma_first_idx_found(admins@, creator_id, i as int);
    }
    let mut r: Vec<UserView> = Vec::new();
    r.push(admins[i].dup());
    let mut j: usize = 0;
    while j < i
        invariant
            j <= i,
            i < admins@.len(),
            r@ == seq![admins@[i as int]] + admins@.subrange(0, j as int),
        decreases i - j,
    {
        r.push(admins[j].dup());
        j = j + 1;
        assert(r@ =~= seq![admins@[i as int]] + admins@.subrange(0, j as int));
    }
    let mut j2: usize = i + 1;
    while j2 < admins.len()
        invariant
            i < j2 <= admins@.len(),
            r@ == seq![admins@[i as int]] + admins@.subrange(0, i as int) + admins@.subrange(
                i + 1,
                j2 as int,
            ),
        decreases admins@.len() - j2,
    {
        r.push(admins[j2].dup());
        j2 = j2 + 1;
        assert(r@ =~= seq![admins@[i as int]] + admins@.subrange(0, i as int) + admins@.subrange(
            i + 1,
            j2 as int,
        ));
    }
    r
}

} // verus!
