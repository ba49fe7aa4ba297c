use site_api::api::{
    ApiError, CreateSite, Ctx, EditSite, GetSite, ListCategories, Oper, Perform, TransferSite,
};
use site_api::entities::{Category, Session, SetupConfig, SiteView, UserView};
use site_api::store::Store;

fn empty_store() -> Store {
    Store {
        site: None,
        categories: Vec::new(),
        users: Vec::new(),
        posts: Vec::new(),
        comments: Vec::new(),
        communities: Vec::new(),
        removed_posts: Vec::new(),
        locked_posts: Vec::new(),
        stickied_posts: Vec::new(),
        removed_comments: Vec::new(),
        removed_communities: Vec::new(),
        banned_from_community: Vec::new(),
        banned_site: Vec::new(),
        added_to_community: Vec::new(),
        added: Vec::new(),
        sessions: Vec::new(),
        next_user_id: 1,
    }
}

fn plain_ctx() -> Ctx {
    Ctx { now: 1000, setup: None, policy: Vec::new() }
}

fn user(id: i32, name: &str, admin: bool, banned: bool) -> UserView {
    UserView { id, name: String::from(name), admin, banned, published: 10, score: 0 }
}

fn session(token: &str, user_id: i32) -> Session {
    Session { token: String::from(token), user_id }
}

fn site(creator_id: i32, name: &str) -> SiteView {
    SiteView {
        name: String::from(name),
        description: None,
        creator_id,
        enable_downvotes: true,
        open_registration: true,
        enable_nsfw: false,
        published: 5,
        updated: None,
    }
}

fn create_site_cmd(name: &str, auth: &str) -> CreateSite {
    CreateSite {
        name: String::from(name),
        description: None,
        enable_downvotes: false,
        open_registration: false,
        enable_nsfw: false,
        auth: String::from(auth),
    }
}

fn edit_site_cmd(name: &str, auth: &str) -> EditSite {
    EditSite {
        name: String::from(name),
        description: None,
        enable_downvotes: false,
        open_registration: false,
        enable_nsfw: false,
        auth: String::from(auth),
    }
}

#[test]
fn list_categories_returns_all() {
    let mut s = empty_store();
    s.categories.push(Category { id: 1, name: String::from("general") });
    s.categories.push(Category { id: 2, name: String::from("tech") });
    let ctx = plain_ctx();
    let r = Oper::new(ListCategories {}).perform(&mut s, &ctx).unwrap_or_else(|_| panic!());
    assert_eq!(r.categories.len(), 2);
    assert_eq!(r.categories[0].name, "general");
    assert_eq!(r.categories[1].id, 2);
}

#[test]
fn bootstrap_creates_admin_and_site() {
    let mut s = empty_store();
    let ctx = Ctx {
        now: 1000,
        setup: Some(SetupConfig {
            admin_username: String::from("root"),
            admin_email: None,
            admin_password: String::from("hunter2"),
            site_name: String::from("testsite"),
        }),
        policy: Vec::new(),
    };
    let r = Oper::new(GetSite {}).perform(&mut s, &ctx);
    let resp = match r {
        Ok(resp) => resp,
        Err(_) => panic!("bootstrap failed"),
    };
    let sv = resp.site.expect("site created");
    assert_eq!(sv.name, "testsite");
    assert_eq!(sv.creator_id, 1);
    assert!(s.site.is_some());
    assert_eq!(s.users.len(), 1);
    assert!(s.users[0].admin);
    assert_eq!(s.users[0].name, "root");
    assert_eq!(s.next_user_id, 2);
    assert_eq!(resp.admins.len(), 1);
    assert_eq!(resp.admins[0].id, 1);
    assert_eq!(resp.online, 0);
}

#[test]
fn bootstrap_is_idempotent() {
    let mut s = empty_store();
    let ctx = Ctx {
        now: 1000,
        setup: Some(SetupConfig {
            admin_username: String::from("root"),
            admin_email: None,
            admin_password: String::from("hunter2"),
            site_name: String::from("testsite"),
        }),
        policy: Vec::new(),
    };
    let r1 = Oper::new(GetSite {}).perform(&mut s, &ctx);
    assert!(r1.is_ok());
    let users_after_first = s.users.len();
    let r2 = Oper::new(GetSite {}).perform(&mut s, &ctx);
    let resp2 = match r2 {
        Ok(resp) => resp,
        Err(_) => panic!("second read failed"),
    };
    // The second read creates nothing further and returns the same site.
    assert_eq!(s.users.len(), users_after_first);
    assert_eq!(s.next_user_id, 2);
    let sv = resp2.site.expect("site still there");
    assert_eq!(sv.name, "testsite");
    assert_eq!(sv.creator_id, 1);
}

#[test]
fn create_site_when_one_exists_is_refused() {
    let mut s = empty_store();
    s.site = Some(site(1, "existing"));
    s.users.push(user(1, "root", true, false));
    s.next_user_id = 2;
    s.sessions.push(session("tok-root", 1));
    let ctx = plain_ctx();
    let r = Oper::new(create_site_cmd("another", "tok-root")).perform(&mut s, &ctx);
    match r {
        Err(e) => assert_eq!(e.code(), "site_already_exists"),
        Ok(_) => panic!("second site must be refused"),
    }
    assert_eq!(s.site.as_ref().map(|v| v.name.clone()), Some(String::from("existing")));
}

#[test]
fn get_site_without_setup_returns_empty() {
    let mut s = empty_store();
    s.users.push(user(1, "alice", true, false));
    s.users.push(user(2, "bob", false, true));
    s.next_user_id = 3;
    let ctx = plain_ctx();
    let resp = Oper::new(GetSite {}).perform(&mut s, &ctx).unwrap_or_else(|_| panic!());
    // No site and no setup: an empty site with no admin or banned lists,
    // whatever the user table holds.
    assert!(resp.site.is_none());
    assert!(resp.admins.is_empty());
    assert!(resp.banned.is_empty());
    assert!(s.site.is_none());
}

#[test]
fn get_site_puts_creator_first() {
    let mut s = empty_store();
    s.site = Some(site(2, "mysite"));
    s.users.push(user(1, "alice", true, false));
    s.users.push(user(2, "creator", true, false));
    s.users.push(user(3, "carol", true, false));
    s.next_user_id = 4;
    let ctx = plain_ctx();
    let resp = Oper::new(GetSite {}).perform(&mut s, &ctx).unwrap_or_else(|_| panic!());
    let ids: Vec<i32> = resp.admins.iter().map(|u| u.id).collect();
    assert_eq!(ids, vec![2, 1, 3]);
}

#[test]
fn create_site_requires_login() {
    let mut s = empty_store();
    let ctx = plain_ctx();
    let r = Oper::new(create_site_cmd("fresh", "no-such-token")).perform(&mut s, &ctx);
    match r {
        Err(e) => assert_eq!(e.code(), "not_logged_in"),
        Ok(_) => panic!("unauthenticated create must fail"),
    }
    assert!(s.site.is_none());
}

#[test]
fn create_site_requires_existing_user() {
    let mut s = empty_store();
    s.sessions.push(session("tok-ghost", 99));
    let ctx = plain_ctx();
    let r = Oper::new(create_site_cmd("fresh", "tok-ghost")).perform(&mut s, &ctx);
    match r {
        Err(e) => assert_eq!(e.code(), "not_found"),
        Ok(_) => panic!("missing user must fail"),
    }
}

#[test]
fn create_site_requires_admin() {
    let mut s = empty_store();
    s.users.push(user(1, "pleb", false, false));
    s.next_user_id = 2;
    s.sessions.push(session("tok-pleb", 1));
    let ctx = plain_ctx();
    let r = Oper::new(create_site_cmd("fresh", "tok-pleb")).perform(&mut s, &ctx);
    match r {
        Err(e) => assert_eq!(e.code(), "not_an_admin"),
        Ok(_) => panic!("non-admin create must fail"),
    }
    assert!(s.site.is_none());
}

#[test]
fn create_site_filters_banned_terms() {
    let mut s = empty_store();
    s.users.push(user(1, "root", true, false));
    s.next_user_id = 2;
    s.sessions.push(session("tok-root", 1));
    let ctx = Ctx {
        now: 1000,
        setup: None,
        policy: vec![String::from("badword"), String::from("worse")],
    };
    let r = Oper::new(create_site_cmd("my BADWORD site", "tok-root")).perform(&mut s, &ctx);
    match r {
        Err(ApiError::Slurs(v)) => {
            assert_eq!(v.len(), 1);
            assert_eq!(v[0], "badword");
        }
        _ => panic!("policy match must fail the create"),
    }
    assert!(s.site.is_none());
}

#[test]
fn edit_site_by_non_admin_leaves_site_unchanged() {
    let mut s = empty_store();
    s.site = Some(site(1, "original"));
    s.users.push(user(1, "root", true, false));
    s.users.push(user(2, "pleb", false, false));
    s.next_user_id = 3;
    s.sessions.push(session("tok-pleb", 2));
    let ctx = plain_ctx();
    let r = Oper::new(edit_site_cmd("hijacked", "tok-pleb")).perform(&mut s, &ctx);
    match r {
        Err(e) => assert_eq!(e.code(), "not_an_admin"),
        Ok(_) => panic!("non-admin edit must fail"),
    }
    let sv = s.site.as_ref().expect("site kept");
    assert_eq!(sv.name, "original");
    assert!(sv.updated.is_none());
}

#[test]
fn edit_site_preserves_creator() {
    let mut s = empty_store();
    s.site = Some(site(1, "original"));
    s.users.push(user(1, "root", true, false));
    s.users.push(user(2, "other-admin", true, false));
    s.next_user_id = 3;
    s.sessions.push(session("tok-other", 2));
    let ctx = plain_ctx();
    let resp = Oper::new(edit_site_cmd("renamed", "tok-other"))
        .perform(&mut s, &ctx)
        .unwrap_or_else(|_| panic!());
    assert_eq!(resp.site.name, "renamed");
    assert_eq!(resp.site.creator_id, 1);
    assert_eq!(resp.site.updated, Some(1000));
    let sv = s.site.as_ref().expect("site kept");
    assert_eq!(sv.name, "renamed");
    assert_eq!(sv.creator_id, 1);
}

#[test]
fn edit_site_without_site_fails() {
    let mut s = empty_store();
    s.users.push(user(1, "root", true, false));
    s.next_user_id = 2;
    s.sessions.push(session("tok-root", 1));
    let ctx = plain_ctx();
    let r = Oper::new(edit_site_cmd("renamed", "tok-root")).perform(&mut s, &ctx);
    match r {
        Err(e) => assert_eq!(e.code(), "couldnt_update_site"),
        Ok(_) => panic!("edit of missing site must fail"),
    }
}

#[test]
fn transfer_site_writes_audit_record() {
    let mut s = empty_store();
    s.site = Some(site(1, "mysite"));
    s.users.push(user(1, "root", true, false));
    s.users.push(user(2, "heir", true, false));
    s.next_user_id = 3;
    s.sessions.push(session("tok-root", 1));
    let ctx = plain_ctx();
    let resp = Oper::new(TransferSite { user_id: 2, auth: String::from("tok-root") })
        .perform(&mut s, &ctx)
        .unwrap_or_else(|_| panic!());
    let sv = resp.site.expect("site returned");
    assert_eq!(sv.creator_id, 2);
    assert_eq!(s.site.as_ref().map(|v| v.creator_id), Some(2));
    assert_eq!(s.added.len(), 1);
    assert_eq!(s.added[0].target_id, 2);
    assert_eq!(s.added[0].mod_user_id, 1);
    assert!(!s.added[0].flag);
    // New owner stands first in the admin list.
    assert_eq!(resp.admins[0].id, 2);
}

#[test]
fn transfer_site_requires_creator() {
    let mut s = empty_store();
    s.site = Some(site(1, "mysite"));
    s.users.push(user(1, "root", true, false));
    s.users.push(user(2, "other-admin", true, false));
    s.next_user_id = 3;
    s.sessions.push(session("tok-other", 2));
    let ctx = plain_ctx();
    let r = Oper::new(TransferSite { user_id: 2, auth: String::from("tok-other") })
        .perform(&mut s, &ctx);
    match r {
        Err(e) => assert_eq!(e.code(), "not_an_admin"),
        Ok(_) => panic!("only the creator may transfer"),
    }
    assert_eq!(s.added.len(), 0);
    assert_eq!(s.site.as_ref().map(|v| v.creator_id), Some(1));
}

#[test]
fn transfer_site_without_site_fails() {
    let mut s = empty_store();
    s.users.push(user(1, "root", true, false));
    s.next_user_id = 2;
    s.sessions.push(session("tok-root", 1));
    let ctx = plain_ctx();
    let r = Oper::new(TransferSite { user_id: 1, auth: String::from("tok-root") })
        .perform(&mut s, &ctx);
    match r {
        Err(e) => assert_eq!(e.code(), "not_found"),
        Ok(_) => panic!("transfer without a site must fail"),
    }
}
