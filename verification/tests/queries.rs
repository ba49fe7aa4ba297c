use site_api::api::{ApiError, Ctx, GetModlog, Oper, Perform, Search};
use site_api::entities::{CommentView, CommunityView, ModActionView, PostView, Session, UserView};
use site_api::moderation::check;
use site_api::query::{resolve_limit, resolve_page};
use site_api::store::{order_admins, Store};

fn empty_store() -> Store {
    Store {
        site: None,
        categories: Vec::new(),
        users: Vec::new(),
        posts: Vec::new(),
        comments: Vec::new(),
        communities: Vec::new(),
        removed_posts: Vec::new(),
        locked_posts: Vec::new(),
        stickied_posts: Vec::new(),
        removed_comments: Vec::new(),
        removed_communities: Vec::new(),
        banned_from_community: Vec::new(),
        banned_site: Vec::new(),
        added_to_community: Vec::new(),
        added: Vec::new(),
        sessions: Vec::new(),
        next_user_id: 1,
    }
}

fn plain_ctx() -> Ctx {
    Ctx { now: 1000, setup: None, policy: Vec::new() }
}

fn post(id: i32, name: &str, url: Option<&str>, score: i32, published: i32) -> PostView {
    PostView {
        id,
        name: String::from(name),
        url: url.map(String::from),
        creator_id: 1,
        community_id: 7,
        score,
        number_of_comments: 0,
        nsfw: false,
        published,
    }
}

fn comment(id: i32, content: &str, score: i32) -> CommentView {
    CommentView { id, content: String::from(content), creator_id: 1, post_id: 1, score, published: 10 }
}

fn community(id: i32, name: &str, title: &str) -> CommunityView {
    CommunityView {
        id,
        name: String::from(name),
        title: String::from(title),
        number_of_subscribers: 3,
        nsfw: false,
        published: 10,
    }
}

fn user(id: i32, name: &str) -> UserView {
    UserView { id, name: String::from(name), admin: false, banned: false, published: 10, score: 0 }
}

fn mod_action(mod_user_id: i32, target_id: i32, community_id: Option<i32>, when_: i32) -> ModActionView {
    ModActionView { mod_user_id, target_id, community_id, flag: true, when_ }
}

fn search_cmd(q: &str, type_: &str, sort: &str) -> Search {
    Search {
        q: String::from(q),
        type_: String::from(type_),
        community_id: None,
        sort: String::from(sort),
        page: None,
        limit: None,
        auth: None,
    }
}

fn searchable_store() -> Store {
    let mut s = empty_store();
    s.posts.push(post(1, "Learning Rust slowly", None, 5, 100));
    s.posts.push(post(2, "Gardening tips", None, 9, 200));
    s.posts.push(post(3, "RUST and iron", None, 2, 300));
    s.comments.push(comment(1, "rust is fine", 4));
    s.comments.push(comment(2, "unrelated", 8));
    s.communities.push(community(1, "rustlang", "The Rust community"));
    s.communities.push(community(2, "cooking", "Pots and pans"));
    s.users.push(user(1, "rustacean"));
    s.users.push(user(2, "someone"));
    s.next_user_id = 3;
    s
}

#[test]
fn search_posts_matches_case_insensitively() {
    let mut s = searchable_store();
    let ctx = plain_ctx();
    let resp = Oper::new(search_cmd("rust", "Posts", "Top"))
        .perform(&mut s, &ctx)
        .unwrap_or_else(|_| panic!());
    let ids: Vec<i32> = resp.posts.iter().map(|p| p.id).collect();
    // Top sort: post 1 (score 5) before post 3 (score 2).
    assert_eq!(ids, vec![1, 3]);
    assert!(resp.comments.is_empty());
    assert!(resp.communities.is_empty());
    assert!(resp.users.is_empty());
    assert_eq!(resp.type_, "Posts");
}

#[test]
fn search_all_equals_each_single_kind() {
    let ctx = plain_ctx();
    let mut s1 = searchable_store();
    let all = Oper::new(search_cmd("rust", "All", "Top"))
        .perform(&mut s1, &ctx)
        .unwrap_or_else(|_| panic!());
    let mut s2 = searchable_store();
    let posts_only = Oper::new(search_cmd("rust", "Posts", "Top"))
        .perform(&mut s2, &ctx)
        .unwrap_or_else(|_| panic!());
    let comments_only = Oper::new(search_cmd("rust", "Comments", "Top"))
        .perform(&mut s2, &ctx)
        .unwrap_or_else(|_| panic!());
    let communities_only = Oper::new(search_cmd("rust", "Communities", "Top"))
        .perform(&mut s2, &ctx)
        .unwrap_or_else(|_| panic!());
    let users_only = Oper::new(search_cmd("rust", "Users", "Top"))
        .perform(&mut s2, &ctx)
        .unwrap_or_else(|_| panic!());
    let ids = |v: &Vec<PostView>| v.iter().map(|p| p.id).collect::<Vec<i32>>();
    assert_eq!(ids(&all.posts), ids(&posts_only.posts));
    assert_eq!(
        all.comments.iter().map(|c| c.id).collect::<Vec<i32>>(),
        comments_only.comments.iter().map(|c| c.id).collect::<Vec<i32>>()
    );
    assert_eq!(
        all.communities.iter().map(|c| c.id).collect::<Vec<i32>>(),
        communities_only.communities.iter().map(|c| c.id).collect::<Vec<i32>>()
    );
    assert_eq!(
        all.users.iter().map(|u| u.id).collect::<Vec<i32>>(),
        users_only.users.iter().map(|u| u.id).collect::<Vec<i32>>()
    );
    assert!(!all.posts.is_empty());
    assert!(!all.comments.is_empty());
    assert!(!all.communities.is_empty());
    assert!(!all.users.is_empty());
}

#[test]
fn search_url_matches_url_field_only() {
    let mut s = empty_store();
    s.posts.push(post(1, "about example", None, 1, 10));
    s.posts.push(post(2, "plain", Some("https://EXAMPLE.com/x"), 1, 20));
    let ctx = plain_ctx();
    let resp = Oper::new(search_cmd("example", "Url", "New"))
        .perform(&mut s, &ctx)
        .unwrap_or_else(|_| panic!());
    let ids: Vec<i32> = resp.posts.iter().map(|p| p.id).collect();
    assert_eq!(ids, vec![2]);
}

#[test]
fn search_hot_prefers_recent_on_close_scores() {
    let mut s = empty_store();
    s.posts.push(post(1, "match old", None, 2, 0));
    s.posts.push(post(2, "match new", None, 1, 5000));
    let ctx = plain_ctx();
    let resp = Oper::new(search_cmd("match", "Posts", "Hot"))
        .perform(&mut s, &ctx)
        .unwrap_or_else(|_| panic!());
    let ids: Vec<i32> = resp.posts.iter().map(|p| p.id).collect();
    // 1*4096 + 5000 outranks 2*4096 + 0.
    assert_eq!(ids, vec![2, 1]);
}

#[test]
fn search_equal_keys_keep_table_order() {
    let mut s = empty_store();
    s.posts.push(post(4, "tie a", None, 3, 10));
    s.posts.push(post(9, "tie b", None, 3, 10));
    let ctx = plain_ctx();
    let resp = Oper::new(search_cmd("tie", "Posts", "Top"))
        .perform(&mut s, &ctx)
        .unwrap_or_else(|_| panic!());
    let ids: Vec<i32> = resp.posts.iter().map(|p| p.id).collect();
    assert_eq!(ids, vec![4, 9]);
}

#[test]
fn search_scopes_by_community() {
    let mut s = empty_store();
    let mut p1 = post(1, "scoped", None, 1, 10);
    p1.community_id = 7;
    let mut p2 = post(2, "scoped", None, 1, 20);
    p2.community_id = 8;
    s.posts.push(p1);
    s.posts.push(p2);
    let ctx = plain_ctx();
    let mut cmd = search_cmd("scoped", "Posts", "New");
    cmd.community_id = Some(8);
    let resp = Oper::new(cmd).perform(&mut s, &ctx).unwrap_or_else(|_| panic!());
    let ids: Vec<i32> = resp.posts.iter().map(|p| p.id).collect();
    assert_eq!(ids, vec![2]);
}

#[test]
fn search_with_bad_token_degrades_to_anonymous() {
    let mut s = searchable_store();
    s.sessions.push(Session { token: String::from("good"), user_id: 1 });
    let ctx = plain_ctx();
    let mut cmd = search_cmd("rust", "Posts", "Top");
    cmd.auth = Some(String::from("forged"));
    let r = Oper::new(cmd).perform(&mut s, &ctx);
    assert!(r.is_ok());
}

#[test]
fn search_rejects_unknown_sort_and_kind() {
    let ctx = plain_ctx();
    let mut s = searchable_store();
    let r = Oper::new(search_cmd("rust", "Posts", "Sideways")).perform(&mut s, &ctx);
    match r {
        Err(e) => assert_eq!(e.code(), "invalid_sort"),
        Ok(_) => panic!("unknown sort must fail"),
    }
    let r2 = Oper::new(search_cmd("rust", "Everything", "Top")).perform(&mut s, &ctx);
    match r2 {
        Err(e) => assert_eq!(e.code(), "invalid_search_type"),
        Ok(_) => panic!("unknown kind must fail"),
    }
}

#[test]
fn search_rejects_bad_page_and_limit() {
    let ctx = plain_ctx();
    let mut s = searchable_store();
    let mut cmd = search_cmd("rust", "Posts", "Top");
    cmd.page = Some(0);
    match Oper::new(cmd).perform(&mut s, &ctx) {
        Err(e) => assert_eq!(e.code(), "invalid_page"),
        Ok(_) => panic!("page 0 must fail"),
    }
    let mut cmd2 = search_cmd("rust", "Posts", "Top");
    cmd2.limit = Some(0);
    match Oper::new(cmd2).perform(&mut s, &ctx) {
        Err(e) => assert_eq!(e.code(), "invalid_limit"),
        Ok(_) => panic!("limit 0 must fail"),
    }
}

#[test]
fn pagination_clamps_limit_to_maximum() {
    assert_eq!(resolve_limit(&Some(1000)), Some(50));
    assert_eq!(resolve_limit(&Some(50)), Some(50));
    assert_eq!(resolve_limit(&Some(7)), Some(7));
    assert_eq!(resolve_limit(&None), Some(10));
    assert_eq!(resolve_page(&None), Some(1));
    assert_eq!(resolve_page(&Some(3)), Some(3));
    assert_eq!(resolve_page(&Some(0)), None);
}

#[test]
fn pagination_returns_the_requested_page() {
    let mut s = empty_store();
    for i in 0..5 {
        s.posts.push(post(i + 1, "page me", None, 100 - i, 10));
    }
    let ctx = plain_ctx();
    let mut cmd = search_cmd("page", "Posts", "Top");
    cmd.page = Some(2);
    cmd.limit = Some(2);
    let resp = Oper::new(cmd).perform(&mut s, &ctx).unwrap_or_else(|_| panic!());
    let ids: Vec<i32> = resp.posts.iter().map(|p| p.id).collect();
    assert_eq!(ids, vec![3, 4]);
}

#[test]
fn oversized_limit_is_capped_in_results() {
    let mut s = empty_store();
    for i in 0..60 {
        s.removed_posts.push(mod_action(1, i, None, i));
    }
    let ctx = plain_ctx();
    let cmd = GetModlog { mod_user_id: None, community_id: None, page: None, limit: Some(1000) };
    let resp = Oper::new(cmd).perform(&mut s, &ctx).unwrap_or_else(|_| panic!());
    assert_eq!(resp.removed_posts.len(), 50);
}

#[test]
fn modlog_with_community_gates_site_wide_lists() {
    let mut s = empty_store();
    s.removed_posts.push(mod_action(1, 10, Some(5), 100));
    s.removed_posts.push(mod_action(1, 11, Some(6), 200));
    s.removed_communities.push(mod_action(1, 6, None, 100));
    s.banned_site.push(mod_action(1, 2, None, 100));
    s.added.push(mod_action(1, 3, None, 100));
    let ctx = plain_ctx();
    let cmd = GetModlog { mod_user_id: None, community_id: Some(5), page: None, limit: None };
    let resp = Oper::new(cmd).perform(&mut s, &ctx).unwrap_or_else(|_| panic!());
    assert_eq!(resp.removed_posts.len(), 1);
    assert_eq!(resp.removed_posts[0].target_id, 10);
    // Site-wide-only lists come back empty despite store contents.
    assert!(resp.removed_communities.is_empty());
    assert!(resp.banned.is_empty());
    assert!(resp.added.is_empty());
}

#[test]
fn modlog_without_community_returns_site_wide_lists() {
    let mut s = empty_store();
    s.removed_communities.push(mod_action(1, 6, None, 100));
    s.banned_site.push(mod_action(1, 2, None, 150));
    s.added.push(mod_action(1, 3, None, 200));
    let ctx = plain_ctx();
    let cmd = GetModlog { mod_user_id: None, community_id: None, page: None, limit: None };
    let resp = Oper::new(cmd).perform(&mut s, &ctx).unwrap_or_else(|_| panic!());
    assert_eq!(resp.removed_communities.len(), 1);
    assert_eq!(resp.banned.len(), 1);
    assert_eq!(resp.added.len(), 1);
    assert_eq!(resp.added[0].target_id, 3);
}

#[test]
fn modlog_filters_by_moderator_and_sorts_recent_first() {
    let mut s = empty_store();
    s.locked_posts.push(mod_action(1, 10, Some(5), 100));
    s.locked_posts.push(mod_action(2, 11, Some(5), 300));
    s.locked_posts.push(mod_action(1, 12, Some(5), 200));
    let ctx = plain_ctx();
    let cmd = GetModlog { mod_user_id: Some(1), community_id: Some(5), page: None, limit: None };
    let resp = Oper::new(cmd).perform(&mut s, &ctx).unwrap_or_else(|_| panic!());
    let targets: Vec<i32> = resp.locked_posts.iter().map(|a| a.target_id).collect();
    assert_eq!(targets, vec![12, 10]);
}

#[test]
fn moderation_filter_reports_matches() {
    let policy = vec![String::from("BADWORD"), String::from("another")];
    let text = String::from("this contains badword");
    match check(&text, &policy) {
        Err(matched) => {
            assert_eq!(matched.len(), 1);
            assert_eq!(matched[0], "BADWORD");
        }
        Ok(()) => panic!("the policy term must match"),
    }
    let clean = String::from("clean text");
    assert!(check(&clean, &policy).is_ok());
}

#[test]
fn moderation_filter_reports_all_matches() {
    let policy = vec![String::from("bad"), String::from("worse"), String::from("absent")];
    let text = String::from("Bad and WORSE things");
    match check(&text, &policy) {
        Err(matched) => {
            assert_eq!(matched.len(), 2);
            assert_eq!(matched[0], "bad");
            assert_eq!(matched[1], "worse");
        }
        Ok(()) => panic!("two policy terms must match"),
    }
}

#[test]
fn slur_error_code_joins_matched_terms() {
    let e = ApiError::Slurs(vec![String::from("bad"), String::from("worse")]);
    assert_eq!(e.code(), "bad, worse");
    assert_eq!(ApiError::NotAnAdmin.code(), "not_an_admin");
    assert_eq!(ApiError::NotLoggedIn.code(), "not_logged_in");
}

#[test]
fn order_admins_moves_creator_to_front() {
    let admins = vec![
        user(1, "alice"),
        user(2, "creator"),
        user(3, "carol"),
        user(4, "dan"),
    ];
    let r = order_admins(admins, 2);
    let ids: Vec<i32> = r.iter().map(|u| u.id).collect();
    assert_eq!(ids, vec![2, 1, 3, 4]);
}

#[test]
fn order_admins_without_creator_is_unchanged() {
    let admins = vec![user(1, "alice"), user(3, "carol")];
    let r = order_admins(admins, 99);
    let ids: Vec<i32> = r.iter().map(|u| u.id).collect();
    assert_eq!(ids, vec![1, 3]);
}
