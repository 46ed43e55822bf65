use fast_realworld::db::article::{apply_edits, article_slug, plan_tag_changes, tags_missing_from, update_fields};
use fast_realworld::forms::{ArticleRequest, CreateArticle, FeedRequest, UpdateArticle, UserResponse};
use fast_realworld::models::{ArticleDetails, Profile, User};

fn strings(v: &[&str]) -> Vec<String> {
    v.iter().map(|s| s.to_string()).collect()
}

fn sorted(mut v: Vec<String>) -> Vec<String> {
    v.sort();
    v
}

fn profile() -> Profile {
    Profile { user_id: 3, username: "jake".into(), bio: None, image: None, following: false }
}

fn article() -> ArticleDetails {
    ArticleDetails {
        id: 11,
        slug: "old-title".into(),
        title: "Old title".into(),
        description: "desc".into(),
        body: "body".into(),
        tag_list: strings(&["a", "b"]),
        created_at: 0,
        updated_at: 0,
        favorited: false,
        favorites_count: 4,
        author: profile(),
    }
}

#[test]
fn tag_plan_adds_and_removes() {
    let plan = plan_tag_changes(&strings(&["rust", "web", "db"]), &strings(&["web", "verus", "rust", "verus"]));
    assert_eq!(plan.add, strings(&["verus"]));
    assert_eq!(plan.remove, strings(&["db"]));
}

#[test]
fn tag_plan_edge_cases() {
    let plan = plan_tag_changes(&strings(&[]), &strings(&["x", "x", "y"]));
    assert_eq!(sorted(plan.add), strings(&["x", "y"]));
    assert!(plan.remove.is_empty());
    let plan = plan_tag_changes(&strings(&["x", "x"]), &strings(&[]));
    assert_eq!(plan.remove, strings(&["x"]));
    let plan = plan_tag_changes(&strings(&["same"]), &strings(&["same"]));
    assert!(plan.add.is_empty() && plan.remove.is_empty());
    assert_eq!(tags_missing_from(&strings(&["b", "a", "b"]), &strings(&["c"])), strings(&["b", "a"]));
}

#[test]
fn edits_replace_given_fields() {
    let mut a = article();
    let req = UpdateArticle {
        title: Some("New title".into()),
        description: None,
        body: Some("new body".into()),
        tag_list: strings(&["c"]),
    };
    apply_edits(&mut a, &req, "new-title");
    assert_eq!(a.title, "New title");
    assert_eq!(a.slug, "new-title");
    assert_eq!(a.description, "desc");
    assert_eq!(a.body, "new body");
    assert_eq!(a.tag_list, strings(&["a", "b"]));
}

#[test]
fn update_without_title_keeps_slug() {
    let mut a = article();
    let req = UpdateArticle { title: None, description: Some("d2".into()), body: None, tag_list: vec![] };
    update_fields(&mut a, &req);
    assert_eq!(a.slug, "old-title");
    assert_eq!(a.title, "Old title");
    assert_eq!(a.description, "d2");
}

#[test]
fn new_title_gets_its_slug() {
    let mut a = article();
    let req = UpdateArticle { title: Some("How to Train Your Dragon!".into()), ..Default::default() };
    update_fields(&mut a, &req);
    assert_eq!(a.title, "How to Train Your Dragon!");
    assert_eq!(a.slug, "how-to-train-your-dragon");
    let c = CreateArticle { title: "Hello World".into(), ..Default::default() };
    assert_eq!(article_slug(&c), "hello-world");
}

#[test]
fn favorite_counts() {
    let mut a = article();
    a.mark_favorited();
    assert!(a.favorited);
    assert_eq!(a.favorites_count, 5);
    a.mark_favorited();
    assert_eq!(a.favorites_count, 5);
    a.mark_unfavorited();
    assert!(!a.favorited);
    assert_eq!(a.favorites_count, 4);
    a.mark_unfavorited();
    assert_eq!(a.favorites_count, 4);
}

#[test]
fn following_flag() {
    let mut p = profile();
    p.set_following(true);
    assert!(p.following);
    assert_eq!(p.username, "jake");
    p.set_following(false);
    assert!(!p.following);
}

#[test]
fn page_defaults() {
    assert_eq!(ArticleRequest::default().page(), (20, 0));
    let r = ArticleRequest { limit: Some(5), offset: Some(10), ..Default::default() };
    assert_eq!(r.page(), (5, 10));
    assert_eq!(FeedRequest { limit: None, offset: Some(3) }.page(), (20, 3));
}

#[test]
fn user_response_of_user() {
    let u = User {
        id: 1,
        username: "jake".into(),
        email: "jake@jake.jake".into(),
        password: "hash".into(),
        bio: Some("I work at statefarm".into()),
        image: None,
        created_at: 0,
        updated_at: 0,
    };
    let r = UserResponse::from_user(u, "jwt.token".into());
    assert_eq!(r.user.username, "jake");
    assert_eq!(r.user.email, "jake@jake.jake");
    assert_eq!(r.user.token, "jwt.token");
    assert_eq!(r.user.bio.as_deref(), Some("I work at statefarm"));
    assert_eq!(r.user.image, None);
}
