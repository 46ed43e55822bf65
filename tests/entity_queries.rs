use fast_realworld::db::article::{ArticleService, ARTICLE_DETAILS_SELECT, FEED_DETAILS_SELECT};
use fast_realworld::db::comment::{CommentService, COMMENT_DETAILS_SELECT};
use fast_realworld::db::service::StatementState;
use fast_realworld::db::tag::TagService;
use fast_realworld::db::user::UserService;

const USER_SELECT: &str = "SELECT id, username, email, password, bio, image, created_at, updated_at FROM users";

#[test]
fn user_statements() {
    let s: UserService<(), ()> = UserService::new();
    assert_eq!(s.user_by_id.query(), format!("{} WHERE id = $1", USER_SELECT));
    assert_eq!(s.user_by_email.query(), format!("{} WHERE email = $1", USER_SELECT));
    assert_eq!(s.user_by_username.query(), format!("{} WHERE username = $1", USER_SELECT));
    assert_eq!(
        s.follow_user.query(),
        "INSERT INTO followers(user_id,follower_id) VALUES($1, $2)\n      ON CONFLICT (user_id, follower_id)\n    DO UPDATE SET  user_id = EXCLUDED.user_id, follower_id = EXCLUDED.follower_id"
    );
    assert_eq!(s.unfollow_user.query(), "DELETE FROM followers WHERE user_id = $1 AND follower_id = $2");
    assert!(matches!(s.get_profile.get_state(), StatementState::Init(0)));
}

#[test]
fn article_statements() {
    let s: ArticleService<(), ()> = ArticleService::new();
    assert_eq!(s.article_by_id.query(), format!("{} WHERE a.id = $2", ARTICLE_DETAILS_SELECT));
    assert_eq!(s.article_by_slug.query(), format!("{} WHERE a.slug = $2", ARTICLE_DETAILS_SELECT));
    assert_eq!(
        s.get_feed.query(),
        format!("{} ORDER BY a.id DESC LIMIT $2 OFFSET $3 ", FEED_DETAILS_SELECT)
    );
    assert!(ARTICLE_DETAILS_SELECT.contains("FROM articles a INNER JOIN users u ON a.author_id = u.id"));
    assert_eq!(
        s.favorite_article.query(),
        "INSERT INTO favorite_articles(user_id,article_id) VALUES($1, $2)\n      ON CONFLICT (user_id, article_id)\n    DO UPDATE SET  user_id = EXCLUDED.user_id, article_id = EXCLUDED.article_id"
    );
}

#[test]
fn comment_and_tag_statements() {
    let c: CommentService<(), ()> = CommentService::new();
    assert_eq!(c.comment_by_id.query(), format!("{} WHERE c.id = $2", COMMENT_DETAILS_SELECT));
    assert_eq!(c.delete_comment.query(), "DELETE FROM comments WHERE id = $1");
    let t: TagService<(), ()> = TagService::new();
    assert_eq!(t.get_tags.query(), "SELECT tag_name FROM article_tags GROUP BY tag_name ORDER BY tag_name");
}
