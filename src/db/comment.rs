use vstd::prelude::*;

use crate::db::service::{StatementState, VersionedStatement};
use crate::db::util::concat;

verus! {

/// What every query about comments selects, `$1` being the reader.
pub const COMMENT_DETAILS_SELECT: &'static str = "\nSELECT c.id, c.body, c.created_at, c.updated_at,\n  u.id, u.username, u.bio, u.image,\n  (SELECT COUNT(*)::integer FROM followers WHERE user_id = u.id AND follower_id = $1) AS Following\nFROM comments c INNER JOIN users u ON c.user_id = u.id\n";

/// The statements about comments, on connection handles `C` and prepared
/// statements `S`.
pub struct CommentService<C, S> {
    pub comment_by_id: VersionedStatement<C, S>,
    pub store_comment: VersionedStatement<C, S>,
    pub delete_comment: VersionedStatement<C, S>,
    pub comments_by_slug: VersionedStatement<C, S>,
}

impl<C, S> CommentService<C, S> {
    pub fn new() -> (r: Self)
        ensures
            r.comment_by_id.query_text() == COMMENT_DETAILS_SELECT@ + " WHERE c.id = $2"@,
            r.store_comment.query_text() == "INSERT INTO comments(article_id, user_id, body)\n        VALUES($1, $2, $3) RETURNING id"@,
            r.delete_comment.query_text() == "DELETE FROM comments WHERE id = $1"@,
            r.comments_by_slug.query_text() == COMMENT_DETAILS_SELECT@
                + " INNER JOIN articles a ON c.article_id = a.id\n          WHERE a.slug = $2\n          ORDER BY c.id DESC"@,
            r.comment_by_id.state() == StatementState::<C, S>::Init(0),
    {
        CommentService {
            comment_by_id: VersionedStatement::new(concat(COMMENT_DETAILS_SELECT, " WHERE c.id = $2").as_str()),
            store_comment: VersionedStatement::new(
                "INSERT INTO comments(article_id, user_id, body)\n        VALUES($1, $2, $3) RETURNING id",
            ),
            delete_comment: VersionedStatement::new("DELETE FROM comments WHERE id = $1"),
            comments_by_slug: VersionedStatement::new(
                concat(
                    COMMENT_DETAILS_SELECT,
                    " INNER JOIN articles a ON c.article_id = a.id\n          WHERE a.slug = $2\n          ORDER BY c.id DESC",
                ).as_str(),
            ),
        }
    }
}

} // verus!
