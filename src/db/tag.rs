use vstd::prelude::*;

use crate::db::service::{StatementState, VersionedStatement};

verus! {

/// The statements about tags, on connection handles `C` and prepared
/// statements `S`.
pub struct TagService<C, S> {
    pub get_tags: VersionedStatement<C, S>,
}

impl<C, S> TagService<C, S> {
    pub fn new() -> (r: Self)
        ensures
            r.get_tags.query_text() == "SELECT tag_name FROM article_tags GROUP BY tag_name ORDER BY tag_name"@,
            r.get_tags.state() == StatementState::<C, S>::Init(0),
    {
        TagService {
            get_tags: VersionedStatement::new(
                "SELECT tag_name FROM article_tags GROUP BY tag_name ORDER BY tag_name",
            ),
        }
    }
}

} // verus!
