use vstd::prelude::*;

use crate::app::settings::AppConfig;
use crate::error::AppError;

verus! {

/// The article endpoints and what they let authors and readers do.
#[derive(Debug, Clone, Default)]
pub struct ArticleService {
    pub allow_update: bool,
    pub allow_delete: bool,
    pub allow_comments: bool,
}

/// The value of an optional flag: off when unset.
fn flag(found: Option<bool>) -> (r: bool)
    ensures
        r == (found == Some(true)),
{
    match found {
        Some(on) => on,
        None => false,
    }
}

impl ArticleService {
    /// Reads `Article.allow_update`, `Article.allow_delete` and
    /// `Article.allow_comments`; an unset flag is off.
    pub fn load_app_config(&mut self, config: &AppConfig, _prefix: &str) -> (r: Result<(), AppError>)
        ensures
            r is Err ==> r->Err_0 is ConfigError,
    {
        let update = match config.get_bool("Article.allow_update") {
            Ok(found) => flag(found),
            Err(e) => return Err(e),
        };
        let delete = match config.get_bool("Article.allow_delete") {
            Ok(found) => flag(found),
            Err(e) => return Err(e),
        };
        let comments = match config.get_bool("Article.allow_comments") {
            Ok(found) => flag(found),
            Err(e) => return Err(e),
        };
        self.allow_update = update;
        self.allow_delete = delete;
        self.allow_comments = comments;
        Ok(())
    }

    /// Whether `user_id` may edit an article written by `author_id`.
    pub fn may_update(&self, author_id: i32, user_id: i32) -> (r: bool)
        ensures
            r == (self.allow_update && author_id == user_id),
    {
        self.allow_update && author_id == user_id
    }

    /// Whether `user_id` may delete an article written by `author_id`.
    pub fn may_delete(&self, author_id: i32, user_id: i32) -> (r: bool)
        ensures
            r == (self.allow_delete && author_id == user_id),
    {
        self.allow_delete && author_id == user_id
    }

    /// Whether readers may comment.
    pub fn may_comment(&self) -> (r: bool)
        ensures
            r == self.allow_comments,
    {
        self.allow_comments
    }

    /// Whether `user_id` may delete a comment written by `author_id`.
    pub fn may_delete_comment(&self, author_id: i32, user_id: i32) -> (r: bool)
        ensures
            r == (self.allow_comments && author_id == user_id),
    {
        self.allow_comments && author_id == user_id
    }
}

/// The article endpoints with every permission off.
pub fn new_factory() -> (r: ArticleService)
    ensures
        !r.allow_update && !r.allow_delete && !r.allow_comments,
{
    ArticleService { allow_update: false, allow_delete: false, allow_comments: false }
}

} // verus!
