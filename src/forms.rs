use vstd::prelude::*;

use crate::models::User;

verus! {

/// How many articles a page holds when the request does not say.
pub const DEFAULT_PAGE_LIMIT: i64 = 20;

/// The changes a user asks for on an article: each field that is given
/// replaces the old one; `tag_list` is the new list of tags.
#[derive(Debug, Default)]
pub struct UpdateArticle {
    pub title: Option<String>,
    pub description: Option<String>,
    pub body: Option<String>,
    pub tag_list: Vec<String>,
}

/// A new article.
#[derive(Debug, Default)]
pub struct CreateArticle {
    pub title: String,
    pub description: String,
    pub body: String,
    pub tag_list: Vec<String>,
}

/// A request for a page of articles.
#[derive(Debug, Default)]
pub struct ArticleRequest {
    pub tag: Option<String>,
    pub author: Option<String>,
    pub favorited: Option<String>,
    pub limit: Option<i64>,
    pub offset: Option<i64>,
}

/// A request for a page of the caller's feed.
#[derive(Debug, Default)]
pub struct FeedRequest {
    pub limit: Option<i64>,
    pub offset: Option<i64>,
}

/// The page asked for: its size (20 unless given) and its offset (0 unless
/// given).
pub open spec fn page_of(limit: Option<i64>, offset: Option<i64>) -> (i64, i64) {
    (
        match limit {
            Some(l) => l,
            None => DEFAULT_PAGE_LIMIT,
        },
        match offset {
            Some(o) => o,
            None => 0,
        },
    )
}

fn page(limit: Option<i64>, offset: Option<i64>) -> (r: (i64, i64))
    ensures
        r == page_of(limit, offset),
{
    let l = match limit {
        Some(l) => l,
        None => DEFAULT_PAGE_LIMIT,
    };
    let o = match offset {
        Some(o) => o,
        None => 0,
    };
    (l, o)
}

impl ArticleRequest {
    /// The size and offset of the page asked for.
    pub fn page(&self) -> (r: (i64, i64))
        ensures
            r == page_of(self.limit, self.offset),
    {
        page(self.limit, self.offset)
    }
}

impl FeedRequest {
    /// The size and offset of the page asked for.
    pub fn page(&self) -> (r: (i64, i64))
        ensures
            r == page_of(self.limit, self.offset),
    {
        page(self.limit, self.offset)
    }
}

/// What a user sees of their own account.
#[derive(Debug, Default)]
pub struct UserResponseInner {
    pub username: String,
    pub token: String,
    pub email: String,
    pub bio: Option<String>,
    pub image: Option<String>,
}

/// The answer to a login, a registration or a look at one's own account.
#[derive(Debug, Default)]
pub struct UserResponse {
    pub user: UserResponseInner,
}

impl UserResponse {
    /// The account of `user`, with the token `token` issued for it.
    pub fn from_user(user: User, token: String) -> (r: UserResponse)
        ensures
            r.user.username@ == user.username@,
            r.user.email@ == user.email@,
            r.user.token@ == token@,
            r.user.bio == user.bio,
            r.user.image == user.image,
    {
        UserResponse {
            user: UserResponseInner {
                username: user.username,
                token,
                email: user.email,
                bio: user.bio,
                image: user.image,
            },
        }
    }
}

} // verus!
