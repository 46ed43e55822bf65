use vstd::prelude::*;

verus! {

/// A stored user.  Times are seconds since the Unix epoch.
#[derive(Debug, Clone)]
pub struct User {
    pub id: i32,
    pub username: String,
    pub email: String,
    pub password: String,
    pub bio: Option<String>,
    pub image: Option<String>,
    pub created_at: i64,
    pub updated_at: i64,
}

/// A user as others see it.
#[derive(Debug, Clone)]
pub struct Profile {
    pub user_id: i32,
    pub username: String,
    pub bio: Option<String>,
    pub image: Option<String>,
    pub following: bool,
}

impl Profile {
    /// Records that the current user now follows (or no longer follows) this
    /// profile.
    pub fn set_following(&mut self, following: bool)
        ensures
            final(self).following == following,
            final(self).user_id == old(self).user_id,
            final(self).username@ == old(self).username@,
            final(self).bio == old(self).bio,
            final(self).image == old(self).image,
    {
        self.following = following;
    }
}

/// An article with its author, as a reader sees it.  Times are seconds since
/// the Unix epoch.
#[derive(Debug, Clone)]
pub struct ArticleDetails {
    pub id: i32,
    pub slug: String,
    pub title: String,
    pub description: String,
    pub body: String,
    pub tag_list: Vec<String>,
    pub created_at: i64,
    pub updated_at: i64,
    pub favorited: bool,
    pub favorites_count: i64,
    pub author: Profile,
}

impl ArticleDetails {
    /// Records that the current user now favors the article, if they did not
    /// already.
    pub fn mark_favorited(&mut self)
        requires
            old(self).favorites_count < i64::MAX,
        ensures
            final(self).favorited,
            final(self).favorites_count == if old(self).favorited {
                old(self).favorites_count as int
            } else {
                old(self).favorites_count + 1
            },
            final(self).id == old(self).id,
    {
        if !self.favorited {
            self.favorited = true;
            self.favorites_count = self.favorites_count + 1;
        }
    }

    /// Records that the current user no longer favors the article, if they
    /// did.
    pub fn mark_unfavorited(&mut self)
        requires
            old(self).favorites_count > i64::MIN,
        ensures
            !final(self).favorited,
            final(self).favorites_count == if old(self).favorited {
                old(self).favorites_count - 1
            } else {
                old(self).favorites_count as int
            },
            final(self).id == old(self).id,
    {
        if self.favorited {
            self.favorited = false;
            self.favorites_count = self.favorites_count - 1;
        }
    }
}

} // verus!
