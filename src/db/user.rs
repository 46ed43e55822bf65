use vstd::prelude::*;

use crate::db::service::{StatementState, VersionedStatement};
use crate::db::util::{column, concat, join, lemma_targets_of_plain, ColumnMapper, ColumnMappers, ColumnNote};

verus! {

/// The columns of the `users` table, in order.
pub open spec fn user_column_names() -> Seq<Seq<char>> {
    seq!["id"@, "username"@, "email"@, "password"@, "bio"@, "image"@, "created_at"@, "updated_at"@]
}

/// The columns of the `users` table.
pub fn user_columns() -> (r: ColumnMappers)
    ensures
        r.table_name@ == "users"@,
        r.columns@.map_values(|c: ColumnMapper| c.column@) == user_column_names(),
        forall|i: int| 0 <= i < r.columns@.len() ==> (#[trigger] r.columns@[i]).note == ColumnNote::Regular,
{
    let columns = vec![
        column("id"),
        column("username"),
        column("email"),
        column("password"),
        column("bio"),
        column("image"),
        column("created_at"),
        column("updated_at"),
    ];
    let r = ColumnMappers { table_name: "users", columns };
    assert(r.columns@.map_values(|c: ColumnMapper| c.column@) =~= user_column_names());
    r
}

/// The columns of the `followers` table.
pub fn follower_columns() -> (r: ColumnMappers)
    ensures
        r.table_name@ == "followers"@,
        r.columns@.map_values(|c: ColumnMapper| c.column@) == seq!["user_id"@, "follower_id"@],
        forall|i: int| 0 <= i < r.columns@.len() ==> (#[trigger] r.columns@[i]).note == ColumnNote::Regular,
{
    let columns = vec![column("user_id"), column("follower_id")];
    let r = ColumnMappers { table_name: "followers", columns };
    assert(r.columns@.map_values(|c: ColumnMapper| c.column@) =~= seq!["user_id"@, "follower_id"@]);
    r
}

/// `SELECT <every user column> FROM users`.
pub open spec fn user_select() -> Seq<char> {
    "SELECT "@ + join(user_column_names(), ", "@) + " FROM "@ + "users"@
}

/// The statements about users, on connection handles `C` and prepared
/// statements `S`.
pub struct UserService<C, S> {
    pub user_by_id: VersionedStatement<C, S>,
    pub user_by_email: VersionedStatement<C, S>,
    pub user_by_username: VersionedStatement<C, S>,
    pub insert_user: VersionedStatement<C, S>,
    pub update_user_password: VersionedStatement<C, S>,
    pub get_profile: VersionedStatement<C, S>,
    pub follow_user: VersionedStatement<C, S>,
    pub unfollow_user: VersionedStatement<C, S>,
}

impl<C, S> UserService<C, S> {
    pub fn new() -> (r: Self)
        ensures
            r.user_by_id.query_text() == user_select() + " WHERE id = $1"@,
            r.user_by_email.query_text() == user_select() + " WHERE email = $1"@,
            r.user_by_username.query_text() == user_select() + " WHERE username = $1"@,
            r.insert_user.query_text() == "INSERT INTO users(username, email, password)\n        VALUES($1, $2, $3)"@,
            r.update_user_password.query_text() == "UPDATE users SET password = $1 WHERE id = $2"@,
            r.unfollow_user.query_text() == "DELETE FROM followers WHERE user_id = $1 AND follower_id = $2"@,
            r.user_by_id.state() == StatementState::<C, S>::Init(0),
            r.get_profile.state() == StatementState::<C, S>::Init(0),
            r.follow_user.state() == StatementState::<C, S>::Init(0),
    {
        let users = user_columns();
        let select = users.build_select_query(false);
        proof {
            lemma_targets_of_plain(users.columns@, false);
        }
        let followers = follower_columns();
        let follow = followers.build_upsert("(user_id, follower_id)", true);
        UserService {
            user_by_id: VersionedStatement::new(concat(select.as_str(), " WHERE id = $1").as_str()),
            user_by_email: VersionedStatement::new(concat(select.as_str(), " WHERE email = $1").as_str()),
            user_by_username: VersionedStatement::new(concat(select.as_str(), " WHERE username = $1").as_str()),
            insert_user: VersionedStatement::new(
                "INSERT INTO users(username, email, password)\n        VALUES($1, $2, $3)",
            ),
            update_user_password: VersionedStatement::new("UPDATE users SET password = $1 WHERE id = $2"),
            get_profile: VersionedStatement::new(
                "SELECT u.id, u.username, u.bio, u.image,\n          (CASE WHEN f.user_id IS NOT NULL THEN\n            1 ELSE 0 END)::integer AS Following\n        FROM users u LEFT JOIN followers f\n          ON f.user_id = u.id AND follower_id = $1\n        WHERE username = $2",
            ),
            follow_user: VersionedStatement::new(follow.as_str()),
            unfollow_user: VersionedStatement::new(
                "DELETE FROM followers WHERE user_id = $1 AND follower_id = $2",
            ),
        }
    }
}

} // verus!
