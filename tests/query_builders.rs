use fast_realworld::db::article::favorite_columns;
use fast_realworld::db::user::{follower_columns, user_columns};
use fast_realworld::db::util;
use fast_realworld::db::util::{append_decimal, quoted, ColumnMapper, ColumnMappers, ColumnNote};

fn mappers(table: &'static str, cols: Vec<ColumnMapper>) -> ColumnMappers {
    ColumnMappers { table_name: table, columns: cols }
}

fn extra(name: &'static str) -> ColumnMapper {
    let mut c = util::column(name);
    c.note = ColumnNote::Extra;
    c
}

#[test]
fn column_and_quoted() {
    let c = util::column("bio");
    assert_eq!(c.name, "bio");
    assert_eq!(c.column, "bio");
    assert_eq!(c.note, ColumnNote::Regular);
    let q = quoted("user");
    assert_eq!(q.name, "user");
    assert_eq!(q.column, "\"user\"");
    let d = ColumnMapper::default();
    assert_eq!(d.name, "");
    assert_eq!(d.column, "");
    assert_eq!(d.note, ColumnNote::Regular);
}

#[test]
fn select_of_users() {
    assert_eq!(
        user_columns().build_select_query(false),
        "SELECT id, username, email, password, bio, image, created_at, updated_at FROM users"
    );
}

#[test]
fn extra_columns_only_when_asked() {
    let m = mappers("t", vec![util::column("a"), extra("b"), util::column("c")]);
    assert_eq!(m.get_columns(false), "a, c");
    assert_eq!(m.get_columns(true), "a, b, c");
    assert_eq!(m.build_select_query(false), "SELECT a, c FROM t");
    assert_eq!(m.build_insert_query(false), "INSERT INTO t(a,c) VALUES($1, $2)");
    assert_eq!(m.build_insert_query(true), "INSERT INTO t(a,b,c) VALUES($1, $2, $3)");
}

#[test]
fn empty_table_statements() {
    let m = mappers("t", vec![]);
    assert_eq!(m.get_columns(true), "");
    assert_eq!(m.build_select_query(true), "SELECT  FROM t");
    assert_eq!(m.build_insert_query(true), "INSERT INTO t() VALUES()");
    assert_eq!(m.get_update_set_columns(true), (0, "".to_string()));
    assert_eq!(m.build_update_where("id", true), "UPDATE t SET  WHERE id = $1");
}

#[test]
fn upsert_of_followers() {
    assert_eq!(
        follower_columns().build_upsert("(user_id, follower_id)", true),
        "INSERT INTO followers(user_id,follower_id) VALUES($1, $2)\n      ON CONFLICT (user_id, follower_id)\n    DO UPDATE SET  user_id = EXCLUDED.user_id, follower_id = EXCLUDED.follower_id"
    );
    assert_eq!(
        favorite_columns().build_upsert("(user_id, article_id)", true),
        "INSERT INTO favorite_articles(user_id,article_id) VALUES($1, $2)\n      ON CONFLICT (user_id, article_id)\n    DO UPDATE SET  user_id = EXCLUDED.user_id, article_id = EXCLUDED.article_id"
    );
}

#[test]
fn update_where_skips_lookup_column() {
    let m = mappers("users", vec![util::column("id"), util::column("email"), extra("bio"), util::column("image")]);
    assert_eq!(
        m.build_update_where("id", false),
        "UPDATE users SET  email = $1, image = $2 WHERE id = $3"
    );
    assert_eq!(
        m.build_update_where("id", true),
        "UPDATE users SET  email = $1, bio = $2, image = $3 WHERE id = $4"
    );
}

#[test]
fn update_where_uses_column_text_of_lookup() {
    let m = mappers("t", vec![quoted("user"), util::column("x")]);
    assert_eq!(m.build_update_where("user", false), "UPDATE t SET  x = $1 WHERE \"user\" = $2");
    // a lookup that names no column is used as it is
    assert_eq!(m.build_update_where("id", false), "UPDATE t SET  \"user\" = $1, x = $2 WHERE id = $3");
}

#[test]
fn update_set_columns_counts() {
    let m = mappers("t", vec![util::column("a"), extra("b"), util::column("c")]);
    assert_eq!(m.get_update_set_columns(false), (2, " a = $1, c = $2".to_string()));
    assert_eq!(m.get_update_set_columns(true), (3, " a = $1, b = $2, c = $3".to_string()));
}

#[test]
fn placeholders_past_nine() {
    let names: [&'static str; 12] = ["c1", "c2", "c3", "c4", "c5", "c6", "c7", "c8", "c9", "c10", "c11", "c12"];
    let m = mappers("t", names.iter().map(|n| util::column(n)).collect());
    assert_eq!(
        m.build_insert_query(true),
        "INSERT INTO t(c1,c2,c3,c4,c5,c6,c7,c8,c9,c10,c11,c12) VALUES($1, $2, $3, $4, $5, $6, $7, $8, $9, $10, $11, $12)"
    );
}

#[test]
fn decimal_notation() {
    for n in [0usize, 7, 10, 99, 100, 12345, usize::MAX] {
        let mut s = String::from("x");
        append_decimal(&mut s, n);
        assert_eq!(s, format!("x{}", n));
    }
}

#[test]
fn extra_column_positions() {
    let m = mappers("t", vec![util::column("a"), extra("b"), util::column("c"), extra("d")]);
    assert_eq!(m.extra_columns(), vec![1, 3]);
    assert_eq!(mappers("t", vec![util::column("a")]).extra_columns(), Vec::<usize>::new());
}
