use vstd::prelude::*;

use crate::db::service::{StatementState, VersionedStatement};
use crate::db::util::{column, concat, ColumnMapper, ColumnMappers, ColumnNote};
use crate::forms::{CreateArticle, UpdateArticle};
use crate::models::ArticleDetails;

verus! {

/// What every query about one or more articles selects, `$1` being the
/// reader.
pub const ARTICLE_DETAILS_SELECT: &'static str = "\nSELECT a.id, slug, title, description, body, a.created_at, a.updated_at,\n  (SELECT STRING_AGG(tag_name, ',') FROM article_tags WHERE article_id = a.id) AS TagList,\n  (SELECT COUNT(*)::integer FROM favorite_articles WHERE article_id = a.id AND user_id = $1) AS Favorited,\n  (SELECT COUNT(*)::integer FROM favorite_articles WHERE article_id = a.id) AS FavoritesCount,\n  u.id, u.username, u.bio, u.image,\n  (SELECT COUNT(*)::integer FROM followers WHERE user_id = u.id AND follower_id = $1) AS Following\nFROM articles a INNER JOIN users u ON a.author_id = u.id\n";

/// What the query of a reader's feed selects, `$1` being the reader.
pub const FEED_DETAILS_SELECT: &'static str = "\nWITH following(author_id) AS (\n  SELECT user_id FROM followers WHERE follower_id = $1\n)\nSELECT a.id, slug, title, description, body, a.created_at, a.updated_at,\n  (SELECT STRING_AGG(tag_name, ',') FROM article_tags WHERE article_id = a.id) AS TagList,\n  (SELECT COUNT(*)::integer FROM favorite_articles WHERE article_id = a.id AND user_id = $1) AS Favorited,\n  (SELECT COUNT(*)::integer FROM favorite_articles WHERE article_id = a.id) AS FavoritesCount,\n  u.id, u.username, u.bio, u.image,\n  1::integer AS Following\nFROM following f INNER JOIN articles a ON a.author_id = f.author_id\n  INNER JOIN users u ON a.author_id = u.id\n";

/// The columns of the `favorite_articles` table.
pub fn favorite_columns() -> (r: ColumnMappers)
    ensures
        r.table_name@ == "favorite_articles"@,
        r.columns@.map_values(|c: ColumnMapper| c.column@) == seq!["user_id"@, "article_id"@],
        forall|i: int| 0 <= i < r.columns@.len() ==> (#[trigger] r.columns@[i]).note == ColumnNote::Regular,
{
    let columns = vec![column("user_id"), column("article_id")];
    let r = ColumnMappers { table_name: "favorite_articles", columns };
    assert(r.columns@.map_values(|c: ColumnMapper| c.column@) =~= seq!["user_id"@, "article_id"@]);
    r
}

/// The statements about articles, on connection handles `C` and prepared
/// statements `S`.
pub struct ArticleService<C, S> {
    pub article_by_id: VersionedStatement<C, S>,
    pub article_by_slug: VersionedStatement<C, S>,
    pub store_article: VersionedStatement<C, S>,
    pub add_tag: VersionedStatement<C, S>,
    pub delete_tag: VersionedStatement<C, S>,
    pub update_article: VersionedStatement<C, S>,
    pub delete_article: VersionedStatement<C, S>,
    pub get_articles: VersionedStatement<C, S>,
    pub get_feed: VersionedStatement<C, S>,
    pub favorite_article: VersionedStatement<C, S>,
    pub unfavorite_article: VersionedStatement<C, S>,
}

impl<C, S> ArticleService<C, S> {
    pub fn new() -> (r: Self)
        ensures
            r.article_by_id.query_text() == ARTICLE_DETAILS_SELECT@ + " WHERE a.id = $2"@,
            r.article_by_slug.query_text() == ARTICLE_DETAILS_SELECT@ + " WHERE a.slug = $2"@,
            r.get_articles.query_text() == ARTICLE_DETAILS_SELECT@ + " ORDER BY a.id DESC LIMIT $2 OFFSET $3 "@,
            r.get_feed.query_text() == FEED_DETAILS_SELECT@ + " ORDER BY a.id DESC LIMIT $2 OFFSET $3 "@,
            r.delete_article.query_text() == "DELETE FROM articles WHERE id = $1"@,
            r.unfavorite_article.query_text() == "DELETE FROM favorite_articles WHERE user_id = $1 AND article_id = $2"@,
            r.article_by_id.state() == StatementState::<C, S>::Init(0),
            r.favorite_article.state() == StatementState::<C, S>::Init(0),
    {
        let page = " ORDER BY a.id DESC LIMIT $2 OFFSET $3 ";
        let favorites = favorite_columns();
        let favorite = favorites.build_upsert("(user_id, article_id)", true);
        ArticleService {
            article_by_id: VersionedStatement::new(concat(ARTICLE_DETAILS_SELECT, " WHERE a.id = $2").as_str()),
            article_by_slug: VersionedStatement::new(concat(ARTICLE_DETAILS_SELECT, " WHERE a.slug = $2").as_str()),
            store_article: VersionedStatement::new(
                "INSERT INTO articles(author_id, slug, title, description, body)\n        VALUES($1, $2, $3, $4, $5) RETURNING id",
            ),
            add_tag: VersionedStatement::new(
                "INSERT INTO article_tags(article_id, tag_name)\n        VALUES($1, $2)",
            ),
            delete_tag: VersionedStatement::new(
                "DELETE FROM article_tags WHERE article_id = $1 AND tag_name = $2",
            ),
            update_article: VersionedStatement::new(
                "UPDATE articles SET slug = $2, title = $3, description = $4, body = $5\n        WHERE id = $1",
            ),
            delete_article: VersionedStatement::new("DELETE FROM articles WHERE id = $1"),
            get_articles: VersionedStatement::new(concat(ARTICLE_DETAILS_SELECT, page).as_str()),
            get_feed: VersionedStatement::new(concat(FEED_DETAILS_SELECT, page).as_str()),
            favorite_article: VersionedStatement::new(favorite.as_str()),
            unfavorite_article: VersionedStatement::new(
                "DELETE FROM favorite_articles WHERE user_id = $1 AND article_id = $2",
            ),
        }
    }
}

/// The slug that `slug::slugify` makes of a text.
pub uninterp spec fn slug_of(s: Seq<char>) -> Seq<char>;

/// Relies on `slug::slugify`: the slug depends on the text alone.
#[verifier::external_body]
fn slugify(s: &str) -> (r: String)
    ensures
        r@ == slug_of(s@),
{
    slug::slugify(s)
}

/// The slug of a new article: that of its title.
pub fn article_slug(article: &CreateArticle) -> (r: String)
    ensures
        r@ == slug_of(article.title@),
{
    slugify(article.title.as_str())
}

/// The texts that a list of strings holds.
pub open spec fn texts(v: Seq<String>) -> Seq<Seq<char>> {
    v.map_values(|s: String| s@)
}

proof fn lemma_push_contains(s: Seq<Seq<char>>, x: Seq<char>, t: Seq<char>)
    ensures
        s.push(x).contains(t) <==> (s.contains(t) || t == x),
{
    if s.push(x).contains(t) {
        let j = choose|j: int| 0 <= j < s.push(x).len() && s.push(x)[j] == t;
        if j < s.len() {
            assert(s[j] == t);
        }
    }
    if s.contains(t) {
        let j = choose|j: int| 0 <= j < s.len() && s[j] == t;
        assert(s.push(x)[j] == t);
    }
    if t == x {
        assert(s.push(x)[s.len() as int] == t);
    }
}

fn holds(v: &Vec<String>, s: &String) -> (r: bool)
    ensures
        r == texts(v@).contains(s@),
{
    let mut i: usize = 0;
    while i < v.len()
        invariant
            0 <= i <= v@.len(),
            forall|j: int| 0 <= j < i ==> v@[j]@ != s@,
        decreases v@.len() - i,
    {
        if v[i] == *s {
            assert(texts(v@)[i as int] == s@);
            return true;
        }
        i += 1;
    }
    proof {
        if texts(v@).contains(s@) {
            let j = choose|j: int| 0 <= j < texts(v@).len() && texts(v@)[j] == s@;
            assert(v@[j]@ == s@);
        }
    }
    false
}

/// The tags of `from` that `other` does not hold, each once, in the order
/// they first come in `from`.
pub fn tags_missing_from(from: &Vec<String>, other: &Vec<String>) -> (r: Vec<String>)
    ensures
        texts(r@).no_duplicates(),
        forall|t: Seq<char>| texts(r@).contains(t) <==> (texts(from@).contains(t) && !texts(other@).contains(t)),
{
    let mut out: Vec<String> = Vec::new();
    let mut i: usize = 0;
    while i < from.len()
        invariant
            0 <= i <= from@.len(),
            texts(out@).no_duplicates(),
            forall|t: Seq<char>| texts(out@).contains(t) <==> (texts(from@.take(i as int)).contains(t)
                && !texts(other@).contains(t)),
        decreases from@.len() - i,
    {
        let tag = &from[i];
        proof {
            assert(texts(from@.take(i as int + 1)) =~= texts(from@.take(i as int)).push(tag@));
        }
        let ghost before = out@;
        if !holds(other, tag) && !holds(&out, tag) {
            out.push(tag.clone());
            proof {
                assert(texts(out@) =~= texts(before).push(tag@));
                assert forall|t: Seq<char>| texts(out@).contains(t) <==> (texts(from@.take(i as int + 1)).contains(t)
                    && !texts(other@).contains(t)) by {
                    lemma_push_contains(texts(before), tag@, t);
                    lemma_push_contains(texts(from@.take(i as int)), tag@, t);
                }
            }
        } else {
            proof {
                assert forall|t: Seq<char>| texts(out@).contains(t) <==> (texts(from@.take(i as int + 1)).contains(t)
                    && !texts(other@).contains(t)) by {
                    lemma_push_contains(texts(from@.take(i as int)), tag@, t);
                }
            }
        }
        i += 1;
    }
    proof {
        assert(from@.take(from@.len() as int) =~= from@);
    }
    out
}

/// The tags to attach to an article and those to take off it when its tags
/// go from `old_tags` to `new_tags`.
pub struct TagPlan {
    pub add: Vec<String>,
    pub remove: Vec<String>,
}

/// Plans the change of an article's tags: every tag that is new is added
/// once, every tag that is gone is removed once, the others are kept.
pub fn plan_tag_changes(old_tags: &Vec<String>, new_tags: &Vec<String>) -> (r: TagPlan)
    ensures
        texts(r.add@).no_duplicates(),
        texts(r.remove@).no_duplicates(),
        forall|t: Seq<char>| texts(r.add@).contains(t) <==> (texts(new_tags@).contains(t) && !texts(old_tags@).contains(t)),
        forall|t: Seq<char>| texts(r.remove@).contains(t) <==> (texts(old_tags@).contains(t) && !texts(new_tags@).contains(t)),
{
    TagPlan { add: tags_missing_from(new_tags, old_tags), remove: tags_missing_from(old_tags, new_tags) }
}

/// Applies the edits of `req` to `article`, with `new_slug` as the slug of
/// the new title: a title that is given replaces the title and the slug, a
/// description or body that is given replaces the old one.
pub fn apply_edits(article: &mut ArticleDetails, req: &UpdateArticle, new_slug: &str)
    ensures
        req.title is Some ==> final(article).title@ == req.title->0@ && final(article).slug@ == new_slug@,
        req.title is None ==> final(article).title@ == old(article).title@ && final(article).slug@ == old(article).slug@,
        final(article).description@ == if req.description is Some { req.description->0@ } else { old(article).description@ },
        final(article).body@ == if req.body is Some { req.body->0@ } else { old(article).body@ },
        final(article).id == old(article).id,
        final(article).tag_list@ == old(article).tag_list@,
{
    if let Some(title) = &req.title {
        article.title = title.clone();
        article.slug = String::from_str(new_slug);
    }
    if let Some(desc) = &req.description {
        article.description = desc.clone();
    }
    if let Some(body) = &req.body {
        article.body = body.clone();
    }
}

/// Applies the edits of `req` to `article`; a new title also gives the
/// article the slug of that title.
pub fn update_fields(article: &mut ArticleDetails, req: &UpdateArticle)
    ensures
        req.title is Some ==> final(article).title@ == req.title->0@ && final(article).slug@ == slug_of(req.title->0@),
        req.title is None ==> final(article).title@ == old(article).title@ && final(article).slug@ == old(article).slug@,
        final(article).description@ == if req.description is Some { req.description->0@ } else { old(article).description@ },
        final(article).body@ == if req.body is Some { req.body->0@ } else { old(article).body@ },
        final(article).id == old(article).id,
        final(article).tag_list@ == old(article).tag_list@,
{
    let new_slug = match &req.title {
        Some(title) => slugify(title.as_str()),
        None => String::new(),
    };
    apply_edits(article, req, new_slug.as_str());
}

} // verus!
