//! Articles as the store keeps them, and how they are made from feed entries.

use vstd::prelude::*;
use vstd::string::*;
use crate::encoding::{encode_url_safe, url_safe_base64};
use crate::row::{flag_at, text_at, Row, RowView};
use crate::timestamp::{
    converted_or_given, or_given, rfc2822_as_rfc3339, rfc2822_to_rfc3339, rfc3339_as_date,
    rfc3339_to_date,
};

verus! {

/// An article of a feed.
#[derive(Clone, Debug, PartialEq, Eq)]
pub struct Article {
    pub id: String,
    pub feed: String,
    pub title: String,
    pub link: String,
    pub author: String,
    pub published: String,
    pub read: bool,
    pub favorited: bool,
    pub read_date: String,
}

/// An [`Article`] in contracts.
pub struct ArticleView {
    pub id: Seq<char>,
    pub feed: Seq<char>,
    pub title: Seq<char>,
    pub link: Seq<char>,
    pub author: Seq<char>,
    pub published: Seq<char>,
    pub read: bool,
    pub favorited: bool,
    pub read_date: Seq<char>,
}

impl View for Article {
    type V = ArticleView;

    open spec fn view(&self) -> ArticleView {
        ArticleView {
            id: self.id@,
            feed: self.feed@,
            title: self.title@,
            link: self.link@,
            author: self.author@,
            published: self.published@,
            read: self.read,
            favorited: self.favorited,
            read_date: self.read_date@,
        }
    }
}

/// One entry of a parsed feed, as far as an article is made from it. Timestamps are in
/// RFC 3339 notation.
#[derive(Clone, Debug, PartialEq, Eq)]
pub struct Entry {
    pub title: Option<String>,
    /// The addresses of the entry's links, in the order the feed gives them.
    pub links: Vec<String>,
    /// The names of the entry's authors, in the order the feed gives them.
    pub authors: Vec<String>,
    pub published: Option<String>,
    pub updated: Option<String>,
}

/// An [`Entry`] in contracts.
pub struct EntryView {
    pub title: Option<Seq<char>>,
    pub links: Seq<Seq<char>>,
    pub authors: Seq<Seq<char>>,
    pub published: Option<Seq<char>>,
    pub updated: Option<Seq<char>>,
}

impl View for Entry {
    type V = EntryView;

    open spec fn view(&self) -> EntryView {
        EntryView {
            title: self.title.deep_view(),
            links: self.links.deep_view(),
            authors: self.authors.deep_view(),
            published: self.published.deep_view(),
            updated: self.updated.deep_view(),
        }
    }
}

/// A publication date as it is stored: in RFC 3339 notation where it was given in
/// RFC 2822 notation, else as it was given.
pub open spec fn stored_date(published: Seq<char>) -> Seq<char> {
    or_given(rfc2822_as_rfc3339(published), published)
}

/// A timestamp as it is shown: as a calendar date where it is in RFC 3339 notation, else
/// as it stands.
pub open spec fn shown_date(timestamp: Seq<char>) -> Seq<char> {
    or_given(rfc3339_as_date(timestamp), timestamp)
}

/// The article made from the given parts: known by the base64 text of its link, of no
/// feed yet, and never read.
pub open spec fn article_of(
    title: Seq<char>,
    link: Seq<char>,
    author: Seq<char>,
    published: Seq<char>,
    read: bool,
    favorited: bool,
) -> ArticleView {
    ArticleView {
        id: url_safe_base64(link),
        feed: Seq::empty(),
        title,
        link,
        author,
        published: stored_date(published),
        read,
        favorited,
        read_date: "-1"@,
    }
}

/// The first text of a list, or the empty text where the list is empty.
pub open spec fn first_or_empty(texts: Seq<Seq<char>>) -> Seq<char> {
    if texts.len() > 0 {
        texts[0]
    } else {
        Seq::empty()
    }
}

/// The text, or the empty text where there is none.
pub open spec fn text_or_empty(text: Option<Seq<char>>) -> Seq<char> {
    match text {
        Some(t) => t,
        None => Seq::empty(),
    }
}

/// When an entry appeared: its publication date, else its last update, else nothing.
pub open spec fn entry_date(entry: EntryView) -> Seq<char> {
    match entry.published {
        Some(t) => t,
        None => text_or_empty(entry.updated),
    }
}

/// The article made from an entry: its title, its first link and its first author, each
/// empty where the entry has none, unread and not favorited.
pub open spec fn article_from(entry: EntryView) -> ArticleView {
    article_of(
        text_or_empty(entry.title),
        first_or_empty(entry.links),
        first_or_empty(entry.authors),
        entry_date(entry),
        false,
        false,
    )
}

/// The article made from an entry of the feed called `feed`.
pub open spec fn article_of_feed(entry: EntryView, feed: Seq<char>) -> ArticleView {
    ArticleView { feed, ..article_from(entry) }
}

/// A row holds an article: text in its first six columns, flags in the next two, and text
/// in the ninth.
pub open spec fn holds_article(row: RowView) -> bool {
    &&& forall|i: int| 0 <= i < 6 ==> (#[trigger] text_at(row, i)).is_some()
    &&& flag_at(row, 6).is_some()
    &&& flag_at(row, 7).is_some()
    &&& text_at(row, 8).is_some()
}

/// The article that a row holds, column by column, its two timestamps as they are shown.
pub open spec fn article_in(row: RowView) -> ArticleView {
    ArticleView {
        id: text_at(row, 0).unwrap(),
        feed: text_at(row, 1).unwrap(),
        title: text_at(row, 2).unwrap(),
        link: text_at(row, 3).unwrap(),
        author: text_at(row, 4).unwrap(),
        published: shown_date(text_at(row, 5).unwrap()),
        read: flag_at(row, 6).unwrap(),
        favorited: flag_at(row, 7).unwrap(),
        read_date: shown_date(text_at(row, 8).unwrap()),
    }
}

fn cloned_or_empty(text: &Option<String>) -> (s: String)
    ensures
        s@ == text_or_empty(text.deep_view()),
{
    match text {
        Some(t) => t.clone(),
        None => String::new(),
    }
}

fn first_cloned_or_empty(texts: &Vec<String>) -> (s: String)
    ensures
        s@ == first_or_empty(texts.deep_view()),
{
    if texts.len() > 0 {
        texts[0].clone()
    } else {
        String::new()
    }
}

impl Article {
    /// Makes an article from its parts.
    pub fn new(
        title: String,
        link: String,
        author: String,
        published: String,
        read: bool,
        favorited: bool,
    ) -> (article: Article)
        ensures
            article@ == article_of(title@, link@, author@, published@, read, favorited),
    {
        let id = encode_url_safe(link.as_str());
        let converted = rfc2822_to_rfc3339(published.as_str());
        Article::with_id(id, title, link, author, published, converted, read, favorited)
    }

    /// Makes an article known by `id`. `converted` is the publication date in the notation
    /// it is stored in, where `published` could be turned into it.
    pub fn with_id(
        id: String,
        title: String,
        link: String,
        author: String,
        published: String,
        converted: Option<String>,
        read: bool,
        favorited: bool,
    ) -> (article: Article)
        ensures
            article@ == (ArticleView {
                id: id@,
                feed: Seq::empty(),
                title: title@,
                link: link@,
                author: author@,
                published: or_given(converted.deep_view(), published@),
                read,
                favorited,
                read_date: "-1"@,
            }),
    {
        Article {
            id,
            feed: String::new(),
            title,
            link,
            author,
            published: converted_or_given(converted, published),
            read,
            favorited,
            read_date: String::from_str("-1"),
        }
    }

    /// Reads the clock: calls `chrono::Utc::now` and writes the instant with
    /// `DateTime::to_rfc3339_opts(SecondsFormat::Millis, true)`.
    ///
    /// Trusted, and nothing is claimed of the text. The call fails only where the clock
    /// stands before 1970.
    #[verifier::external_body]
    pub fn rfc3339_timestamp() -> (now: String) {
        chrono::Utc::now().to_rfc3339_opts(chrono::SecondsFormat::Millis, true)
    }

    /// A timestamp as it is shown to a reader.
    pub fn rfc3339_timestamp_to_human(timestamp: String) -> (shown: String)
        ensures
            shown@ == shown_date(timestamp@),
    {
        let converted = rfc3339_to_date(timestamp.as_str());
        converted_or_given(converted, timestamp)
    }

    /// The read date to store when the article's read mark is flipped at `now`: none for
    /// an article that was read, `now` for one that was not.
    pub fn read_date_after_toggle(&self, now: String) -> (date: String)
        ensures
            date@ == if self.read {
                "-1"@
            } else {
                now@
            },
    {
        if self.read {
            String::from_str("-1")
        } else {
            now
        }
    }

    /// Reads an article from a row, or nothing where the row holds none.
    pub fn try_from_row(row: &Row) -> (found: Option<Article>)
        ensures
            match found {
                Some(article) => holds_article(row@) && article@ == article_in(row@),
                None => !holds_article(row@),
            },
    {
        let mut i: usize = 0;
        while i < 6
            invariant
                i <= 6,
                forall|j: int| 0 <= j < i ==> (#[trigger] text_at(row@, j)).is_some(),
            decreases 6 - i,
        {
            if !row.has_text(i) {
                return None;
            }
            i += 1;
        }
        if row.has_flag(6) && row.has_flag(7) && row.has_text(8) {
            Some(Article::from_row(row))
        } else {
            None
        }
    }

    /// Reads an article from a row of the article table.
    pub fn from_row(row: &Row) -> (article: Article)
        requires
            holds_article(row@),
        ensures
            article@ == article_in(row@),
    {
        assert(text_at(row@, 0).is_some() && text_at(row@, 1).is_some());
        assert(text_at(row@, 2).is_some() && text_at(row@, 3).is_some());
        assert(text_at(row@, 4).is_some() && text_at(row@, 5).is_some());
        Article {
            id: row.get_text(0),
            feed: row.get_text(1),
            title: row.get_text(2),
            link: row.get_text(3),
            author: row.get_text(4),
            published: Article::rfc3339_timestamp_to_human(row.get_text(5)),
            read: row.get_flag(6),
            favorited: row.get_flag(7),
            read_date: Article::rfc3339_timestamp_to_human(row.get_text(8)),
        }
    }

    /// Makes the articles of the feed called `feed` from what was found in its content:
    /// none where the content was no feed, else one of every entry, in their order.
    pub fn from_parsed(parsed: Option<Vec<Entry>>, feed: &str) -> (found: Option<Vec<Article>>)
        ensures
            match parsed {
                Some(entries) => found.is_some() && article_views(found.unwrap()@)
                    == articles_of_feed(entry_views(entries@), feed@),
                None => found.is_none(),
            },
    {
        match parsed {
            Some(entries) => Some(Article::from_entries(&entries, feed)),
            None => None,
        }
    }

    /// Makes the articles of the feed called `feed` from its entries, in their order.
    pub fn from_entries(entries: &Vec<Entry>, feed: &str) -> (articles: Vec<Article>)
        ensures
            articles@.len() == entries@.len(),
            forall|i: int|
                0 <= i < entries@.len() ==> (#[trigger] articles@[i])@ == article_of_feed(
                    entries@[i]@,
                    feed@,
                ),
            article_views(articles@) == articles_of_feed(entry_views(entries@), feed@),
    {
        let mut articles: Vec<Article> = Vec::new();
        let mut i: usize = 0;
        while i < entries.len()
            invariant
                i <= entries@.len(),
                articles@.len() == i,
                forall|j: int|
                    0 <= j < i ==> (#[trigger] articles@[j])@ == article_of_feed(
                        entries@[j]@,
                        feed@,
                    ),
            decreases entries@.len() - i,
        {
            let mut article = Article::from_entry(&entries[i]);
            article.feed = String::from_str(feed);
            articles.push(article);
            i += 1;
        }
        assert(article_views(articles@) =~= articles_of_feed(entry_views(entries@), feed@));
        articles
    }

    /// Makes an article from an entry of a parsed feed.
    pub fn from_entry(entry: &Entry) -> (article: Article)
        ensures
            article@ == article_from(entry@),
    {
        let title = cloned_or_empty(&entry.title);
        let link = first_cloned_or_empty(&entry.links);
        let author = first_cloned_or_empty(&entry.authors);
        let published = match &entry.published {
            Some(t) => t.clone(),
            None => cloned_or_empty(&entry.updated),
        };
        Article::new(title, link, author, published, false, false)
    }
}

/// The views of a list of articles, position by position.
pub open spec fn article_views(articles: Seq<Article>) -> Seq<ArticleView> {
    Seq::new(articles.len(), |i: int| articles[i]@)
}

/// The views of a list of entries, position by position.
pub open spec fn entry_views(entries: Seq<Entry>) -> Seq<EntryView> {
    Seq::new(entries.len(), |i: int| entries[i]@)
}

/// The articles made from the entries of the feed called `feed`: one of every entry, in
/// their order.
pub open spec fn articles_of_feed(entries: Seq<EntryView>, feed: Seq<char>) -> Seq<ArticleView> {
    Seq::new(entries.len(), |i: int| article_of_feed(entries[i], feed))
}

} // verus!
