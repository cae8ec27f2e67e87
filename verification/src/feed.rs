//! Feeds as the store keeps them.

use vstd::prelude::*;
use vstd::string::*;
use crate::article::Article;
use crate::encoding::{encode_url_safe, url_safe_base64, url_safe_text};
use crate::row::{text_at, Row, RowView};

verus! {

/// A feed the reader follows.
#[derive(Clone, Debug, PartialEq, Eq)]
pub struct Feed {
    pub id: String,
    pub name: String,
    pub site_url: String,
    pub feed_url: String,
    pub date_added: String,
    pub last_updated: String,
}

/// A [`Feed`] in contracts.
pub struct FeedView {
    pub id: Seq<char>,
    pub name: Seq<char>,
    pub site_url: Seq<char>,
    pub feed_url: Seq<char>,
    pub date_added: Seq<char>,
    pub last_updated: Seq<char>,
}

impl View for Feed {
    type V = FeedView;

    open spec fn view(&self) -> FeedView {
        FeedView {
            id: self.id@,
            name: self.name@,
            site_url: self.site_url@,
            feed_url: self.feed_url@,
            date_added: self.date_added@,
            last_updated: self.last_updated@,
        }
    }
}

/// The feed added at `date_added` under the given name and addresses: known by the
/// base64 text of its feed address, and never refreshed yet.
pub open spec fn feed_added(
    name: Seq<char>,
    site_url: Seq<char>,
    feed_url: Seq<char>,
    date_added: Seq<char>,
) -> FeedView {
    FeedView {
        id: url_safe_base64(feed_url),
        name,
        site_url,
        feed_url,
        date_added,
        last_updated: "-1"@,
    }
}

/// A row holds a feed: text in each of its first six columns.
pub open spec fn holds_feed(row: RowView) -> bool {
    forall|i: int| 0 <= i < 6 ==> (#[trigger] text_at(row, i)).is_some()
}

/// The feed that a row holds, column by column.
pub open spec fn feed_in(row: RowView) -> FeedView {
    FeedView {
        id: text_at(row, 0).unwrap(),
        name: text_at(row, 1).unwrap(),
        site_url: text_at(row, 2).unwrap(),
        feed_url: text_at(row, 3).unwrap(),
        date_added: text_at(row, 4).unwrap(),
        last_updated: text_at(row, 5).unwrap(),
    }
}

impl Feed {
    /// A feed added now.
    pub fn new(name: String, site_url: String, feed_url: String) -> (feed: Feed)
        ensures
            feed@ == feed_added(name@, site_url@, feed_url@, feed.date_added@),
            url_safe_text(feed.id@),
    {
        let id = encode_url_safe(feed_url.as_str());
        let date_added = Article::rfc3339_timestamp();
        Feed::added_at(id, name, site_url, feed_url, date_added)
    }

    /// A feed added at `date_added` and known by `id`.
    pub fn added_at(
        id: String,
        name: String,
        site_url: String,
        feed_url: String,
        date_added: String,
    ) -> (feed: Feed)
        ensures
            feed@ == (FeedView {
                id: id@,
                name: name@,
                site_url: site_url@,
                feed_url: feed_url@,
                date_added: date_added@,
                last_updated: "-1"@,
            }),
    {
        Feed { id, name, site_url, feed_url, date_added, last_updated: String::from_str("-1") }
    }

    /// Reads a feed from a row, or nothing where the row holds none.
    pub fn try_from_row(row: &Row) -> (found: Option<Feed>)
        ensures
            match found {
                Some(feed) => holds_feed(row@) && feed@ == feed_in(row@),
                None => !holds_feed(row@),
            },
    {
        let mut i: usize = 0;
        while i < 6
            invariant
                i <= 6,
                forall|j: int| 0 <= j < i ==> (#[trigger] text_at(row@, j)).is_some(),
            decreases 6 - i,
        {
            if !row.has_text(i) {
                return None;
            }
            i += 1;
        }
        Some(Feed::from_row(row))
    }

    /// Reads a feed from a row of the feed table.
    pub fn from_row(row: &Row) -> (feed: Feed)
        requires
            holds_feed(row@),
        ensures
            feed@ == feed_in(row@),
    {
        assert(text_at(row@, 0).is_some() && text_at(row@, 1).is_some());
        assert(text_at(row@, 2).is_some() && text_at(row@, 3).is_some());
        assert(text_at(row@, 4).is_some() && text_at(row@, 5).is_some());
        Feed {
            id: row.get_text(0),
            name: row.get_text(1),
            site_url: row.get_text(2),
            feed_url: row.get_text(3),
            date_added: row.get_text(4),
            last_updated: row.get_text(5),
        }
    }
}

} // verus!
