//! Cursors: where a page stands in its listing, and the tokens that lead to its neighbours.

use vstd::prelude::*;
use vstd::string::*;
use crate::row::{text_at, views, Row, RowView};

verus! {

/// Number of items on a full page.
pub const LIMIT: usize = 4;

/// Number of rows asked of the store in each direction: one more than a page holds, so
/// that the extra row tells whether anything lies beyond the page.
pub const LIMIT_UPPER_BOUND: usize = LIMIT + 1;

/// The token that stands above every timestamp; asking for the rows below it asks for the
/// first page.
pub const MAX_DATE: &'static str = "9999-12-31";

/// Position of a page within a listing.
///
/// `next` and `prev` are the tokens to ask the following and the preceding page with.
/// `next` is only meaningful while `has_next` holds, `prev` while `has_prev` holds.
#[derive(Clone, Debug, PartialEq, Eq)]
pub struct Cursor {
    pub has_next: bool,
    pub has_prev: bool,
    pub curr: String,
    pub next: String,
    pub prev: String,
}

/// A [`Cursor`] in contracts.
pub struct CursorView {
    pub has_next: bool,
    pub has_prev: bool,
    pub curr: Seq<char>,
    pub next: Seq<char>,
    pub prev: Seq<char>,
}

impl View for Cursor {
    type V = CursorView;

    open spec fn view(&self) -> CursorView {
        CursorView {
            has_next: self.has_next,
            has_prev: self.has_prev,
            curr: self.curr@,
            next: self.next@,
            prev: self.prev@,
        }
    }
}

/// The value a row is ordered by: the text in column `index`, or nothing where the row
/// holds none there.
pub open spec fn sort_key(row: RowView, index: int) -> Seq<char> {
    match text_at(row, index) {
        Some(t) => t,
        None => Seq::empty(),
    }
}

/// Whether a page follows, and the token that leads to it, read off the rows found below
/// the current token (nearest first).
///
/// A full set of `LIMIT_UPPER_BOUND` rows proves that a page follows; the token is then the
/// key of the last row that stays on this page. A shorter set ends the listing, and the
/// token is the key of its last row.
pub open spec fn next_side(next: Seq<RowView>, index: int) -> (bool, Seq<char>) {
    if next.len() == 0 {
        (false, Seq::empty())
    } else if next.len() == LIMIT_UPPER_BOUND {
        (true, sort_key(next[next.len() - 2], index))
    } else {
        (false, sort_key(next.last(), index))
    }
}

/// Whether a page precedes, and the token that leads to it, read off the rows found above
/// the current token (farthest first).
///
/// Any row above means that a page precedes. A full set of `LIMIT_UPPER_BOUND` rows gives
/// the key of its second row as the token; a shorter set sends back to the first page.
pub open spec fn prev_side(prev: Seq<RowView>, index: int) -> (bool, Seq<char>) {
    if prev.len() == 0 {
        (false, Seq::empty())
    } else if prev.len() == LIMIT_UPPER_BOUND {
        (true, sort_key(prev[1], index))
    } else {
        (true, MAX_DATE@)
    }
}

/// The cursor of the page requested with token `curr`, given the rows found on either side.
pub open spec fn cursor_of(
    next: Seq<RowView>,
    prev: Seq<RowView>,
    curr: Seq<char>,
    index: int,
) -> CursorView {
    CursorView {
        has_next: next_side(next, index).0,
        has_prev: prev_side(prev, index).0,
        curr,
        next: next_side(next, index).1,
        prev: prev_side(prev, index).1,
    }
}

/// The rows whose key a cursor is built from hold text in column `index`.
pub open spec fn keys_readable(next: Seq<RowView>, prev: Seq<RowView>, index: int) -> bool {
    &&& next.len() == LIMIT_UPPER_BOUND ==> text_at(next[next.len() - 2], index).is_some()
    &&& 0 < next.len() && next.len() != LIMIT_UPPER_BOUND ==> text_at(next.last(), index).is_some()
    &&& prev.len() == LIMIT_UPPER_BOUND ==> text_at(prev[1], index).is_some()
}

/// The rows of a page: the rows found below the token, without the extra row that a full
/// set carries.
pub open spec fn trimmed<T>(next: Seq<T>) -> Seq<T> {
    if next.len() == LIMIT_UPPER_BOUND {
        next.drop_last()
    } else {
        next
    }
}

impl Default for Cursor {
    /// The cursor of an empty listing: no neighbours, and every token empty.
    fn default() -> (cursor: Cursor)
        ensures
            cursor@ == cursor_of(Seq::empty(), Seq::empty(), Seq::empty(), 0),
    {
        Cursor {
            has_next: false,
            has_prev: false,
            curr: String::new(),
            next: String::new(),
            prev: String::new(),
        }
    }
}

impl Cursor {
    /// Builds the cursor of the page requested with token `curr`.
    ///
    /// `next` holds the rows below `curr`, nearest first, and `prev` the rows above it,
    /// farthest first, each cut off after `LIMIT_UPPER_BOUND` rows. `index` is the column
    /// the listing is ordered by.
    pub fn new(next: &[Row], prev: Vec<Row>, curr: String, index: usize) -> (cursor: Cursor)
        requires
            next@.len() <= LIMIT_UPPER_BOUND,
            prev@.len() <= LIMIT_UPPER_BOUND,
            keys_readable(views(next@), views(prev@), index as int),
        ensures
            cursor@ == cursor_of(views(next@), views(prev@), curr@, index as int),
            cursor.curr == curr,
            cursor.has_next <==> next@.len() == LIMIT_UPPER_BOUND,
            cursor.has_prev <==> prev@.len() > 0,
    {
        let (hn, n) = if next.len() == LIMIT_UPPER_BOUND {
            (true, next[next.len() - 2].get_text(index))
        } else if next.len() > 0 {
            (false, next[next.len() - 1].get_text(index))
        } else {
            (false, String::new())
        };

        let (hp, p) = if prev.len() == LIMIT_UPPER_BOUND {
            (true, prev[1].get_text(index))
        } else if prev.len() > 0 {
            (true, String::from_str(MAX_DATE))
        } else {
            (false, String::new())
        };

        Cursor { has_next: hn, has_prev: hp, next: n, prev: p, curr }
    }

    /// Cuts the rows found below the token down to a page: a full set of
    /// `LIMIT_UPPER_BOUND` rows loses its last row, any other set is kept whole.
    pub fn items(next: Vec<Row>) -> (items: Vec<Row>)
        ensures
            items@ == trimmed(next@),
    {
        let mut items = next;
        if items.len() == LIMIT_UPPER_BOUND {
            items.pop();
        }
        items
    }
}

} // verus!
