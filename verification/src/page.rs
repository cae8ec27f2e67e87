//! Pages: the rows shown for one request, with the cursor that leads on from them.

use vstd::prelude::*;
use crate::cursor::{
    cursor_of, keys_readable, trimmed, Cursor, CursorView, LIMIT, LIMIT_UPPER_BOUND,
};
use crate::field::PaginationField;
use crate::row::{views, Row, RowView};

verus! {

/// One page of a listing.
#[derive(Clone, Debug, PartialEq, Eq)]
pub struct Page {
    pub cursor: Cursor,
    pub items: Vec<Row>,
}

/// A [`Page`] in contracts.
pub struct PageView {
    pub cursor: CursorView,
    pub items: Seq<RowView>,
}

impl View for Page {
    type V = PageView;

    open spec fn view(&self) -> PageView {
        PageView { cursor: self.cursor@, items: views(self.items@) }
    }
}

/// Why two row sets cannot be made into a page.
#[derive(Clone, Copy, Debug, PartialEq, Eq, Structural)]
pub enum PageError {
    /// A row set holds more than `LIMIT_UPPER_BOUND` rows.
    TooManyRows,
    /// A row that a token has to be read from holds no text in the ordering column.
    MissingKey,
}

/// The page requested with token `curr`: the rows found below the token, cut down to a
/// page, under the cursor that both row sets give.
pub open spec fn page_of(
    next: Seq<RowView>,
    prev: Seq<RowView>,
    curr: Seq<char>,
    index: int,
) -> PageView {
    PageView { cursor: cursor_of(next, prev, curr, index), items: trimmed(next) }
}

/// Cutting rows down to a page and then viewing them is viewing them and then cutting.
pub proof fn lemma_views_trimmed(next: Seq<Row>)
    ensures
        views(trimmed(next)) == trimmed(views(next)),
{
    assert(views(trimmed(next)) =~= trimmed(views(next)));
}

impl Page {
    /// A page never holds more than `LIMIT` rows.
    pub open spec fn wf(&self) -> bool {
        self.items@.len() <= LIMIT
    }

    /// Whether two row sets can be made into a page ordered by column `index`, and if not,
    /// why.
    pub open spec fn admits(
        next: Seq<RowView>,
        prev: Seq<RowView>,
        index: int,
    ) -> Result<(), PageError> {
        if next.len() > LIMIT_UPPER_BOUND || prev.len() > LIMIT_UPPER_BOUND {
            Err(PageError::TooManyRows)
        } else if !keys_readable(next, prev, index) {
            Err(PageError::MissingKey)
        } else {
            Ok(())
        }
    }

    /// Assembles the page requested with token `curr` from the rows found below it
    /// (`next`, nearest first) and above it (`prev`, farthest first), each cut off after
    /// `LIMIT_UPPER_BOUND` rows.
    pub fn new(
        next: Vec<Row>,
        prev: Vec<Row>,
        curr: String,
        paginated_field: PaginationField,
    ) -> (page: Page)
        requires
            Page::admits(views(next@), views(prev@), paginated_field.index() as int).is_ok(),
        ensures
            page@ == page_of(views(next@), views(prev@), curr@, paginated_field.index() as int),
            page.items@ == trimmed(next@),
            page.cursor.curr == curr,
            page.cursor.has_next <==> next@.len() == LIMIT_UPPER_BOUND,
            page.cursor.has_prev <==> prev@.len() > 0,
            page.wf(),
    {
        proof {
            lemma_views_trimmed(next@);
        }
        let cursor = Cursor::new(next.as_slice(), prev, curr, paginated_field.index());
        Page { cursor, items: Cursor::items(next) }
    }

    /// Assembles a page as [`Page::new`] does, after testing that the row sets admit one.
    pub fn try_new(
        next: Vec<Row>,
        prev: Vec<Row>,
        curr: String,
        paginated_field: PaginationField,
    ) -> (made: Result<Page, PageError>)
        ensures
            match made {
                Ok(page) => {
                    &&& Page::admits(
                        views(next@),
                        views(prev@),
                        paginated_field.index() as int,
                    ).is_ok()
                    &&& page@ == page_of(
                        views(next@),
                        views(prev@),
                        curr@,
                        paginated_field.index() as int,
                    )
                    &&& page.items@ == trimmed(next@)
                    &&& page.cursor.curr == curr
                    &&& page.wf()
                },
                Err(e) => Page::admits(
                    views(next@),
                    views(prev@),
                    paginated_field.index() as int,
                ) == Err::<(), PageError>(e),
            },
    {
        let index = paginated_field.index();
        if next.len() > LIMIT_UPPER_BOUND || prev.len() > LIMIT_UPPER_BOUND {
            return Err(PageError::TooManyRows);
        }
        let next_ok = if next.len() == LIMIT_UPPER_BOUND {
            next[next.len() - 2].has_text(index)
        } else if next.len() > 0 {
            next[next.len() - 1].has_text(index)
        } else {
            true
        };
        let prev_ok = if prev.len() == LIMIT_UPPER_BOUND {
            prev[1].has_text(index)
        } else {
            true
        };
        if next_ok && prev_ok {
            Ok(Page::new(next, prev, curr, paginated_field))
        } else {
            Err(PageError::MissingKey)
        }
    }
}

} // verus!
