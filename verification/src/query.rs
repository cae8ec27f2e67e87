//! The two requests that a page is cut from, as the text handed to the store.

use vstd::prelude::*;
use vstd::string::*;
use crate::cursor::{trimmed, LIMIT_UPPER_BOUND, MAX_DATE};
use crate::encoding::MAX_ID;
use crate::field::PaginationField;
use crate::filter::Filter;
use crate::page::{page_of, Page, PageError};
use crate::row::{views, Row};

verus! {

/// The order in which the store hands rows back.
#[derive(Clone, Copy, Debug, PartialEq, Eq, Structural)]
pub enum Direction {
    Ascending,
    Descending,
}

impl Direction {
    /// The keyword of the direction.
    pub open spec fn keyword(self) -> Seq<char> {
        match self {
            Direction::Ascending => "ASC"@,
            Direction::Descending => "DESC"@,
        }
    }

    /// The keyword of the direction.
    pub fn to_string(&self) -> (s: String)
        ensures
            s@ == self.keyword(),
    {
        match *self {
            Direction::Ascending => String::from_str("ASC"),
            Direction::Descending => String::from_str("DESC"),
        }
    }
}

/// The numeral of one decimal digit.
pub open spec fn digit(d: nat) -> Seq<char> {
    if d == 0 {
        "0"@
    } else if d == 1 {
        "1"@
    } else if d == 2 {
        "2"@
    } else if d == 3 {
        "3"@
    } else if d == 4 {
        "4"@
    } else if d == 5 {
        "5"@
    } else if d == 6 {
        "6"@
    } else if d == 7 {
        "7"@
    } else if d == 8 {
        "8"@
    } else {
        "9"@
    }
}

/// The decimal numeral of `n`, without leading zeros.
pub open spec fn decimal(n: nat) -> Seq<char>
    decreases n,
{
    if n < 10 {
        digit(n)
    } else {
        decimal(n / 10) + digit(n % 10)
    }
}

fn digit_str(d: usize) -> (s: &'static str)
    requires
        d < 10,
    ensures
        s@ == digit(d as nat),
{
    if d == 0 {
        "0"
    } else if d == 1 {
        "1"
    } else if d == 2 {
        "2"
    } else if d == 3 {
        "3"
    } else if d == 4 {
        "4"
    } else if d == 5 {
        "5"
    } else if d == 6 {
        "6"
    } else if d == 7 {
        "7"
    } else if d == 8 {
        "8"
    } else {
        "9"
    }
}

/// Writes `n` as a decimal numeral.
pub fn to_decimal(n: usize) -> (s: String)
    ensures
        s@ == decimal(n as nat),
    decreases n,
{
    if n < 10 {
        String::from_str(digit_str(n))
    } else {
        to_decimal(n / 10).concat(digit_str(n % 10))
    }
}

/// A paginated listing: the feeds, or the articles that pass a filter.
#[derive(Clone, Copy, Debug, PartialEq, Eq, Structural)]
pub enum Listing {
    Feeds,
    Articles(Filter),
}

impl Listing {
    /// The column the listing is ordered and paginated by.
    pub open spec fn spec_field(self) -> PaginationField {
        match self {
            Listing::Feeds => PaginationField::Id,
            Listing::Articles(Filter::Unread) => PaginationField::Published,
            Listing::Articles(Filter::Favorite) => PaginationField::Published,
            Listing::Articles(Filter::Read) => PaginationField::ReadDate,
        }
    }

    /// The table the listing reads.
    pub open spec fn table(self) -> Seq<char> {
        match self {
            Listing::Feeds => "feeds"@,
            Listing::Articles(_) => "articles"@,
        }
    }

    /// The listing's predicate, ready to stand before the comparison with the token.
    pub open spec fn condition(self) -> Seq<char> {
        match self {
            Listing::Feeds => ""@,
            Listing::Articles(Filter::Unread) => "read = false AND "@,
            Listing::Articles(Filter::Favorite) => "favorited = true AND "@,
            Listing::Articles(Filter::Read) => "read = true AND "@,
        }
    }

    /// The token to ask the first page with: one that stands above the keys the listing
    /// is ordered by, identifiers for the feeds and timestamps for the articles.
    pub open spec fn first_text(self) -> Seq<char> {
        match self {
            Listing::Feeds => MAX_ID@,
            Listing::Articles(_) => MAX_DATE@,
        }
    }

    /// The request for the rows below the token `$1`: nearest first, one more than a page
    /// holds.
    pub open spec fn next_text(self) -> Seq<char> {
        "SELECT * FROM "@ + self.table() + " WHERE "@ + self.condition()
            + self.spec_field().column() + " < $1 ORDER BY "@ + self.spec_field().column() + " "@
            + Direction::Descending.keyword() + " LIMIT "@ + decimal(LIMIT_UPPER_BOUND as nat)
    }

    /// The request for the rows above the token `$1`: the nearest ones, one more than a
    /// page holds, handed back farthest first.
    pub open spec fn prev_text(self) -> Seq<char> {
        "SELECT * FROM ( SELECT * FROM "@ + self.table() + " WHERE "@ + self.condition()
            + self.spec_field().column() + " > $1 ORDER BY "@ + self.spec_field().column() + " "@
            + Direction::Ascending.keyword() + " LIMIT "@ + decimal(LIMIT_UPPER_BOUND as nat)
            + " ) AS data ORDER BY "@ + self.spec_field().column() + " "@
            + Direction::Descending.keyword()
    }

    /// The column the listing is ordered and paginated by.
    #[verifier::when_used_as_spec(spec_field)]
    pub fn field(self) -> (f: PaginationField)
        ensures
            f == self.spec_field(),
    {
        match self {
            Listing::Feeds => PaginationField::Id,
            Listing::Articles(Filter::Unread) => PaginationField::Published,
            Listing::Articles(Filter::Favorite) => PaginationField::Published,
            Listing::Articles(Filter::Read) => PaginationField::ReadDate,
        }
    }

    /// The token to ask the first page with.
    pub fn first_token(self) -> (token: &'static str)
        ensures
            token@ == self.first_text(),
    {
        match self {
            Listing::Feeds => MAX_ID,
            Listing::Articles(_) => MAX_DATE,
        }
    }

    fn table_name(self) -> (s: &'static str)
        ensures
            s@ == self.table(),
    {
        match self {
            Listing::Feeds => "feeds",
            Listing::Articles(_) => "articles",
        }
    }

    fn condition_text(self) -> (s: &'static str)
        ensures
            s@ == self.condition(),
    {
        match self {
            Listing::Feeds => "",
            Listing::Articles(Filter::Unread) => "read = false AND ",
            Listing::Articles(Filter::Favorite) => "favorited = true AND ",
            Listing::Articles(Filter::Read) => "read = true AND ",
        }
    }

    /// The text of the forward request. The token is its only parameter.
    pub fn next_query(self) -> (text: String)
        ensures
            text@ == self.next_text(),
    {
        let column = self.field().column_name();
        let mut text = String::from_str("SELECT * FROM ");
        text.append(self.table_name());
        text.append(" WHERE ");
        text.append(self.condition_text());
        text.append(column);
        text.append(" < $1 ORDER BY ");
        text.append(column);
        text.append(" ");
        text.append(Direction::Descending.to_string().as_str());
        text.append(" LIMIT ");
        text.append(to_decimal(LIMIT_UPPER_BOUND).as_str());
        text
    }

    /// The text of the backward request. The token is its only parameter.
    pub fn prev_query(self) -> (text: String)
        ensures
            text@ == self.prev_text(),
    {
        let column = self.field().column_name();
        let mut text = String::from_str("SELECT * FROM ( SELECT * FROM ");
        text.append(self.table_name());
        text.append(" WHERE ");
        text.append(self.condition_text());
        text.append(column);
        text.append(" > $1 ORDER BY ");
        text.append(column);
        text.append(" ");
        text.append(Direction::Ascending.to_string().as_str());
        text.append(" LIMIT ");
        text.append(to_decimal(LIMIT_UPPER_BOUND).as_str());
        text.append(" ) AS data ORDER BY ");
        text.append(column);
        text.append(" ");
        text.append(Direction::Descending.to_string().as_str());
        text
    }

    /// Assembles the page requested with token `pagination` from the answers to the two
    /// requests, or says why they admit none.
    pub fn page(
        self,
        next: Vec<Row>,
        prev: Vec<Row>,
        pagination: String,
    ) -> (made: Result<Page, PageError>)
        ensures
            match made {
                Ok(page) => {
                    &&& Page::admits(
                        views(next@),
                        views(prev@),
                        self.field().index() as int,
                    ).is_ok()
                    &&& page@ == page_of(
                        views(next@),
                        views(prev@),
                        pagination@,
                        self.field().index() as int,
                    )
                    &&& page.items@ == trimmed(next@)
                    &&& page.cursor.curr == pagination
                    &&& page.wf()
                },
                Err(e) => Page::admits(views(next@), views(prev@), self.field().index() as int)
                    == Err::<(), PageError>(e),
            },
    {
        Page::try_new(next, prev, pagination, self.field())
    }
}

} // verus!
