//! Keyset pagination for a feed reader.
//!
//! A listing is read page by page. Each request names a position token; the store is
//! asked for the rows below the token and for the rows above it, and from the two answers
//! [`Page::new`] cuts the page and builds the [`Cursor`] that leads to its neighbours.
//! [`store`] says what the answers are, and [`laws`] proves what follows for the pages.

pub mod article;
pub mod cursor;
pub mod encoding;
pub mod feed;
pub mod field;
pub mod filter;
pub mod laws;
pub mod page;
pub mod query;
pub mod row;
pub mod store;
pub mod timestamp;
pub mod token;

pub use article::{Article, Entry};
pub use cursor::{Cursor, LIMIT, LIMIT_UPPER_BOUND, MAX_DATE};
pub use encoding::MAX_ID;
pub use feed::Feed;
pub use field::PaginationField;
pub use filter::{BadFilter, Filter};
pub use page::{Page, PageError};
pub use query::{Direction, Listing};
pub use row::{Row, Value};
