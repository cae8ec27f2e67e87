use feedreader::field::PaginationField;
use feedreader::filter::{BadFilter, Filter};
use feedreader::query::{to_decimal, Direction, Listing};

#[test]
fn filter_names() {
    assert_eq!(Filter::Read.to_string(), "read");
    assert_eq!(Filter::Favorite.to_string(), "favorite");
    assert_eq!(Filter::Unread.to_string(), "unread");
}

#[test]
fn filter_is_read_from_its_name() {
    assert_eq!(Filter::from_str("unread"), Ok(Filter::Unread));
    assert_eq!(Filter::from_str("favorite"), Ok(Filter::Favorite));
    assert_eq!(Filter::from_str("read"), Ok(Filter::Read));
}

#[test]
fn filter_round_trips_through_its_name() {
    for filter in [Filter::Unread, Filter::Favorite, Filter::Read] {
        assert_eq!(Filter::from_str(&filter.to_string()), Ok(filter));
    }
}

#[test]
fn filter_rejects_other_selectors() {
    for given in ["", "Unread", "unread ", "favorited", "all", "reads"] {
        assert_eq!(Filter::from_str(given), Err(BadFilter { given: given.to_string() }));
    }
}

#[test]
fn bad_filter_message_names_the_selector() {
    let error = Filter::from_str("starred").unwrap_err();
    assert_eq!(error.given, "starred");
    assert_eq!(error.message(), "bad filter type: starred");
    assert_eq!(BadFilter { given: String::new() }.message(), "bad filter type: ");
}

#[test]
fn direction_keywords() {
    assert_eq!(Direction::Ascending.to_string(), "ASC");
    assert_eq!(Direction::Descending.to_string(), "DESC");
}

#[test]
fn pagination_field_positions() {
    assert_eq!(PaginationField::Id.index(), 0);
    assert_eq!(PaginationField::Published.index(), 5);
    assert_eq!(PaginationField::ReadDate.index(), 8);
}

#[test]
fn pagination_field_columns() {
    assert_eq!(PaginationField::Id.column_name(), "id");
    assert_eq!(PaginationField::Published.column_name(), "published");
    assert_eq!(PaginationField::ReadDate.column_name(), "read_date");
}

#[test]
fn listing_fields() {
    assert_eq!(Listing::Feeds.field(), PaginationField::Id);
    assert_eq!(Listing::Articles(Filter::Unread).field(), PaginationField::Published);
    assert_eq!(Listing::Articles(Filter::Favorite).field(), PaginationField::Published);
    assert_eq!(Listing::Articles(Filter::Read).field(), PaginationField::ReadDate);
}

#[test]
fn decimal_numerals() {
    assert_eq!(to_decimal(0), "0");
    assert_eq!(to_decimal(5), "5");
    assert_eq!(to_decimal(9), "9");
    assert_eq!(to_decimal(10), "10");
    assert_eq!(to_decimal(4096), "4096");
    assert_eq!(to_decimal(1234567890), "1234567890");
    assert_eq!(to_decimal(usize::MAX), usize::MAX.to_string());
}

#[test]
fn forward_request_of_unread_articles() {
    assert_eq!(
        Listing::Articles(Filter::Unread).next_query(),
        "SELECT * FROM articles WHERE read = false AND published < $1 ORDER BY published DESC LIMIT 5"
    );
}

#[test]
fn backward_request_of_unread_articles() {
    assert_eq!(
        Listing::Articles(Filter::Unread).prev_query(),
        "SELECT * FROM ( SELECT * FROM articles WHERE read = false AND published > $1 ORDER BY published ASC LIMIT 5 ) AS data ORDER BY published DESC"
    );
}

#[test]
fn forward_request_of_read_articles() {
    assert_eq!(
        Listing::Articles(Filter::Read).next_query(),
        "SELECT * FROM articles WHERE read = true AND read_date < $1 ORDER BY read_date DESC LIMIT 5"
    );
}

#[test]
fn backward_request_of_read_articles() {
    assert_eq!(
        Listing::Articles(Filter::Read).prev_query(),
        "SELECT * FROM ( SELECT * FROM articles WHERE read = true AND read_date > $1 ORDER BY read_date ASC LIMIT 5 ) AS data ORDER BY read_date DESC"
    );
}

#[test]
fn forward_request_of_favorited_articles() {
    assert_eq!(
        Listing::Articles(Filter::Favorite).next_query(),
        "SELECT * FROM articles WHERE favorited = true AND published < $1 ORDER BY published DESC LIMIT 5"
    );
}

#[test]
fn backward_request_of_favorited_articles() {
    assert_eq!(
        Listing::Articles(Filter::Favorite).prev_query(),
        "SELECT * FROM ( SELECT * FROM articles WHERE favorited = true AND published > $1 ORDER BY published ASC LIMIT 5 ) AS data ORDER BY published DESC"
    );
}

#[test]
fn forward_request_of_feeds() {
    assert_eq!(
        Listing::Feeds.next_query(),
        "SELECT * FROM feeds WHERE id < $1 ORDER BY id DESC LIMIT 5"
    );
}

#[test]
fn backward_request_of_feeds() {
    assert_eq!(
        Listing::Feeds.prev_query(),
        "SELECT * FROM ( SELECT * FROM feeds WHERE id > $1 ORDER BY id ASC LIMIT 5 ) AS data ORDER BY id DESC"
    );
}

#[test]
fn first_tokens() {
    assert_eq!(Listing::Feeds.first_token(), "~");
    assert_eq!(Listing::Feeds.first_token(), feedreader::MAX_ID);
    for filter in [Filter::Unread, Filter::Favorite, Filter::Read] {
        assert_eq!(Listing::Articles(filter).first_token(), "9999-12-31");
    }
}

#[test]
fn timestamps_and_the_missing_date_sort_below_the_first_token_of_articles() {
    let first = Listing::Articles(Filter::Read).first_token();
    for key in ["-1", "0000-01-01T00:00:00Z", "2024-03-05T10:00:00.000Z", "9998-12-31T23:59:59Z"] {
        assert!(key < first);
    }
}
