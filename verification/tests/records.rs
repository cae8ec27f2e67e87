use feedreader::article::{Article, Entry};
use feedreader::feed::Feed;
use feedreader::row::{Row, Value};
use feedreader::timestamp::converted_or_given;

fn text(s: &str) -> Value {
    Value::Text(s.to_string())
}

fn feed_row() -> Row {
    Row::new(vec![
        text("aHR0cHM6Ly9leGFtcGxlLmNvbS9mZWVkLnhtbA=="),
        text("Example"),
        text("https://example.com"),
        text("https://example.com/feed.xml"),
        text("2024-01-02T03:04:05.678Z"),
        text("-1"),
    ])
}

fn article_row() -> Row {
    Row::new(vec![
        text("YWJj"),
        text("Example"),
        text("A title"),
        text("abc"),
        text("An author"),
        text("2024-03-05T10:00:00Z"),
        Value::Flag(true),
        Value::Flag(false),
        text("2024-03-06T23:59:59.123+02:00"),
    ])
}

fn is_rfc3339_with_millis(stamp: &str) -> bool {
    let parsed = chrono::DateTime::parse_from_rfc3339(stamp);
    let bytes = stamp.as_bytes();
    parsed.is_ok() && stamp.len() == 24 && bytes[19] == b'.' && bytes[23] == b'Z'
}

#[test]
fn row_knows_its_columns() {
    let row = article_row();
    assert_eq!(row.len(), 9);
    assert!(row.has_text(0));
    assert!(!row.has_text(6));
    assert!(!row.has_text(9));
    assert!(row.has_flag(6));
    assert!(!row.has_flag(5));
    assert!(!row.has_flag(9));
    assert_eq!(row.get_text(2), "A title");
    assert!(row.get_flag(6));
    assert!(!row.get_flag(7));
    assert_eq!(Row::new(Vec::new()).len(), 0);
}

#[test]
fn new_feed_is_known_by_its_encoded_address() {
    let feed = Feed::new(
        "Example".to_string(),
        "https://example.com".to_string(),
        "https://example.com/feed.xml".to_string(),
    );
    assert_eq!(feed.id, "aHR0cHM6Ly9leGFtcGxlLmNvbS9mZWVkLnhtbA==");
    assert_eq!(feed.name, "Example");
    assert_eq!(feed.site_url, "https://example.com");
    assert_eq!(feed.feed_url, "https://example.com/feed.xml");
    assert_eq!(feed.last_updated, "-1");
    assert!(is_rfc3339_with_millis(&feed.date_added));
}

#[test]
fn feed_added_at_keeps_what_it_is_given() {
    let feed = Feed::added_at(
        "id".to_string(),
        "name".to_string(),
        "site".to_string(),
        "address".to_string(),
        "2024-01-02T03:04:05.678Z".to_string(),
    );
    assert_eq!(
        feed,
        Feed {
            id: "id".to_string(),
            name: "name".to_string(),
            site_url: "site".to_string(),
            feed_url: "address".to_string(),
            date_added: "2024-01-02T03:04:05.678Z".to_string(),
            last_updated: "-1".to_string(),
        }
    );
}

#[test]
fn feed_is_read_from_a_row() {
    let expected = Feed {
        id: "aHR0cHM6Ly9leGFtcGxlLmNvbS9mZWVkLnhtbA==".to_string(),
        name: "Example".to_string(),
        site_url: "https://example.com".to_string(),
        feed_url: "https://example.com/feed.xml".to_string(),
        date_added: "2024-01-02T03:04:05.678Z".to_string(),
        last_updated: "-1".to_string(),
    };
    assert_eq!(Feed::from_row(&feed_row()), expected);
    assert_eq!(Feed::try_from_row(&feed_row()), Some(expected));
}

#[test]
fn feed_is_not_read_from_other_rows() {
    let mut short = feed_row();
    short.values.pop();
    assert_eq!(Feed::try_from_row(&short), None);
    let mut flagged = feed_row();
    flagged.values[2] = Value::Flag(true);
    assert_eq!(Feed::try_from_row(&flagged), None);
    assert_eq!(Feed::try_from_row(&Row::new(Vec::new())), None);
}

#[test]
fn timestamp_is_rfc3339_with_milliseconds() {
    assert!(is_rfc3339_with_millis(&Article::rfc3339_timestamp()));
}

#[test]
fn timestamp_is_shown_as_a_date() {
    assert_eq!(
        Article::rfc3339_timestamp_to_human("2024-03-05T10:00:00Z".to_string()),
        "03/05/2024"
    );
    assert_eq!(
        Article::rfc3339_timestamp_to_human("1999-12-31T23:59:59.999+02:00".to_string()),
        "12/31/1999"
    );
}

#[test]
fn other_text_is_shown_as_it_stands() {
    for given in ["-1", "", "yesterday", "2024-03-05", "Tue, 1 Jul 2003 10:52:37 +0200"] {
        assert_eq!(Article::rfc3339_timestamp_to_human(given.to_string()), given);
    }
}

#[test]
fn converted_text_is_kept_where_there_is_one() {
    assert_eq!(converted_or_given(Some("new".to_string()), "old".to_string()), "new");
    assert_eq!(converted_or_given(None, "old".to_string()), "old");
}

#[test]
fn new_article_is_known_by_its_encoded_link() {
    let article = Article::new(
        "A title".to_string(),
        "https://example.com/a?b>".to_string(),
        "An author".to_string(),
        "2024-03-05T10:00:00.000Z".to_string(),
        false,
        true,
    );
    assert_eq!(
        article,
        Article {
            id: "aHR0cHM6Ly9leGFtcGxlLmNvbS9hP2I-".to_string(),
            feed: String::new(),
            title: "A title".to_string(),
            link: "https://example.com/a?b>".to_string(),
            author: "An author".to_string(),
            published: "2024-03-05T10:00:00.000Z".to_string(),
            read: false,
            favorited: true,
            read_date: "-1".to_string(),
        }
    );
}

#[test]
fn article_ids_use_the_url_safe_alphabet_with_padding() {
    let id = |link: &str| {
        Article::new(String::new(), link.to_string(), String::new(), String::new(), false, false).id
    };
    assert_eq!(id("??>"), "Pz8-");
    assert_eq!(id("???"), "Pz8_");
    assert_eq!(id("a"), "YQ==");
    assert_eq!(id("ab"), "YWI=");
    assert_eq!(id("abc"), "YWJj");
    assert_eq!(id(""), "");
}

#[test]
fn rfc2822_dates_are_stored_as_rfc3339() {
    let published = |given: &str| {
        Article::new(String::new(), String::new(), String::new(), given.to_string(), false, false)
            .published
    };
    assert_eq!(published("Tue, 1 Jul 2003 10:52:37 +0200"), "2003-07-01T10:52:37+02:00");
    assert_eq!(published("Wed, 18 Feb 2015 23:16:09 GMT"), "2015-02-18T23:16:09Z");
}

#[test]
fn other_dates_are_stored_as_given() {
    let published = |given: &str| {
        Article::new(String::new(), String::new(), String::new(), given.to_string(), false, false)
            .published
    };
    for given in ["", "2024-03-05T10:00:00.000Z", "last week"] {
        assert_eq!(published(given), given);
    }
}

#[test]
fn article_with_id_prefers_the_converted_date() {
    let make = |converted: Option<String>| {
        Article::with_id(
            "id".to_string(),
            "title".to_string(),
            "link".to_string(),
            "author".to_string(),
            "given".to_string(),
            converted,
            true,
            false,
        )
    };
    let expected = |published: &str| Article {
        id: "id".to_string(),
        feed: String::new(),
        title: "title".to_string(),
        link: "link".to_string(),
        author: "author".to_string(),
        published: published.to_string(),
        read: true,
        favorited: false,
        read_date: "-1".to_string(),
    };
    assert_eq!(make(Some("converted".to_string())), expected("converted"));
    assert_eq!(make(None), expected("given"));
}

#[test]
fn read_date_after_toggle() {
    let mut article = Article::from_row(&article_row());
    assert!(article.read);
    assert_eq!(article.read_date_after_toggle("now".to_string()), "-1");
    article.read = false;
    assert_eq!(article.read_date_after_toggle("now".to_string()), "now");
}

#[test]
fn article_is_read_from_a_row() {
    let expected = Article {
        id: "YWJj".to_string(),
        feed: "Example".to_string(),
        title: "A title".to_string(),
        link: "abc".to_string(),
        author: "An author".to_string(),
        published: "03/05/2024".to_string(),
        read: true,
        favorited: false,
        read_date: "03/06/2024".to_string(),
    };
    assert_eq!(Article::from_row(&article_row()), expected);
    assert_eq!(Article::try_from_row(&article_row()), Some(expected));
}

#[test]
fn unread_article_keeps_its_placeholder_read_date() {
    let mut row = article_row();
    row.values[8] = text("-1");
    assert_eq!(Article::from_row(&row).read_date, "-1");
}

#[test]
fn article_is_not_read_from_other_rows() {
    let mut short = article_row();
    short.values.pop();
    assert_eq!(Article::try_from_row(&short), None);
    for (column, value) in [
        (0, Value::Flag(true)),
        (5, Value::Flag(true)),
        (6, text("true")),
        (7, text("false")),
        (8, Value::Flag(false)),
    ] {
        let mut row = article_row();
        row.values[column] = value;
        assert_eq!(Article::try_from_row(&row), None);
    }
    assert_eq!(Article::try_from_row(&feed_row()), None);
}

#[test]
fn article_is_made_from_an_entry() {
    let entry = Entry {
        title: Some("A title".to_string()),
        links: vec!["abc".to_string(), "https://example.com/other".to_string()],
        authors: vec!["First".to_string(), "Second".to_string()],
        published: Some("2024-03-05T10:00:00.000Z".to_string()),
        updated: Some("2024-03-06T10:00:00.000Z".to_string()),
    };
    assert_eq!(
        Article::from_entry(&entry),
        Article {
            id: "YWJj".to_string(),
            feed: String::new(),
            title: "A title".to_string(),
            link: "abc".to_string(),
            author: "First".to_string(),
            published: "2024-03-05T10:00:00.000Z".to_string(),
            read: false,
            favorited: false,
            read_date: "-1".to_string(),
        }
    );
}

#[test]
fn entry_without_publication_date_uses_its_update() {
    let entry = Entry {
        title: None,
        links: Vec::new(),
        authors: Vec::new(),
        published: None,
        updated: Some("2024-03-06T10:00:00.000Z".to_string()),
    };
    assert_eq!(Article::from_entry(&entry).published, "2024-03-06T10:00:00.000Z");
}

#[test]
fn empty_entry_gives_an_empty_article() {
    let entry =
        Entry { title: None, links: Vec::new(), authors: Vec::new(), published: None, updated: None };
    assert_eq!(
        Article::from_entry(&entry),
        Article {
            id: String::new(),
            feed: String::new(),
            title: String::new(),
            link: String::new(),
            author: String::new(),
            published: String::new(),
            read: false,
            favorited: false,
            read_date: "-1".to_string(),
        }
    );
}

#[test]
fn entry_date_in_rfc2822_is_stored_as_rfc3339() {
    let entry = Entry {
        title: None,
        links: Vec::new(),
        authors: Vec::new(),
        published: Some("Wed, 18 Feb 2015 23:16:09 GMT".to_string()),
        updated: None,
    };
    assert_eq!(Article::from_entry(&entry).published, "2015-02-18T23:16:09Z");
}

fn entry(title: &str, link: &str) -> Entry {
    Entry {
        title: Some(title.to_string()),
        links: vec![link.to_string()],
        authors: Vec::new(),
        published: None,
        updated: None,
    }
}

#[test]
fn articles_are_made_from_entries_in_order() {
    let entries = vec![entry("one", "a"), entry("two", "ab"), entry("three", "abc")];
    let articles = Article::from_entries(&entries, "Example");
    assert_eq!(articles.len(), 3);
    for (article, entry) in articles.iter().zip(entries.iter()) {
        let mut expected = Article::from_entry(entry);
        expected.feed = "Example".to_string();
        assert_eq!(*article, expected);
    }
    let ids: Vec<&str> = articles.iter().map(|a| a.id.as_str()).collect();
    assert_eq!(ids, vec!["YQ==", "YWI=", "YWJj"]);
    assert!(Article::from_entries(&Vec::new(), "Example").is_empty());
}

#[test]
fn what_was_found_in_a_feed_becomes_its_articles() {
    assert_eq!(Article::from_parsed(None, "Example"), None);
    assert_eq!(Article::from_parsed(Some(Vec::new()), "Example"), Some(Vec::new()));
    let entries = vec![entry("one", "a"), entry("two", "ab")];
    assert_eq!(
        Article::from_parsed(Some(entries.clone()), "Example"),
        Some(Article::from_entries(&entries, "Example"))
    );
}

#[test]
fn new_feeds_sort_below_the_first_token_of_feeds() {
    let first = feedreader::query::Listing::Feeds.first_token();
    for address in ["https://example.com/feed.xml", "zzzz", "~~~~", "", "\u{10ffff}", "a", "ab"] {
        let feed = Feed::new(String::new(), String::new(), address.to_string());
        assert!(feed.id.as_str() < first);
        assert!(feed
            .id
            .chars()
            .all(|c| c.is_ascii_alphanumeric() || c == '-' || c == '_' || c == '='));
    }
}
