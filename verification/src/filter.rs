//! Which articles a listing shows.

use vstd::prelude::*;
use vstd::string::*;

verus! {

/// The predicate of an article listing.
#[derive(Clone, Copy, Debug, PartialEq, Eq, Structural)]
pub enum Filter {
    Unread,
    Favorite,
    Read,
}

/// A selector that names no filter.
#[derive(Clone, Debug, PartialEq, Eq)]
pub struct BadFilter {
    /// The selector as it was given.
    pub given: String,
}

impl BadFilter {
    /// What to tell the caller.
    pub fn message(&self) -> (text: String)
        ensures
            text@ == "bad filter type: "@ + self.given@,
    {
        String::from_str("bad filter type: ").concat(self.given.as_str())
    }
}

impl Filter {
    /// The selector that names this filter.
    pub open spec fn name(self) -> Seq<char> {
        match self {
            Filter::Read => "read"@,
            Filter::Favorite => "favorite"@,
            Filter::Unread => "unread"@,
        }
    }

    /// The filter that a selector names, if it names one.
    pub open spec fn named(s: Seq<char>) -> Option<Filter> {
        if s == "unread"@ {
            Some(Filter::Unread)
        } else if s == "favorite"@ {
            Some(Filter::Favorite)
        } else if s == "read"@ {
            Some(Filter::Read)
        } else {
            None
        }
    }

    /// The selector that names this filter.
    pub fn to_string(&self) -> (s: String)
        ensures
            s@ == self.name(),
    {
        match self {
            Filter::Read => String::from_str("read"),
            Filter::Favorite => String::from_str("favorite"),
            Filter::Unread => String::from_str("unread"),
        }
    }

    /// Reads a selector. Anything but the three selectors is rejected and handed back in
    /// the error.
    pub fn from_str(s: &str) -> (parsed: Result<Filter, BadFilter>)
        ensures
            match parsed {
                Ok(filter) => Filter::named(s@) == Some(filter),
                Err(e) => Filter::named(s@).is_none() && e.given@ == s@,
            },
    {
        let given = String::from_str(s);
        if given == String::from_str("unread") {
            Ok(Filter::Unread)
        } else if given == String::from_str("favorite") {
            Ok(Filter::Favorite)
        } else if given == String::from_str("read") {
            Ok(Filter::Read)
        } else {
            Err(BadFilter { given })
        }
    }
}

/// Every filter is read back from its own selector.
pub proof fn law_filter_name_round_trip(filter: Filter)
    ensures
        Filter::named(filter.name()) == Some(filter),
{
    reveal_strlit("unread");
    reveal_strlit("favorite");
    reveal_strlit("read");
    assert("favorite"@.len() == 8);
    assert("unread"@.len() == 6);
    assert("read"@.len() == 4);
}

/// A selector names no filter but the one whose selector it is.
pub proof fn law_filter_named_by_its_name(s: Seq<char>)
    ensures
        match Filter::named(s) {
            Some(filter) => filter.name() == s,
            None => forall|filter: Filter| filter.name() != s,
        },
{
    if Filter::named(s).is_none() {
        assert forall|filter: Filter| filter.name() != s by {
            match filter {
                Filter::Unread => {},
                Filter::Favorite => {},
                Filter::Read => {},
            }
        }
    }
}

} // verus!
