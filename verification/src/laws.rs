//! What holds of the pages cut from a store's answers.
//!
//! Every statement is about [`fetched_page`]: the page that [`crate::page::Page::new`]
//! makes of the answers that [`crate::store`] describes.

use vstd::prelude::*;
use crate::cursor::{sort_key, LIMIT, LIMIT_UPPER_BOUND, MAX_DATE};
use crate::encoding::{law_id_sorts_below_max_id, url_safe_text};
use crate::field::PaginationField;
use crate::page::{page_of, Page};
use crate::query::Listing;
use crate::row::{text_at, RowView};
use crate::store::{
    backward_rows, below_sentinel, descending, fetched_page, forward_rows, is_above, is_below,
    all_below, keyed, lemma_filter_keeps_keys, lemma_nothing_above, lemma_rows_above_is_head,
    lemma_rows_below_is_tail, lemma_strictly_descending_is_descending, lemma_token_sees_all,
    none_above_sentinel, rows_above, rows_below, strictly_descending,
};
use crate::token::{
    at_most, lemma_precedes_irreflexive, lemma_precedes_then_at_most, lemma_precedes_transitive,
    precedes,
};

verus! {

/// A page can be made of what the store answers: where every row of the listing holds
/// text in the ordering column, the two answers are admitted by [`Page::new`].
pub proof fn law_answers_admit_a_page(table: Seq<RowView>, index: int, token: Seq<char>)
    requires
        keyed(table, index),
    ensures
        Page::admits(
            forward_rows(table, index, token),
            backward_rows(table, index, token),
            index,
        ).is_ok(),
{
    lemma_filter_keeps_keys(table, index, is_below(index, token));
    lemma_filter_keeps_keys(table, index, is_above(index, token));
    let below = rows_below(table, index, token);
    let above = rows_above(table, index, token);
    let forward = forward_rows(table, index, token);
    let backward = backward_rows(table, index, token);
    assert(forall|i: int| 0 <= i < forward.len() ==> forward[i] == below[i]);
    assert(forall|i: int|
        0 <= i < backward.len() ==> backward[i] == above[above.len() - backward.len() + i]);
    if forward.len() == LIMIT_UPPER_BOUND {
        assert(text_at(forward[forward.len() - 2], index).is_some());
    }
    if 0 < forward.len() {
        assert(text_at(forward[forward.len() - 1], index).is_some());
    }
    if backward.len() == LIMIT_UPPER_BOUND {
        assert(text_at(backward[1], index).is_some());
    }
}

/// Both answers hold at most `LIMIT_UPPER_BOUND` rows, in descending order.
pub proof fn law_answers_within_limit(table: Seq<RowView>, index: int, token: Seq<char>)
    requires
        descending(table, index),
    ensures
        forward_rows(table, index, token).len() <= LIMIT_UPPER_BOUND,
        backward_rows(table, index, token).len() <= LIMIT_UPPER_BOUND,
        descending(forward_rows(table, index, token), index),
        descending(backward_rows(table, index, token), index),
{
    let p = lemma_rows_below_is_tail(table, index, token);
    let q = lemma_rows_above_is_head(table, index, token);
    let forward = forward_rows(table, index, token);
    let backward = backward_rows(table, index, token);
    assert forall|i: int, j: int| 0 <= i < j < forward.len() implies at_most(
        sort_key(#[trigger] forward[j], index),
        sort_key(#[trigger] forward[i], index),
    ) by {
        assert(forward[i] == table[p + i] && forward[j] == table[p + j]);
    }
    let start = q - backward.len();
    assert forall|i: int, j: int| 0 <= i < j < backward.len() implies at_most(
        sort_key(#[trigger] backward[j], index),
        sort_key(#[trigger] backward[i], index),
    ) by {
        assert(backward[i] == table[start + i] && backward[j] == table[start + j]);
    }
}

/// Cutting a page out of rows that descend leaves rows that descend.
pub proof fn law_page_keeps_order(
    next: Seq<RowView>,
    prev: Seq<RowView>,
    curr: Seq<char>,
    index: int,
)
    requires
        descending(next, index),
    ensures
        descending(page_of(next, prev, curr, index).items, index),
{
    let items = page_of(next, prev, curr, index).items;
    assert forall|i: int, j: int| 0 <= i < j < items.len() implies at_most(
        sort_key(#[trigger] items[j], index),
        sort_key(#[trigger] items[i], index),
    ) by {
        assert(items[i] == next[i] && items[j] == next[j]);
    }
}

/// A page holds at most `LIMIT` rows, in descending order, and every one of them sorts
/// below the token asked with.
pub proof fn law_page_within_limit(table: Seq<RowView>, index: int, token: Seq<char>)
    requires
        descending(table, index),
    ensures
        fetched_page(table, index, token).items.len() <= LIMIT,
        descending(fetched_page(table, index, token).items, index),
        forall|i: int|
            0 <= i < fetched_page(table, index, token).items.len() ==> precedes(
                sort_key(#[trigger] fetched_page(table, index, token).items[i], index),
                token,
            ),
{
    let p = lemma_rows_below_is_tail(table, index, token);
    let items = fetched_page(table, index, token).items;
    assert forall|i: int, j: int| 0 <= i < j < items.len() implies at_most(
        sort_key(#[trigger] items[j], index),
        sort_key(#[trigger] items[i], index),
    ) by {
        assert(items[i] == table[p + i] && items[j] == table[p + j]);
    }
    assert forall|i: int| 0 <= i < items.len() implies precedes(
        sort_key(#[trigger] items[i], index),
        token,
    ) by {
        assert(items[i] == table[p + i]);
    }
}

/// The token that leads on from a page is the key of the last row on it.
pub proof fn law_next_token_is_last_key(
    next: Seq<RowView>,
    prev: Seq<RowView>,
    curr: Seq<char>,
    index: int,
)
    requires
        next.len() <= LIMIT_UPPER_BOUND,
    ensures
        ({
            let page = page_of(next, prev, curr, index);
            page.items.len() > 0 ==> page.cursor.next == sort_key(page.items.last(), index)
        }),
{
}

/// A page says that another follows exactly when the forward request came back full, which
/// it does exactly when more than `LIMIT` rows lie below the token.
pub proof fn law_has_next_iff_full(table: Seq<RowView>, index: int, token: Seq<char>)
    ensures
        fetched_page(table, index, token).cursor.has_next <==> forward_rows(
            table,
            index,
            token,
        ).len() == LIMIT_UPPER_BOUND,
        fetched_page(table, index, token).cursor.has_next <==> rows_below(
            table,
            index,
            token,
        ).len() > LIMIT,
        fetched_page(table, index, token).cursor.has_prev <==> backward_rows(
            table,
            index,
            token,
        ).len() > 0,
{
}

/// Following `next` never shows a row twice: every row of the following page sorts
/// strictly below every row of the page before it.
pub proof fn law_next_page_is_new(table: Seq<RowView>, index: int, token: Seq<char>)
    requires
        descending(table, index),
    ensures
        ({
            let first = fetched_page(table, index, token);
            let second = fetched_page(table, index, first.cursor.next);
            forall|i: int, j: int|
                0 <= i < first.items.len() && 0 <= j < second.items.len() ==> precedes(
                    sort_key(#[trigger] second.items[j], index),
                    sort_key(#[trigger] first.items[i], index),
                ) && second.items[j] != first.items[i]
        }),
{
    let first = fetched_page(table, index, token);
    let second = fetched_page(table, index, first.cursor.next);
    law_page_within_limit(table, index, token);
    assert forall|i: int, j: int|
        0 <= i < first.items.len() && 0 <= j < second.items.len() implies precedes(
        sort_key(#[trigger] second.items[j], index),
        sort_key(#[trigger] first.items[i], index),
    ) && second.items[j] != first.items[i] by {
        let last = first.items.last();
        let below = rows_below(table, index, first.cursor.next);
        assert(second.items[j] == below[j]);
        table.lemma_filter_pred(is_below(index, first.cursor.next), j);
        assert(precedes(sort_key(second.items[j], index), sort_key(last, index)));
        if i < first.items.len() - 1 {
            assert(at_most(
                sort_key(first.items[first.items.len() - 1], index),
                sort_key(first.items[i], index),
            ));
        } else {
            lemma_precedes_irreflexive(sort_key(last, index));
        }
        lemma_precedes_then_at_most(
            sort_key(second.items[j], index),
            sort_key(last, index),
            sort_key(first.items[i], index),
        );
        lemma_precedes_irreflexive(sort_key(first.items[i], index));
    }
}

/// The page does not end between two rows of one key: the row that follows the last row
/// of the page, if any, sorts strictly below it.
pub open spec fn page_ends_cleanly(table: Seq<RowView>, index: int, token: Seq<char>) -> bool {
    let below = rows_below(table, index, token);
    below.len() > LIMIT ==> precedes(
        sort_key(below[LIMIT as int], index),
        sort_key(below[LIMIT - 1], index),
    )
}

/// Following `next` skips nothing where the page ends cleanly: the rows below a token are
/// the rows of its page, followed by the rows below the page's `next` token.
pub proof fn law_next_page_continues(table: Seq<RowView>, index: int, token: Seq<char>)
    requires
        descending(table, index),
        page_ends_cleanly(table, index, token),
    ensures
        ({
            let first = fetched_page(table, index, token);
            rows_below(table, index, token) == first.items + rows_below(
                table,
                index,
                first.cursor.next,
            )
        }),
{
    let first = fetched_page(table, index, token);
    let next = first.cursor.next;
    let p = lemma_rows_below_is_tail(table, index, token);
    let q = lemma_rows_below_is_tail(table, index, next);
    let k = first.items.len() as int;
    let below = rows_below(table, index, token);
    if k == 0 {
        assert(p == table.len());
        if q < table.len() {
            assert(precedes(sort_key(table[q], index), next));
        }
    } else {
        assert(first.items.last() == table[p + k - 1]);
        lemma_precedes_irreflexive(next);
        if q < p + k {
            assert(precedes(sort_key(table[q], index), next));
            if q < p + k - 1 {
                assert(at_most(sort_key(table[p + k - 1], index), sort_key(table[q], index)));
            }
        }
        if q > p + k {
            assert(at_most(next, sort_key(table[p + k], index)));
            assert(below[LIMIT as int] == table[p + k]);
            assert(below[LIMIT - 1] == table[p + k - 1]);
        }
        assert(q == p + k);
    }
    assert(table.skip(p) =~= first.items + table.skip(q));
}

/// A page of a listing without repeated keys ends cleanly.
pub proof fn law_strict_listing_ends_cleanly(table: Seq<RowView>, index: int, token: Seq<char>)
    requires
        strictly_descending(table, index),
    ensures
        descending(table, index),
        page_ends_cleanly(table, index, token),
{
    lemma_strictly_descending_is_descending(table, index);
    let p = lemma_rows_below_is_tail(table, index, token);
    let below = rows_below(table, index, token);
    if below.len() > LIMIT {
        assert(below[LIMIT as int] == table[p + LIMIT]);
        assert(below[LIMIT - 1] == table[p + LIMIT - 1]);
    }
}

/// Going back from a page reached by `next` shows the page left behind, where a full
/// set of rows lies above the token: the `prev` token then leads to exactly the rows of
/// the page that `next` was taken from.
pub proof fn law_prev_returns_to_page(table: Seq<RowView>, index: int, token: Seq<char>)
    requires
        strictly_descending(table, index),
        fetched_page(table, index, token).cursor.has_next,
        backward_rows(table, index, fetched_page(table, index, token).cursor.next).len()
            == LIMIT_UPPER_BOUND,
    ensures
        ({
            let first = fetched_page(table, index, token);
            let second = fetched_page(table, index, first.cursor.next);
            fetched_page(table, index, second.cursor.prev).items == first.items
        }),
{
    let first = fetched_page(table, index, token);
    let next = first.cursor.next;
    let second = fetched_page(table, index, next);
    let prev = second.cursor.prev;
    lemma_strictly_descending_is_descending(table, index);
    let p = lemma_rows_below_is_tail(table, index, token);
    let q = lemma_rows_above_is_head(table, index, next);
    let r = lemma_rows_below_is_tail(table, index, prev);
    // The page holds rows p .. p + LIMIT, and `next` is the key of its last row.
    assert(first.items.last() == table[p + LIMIT - 1]);
    assert(next == sort_key(table[p + LIMIT - 1], index));
    lemma_precedes_irreflexive(next);
    // The rows above `next` are exactly the rows before that last row.
    if q > p + LIMIT - 1 {
        assert(precedes(next, sort_key(table[p + LIMIT - 1], index)));
    }
    if q < p + LIMIT - 1 {
        assert(at_most(sort_key(table[q], index), next));
        assert(precedes(sort_key(table[p + LIMIT - 1], index), sort_key(table[q], index)));
    }
    assert(q == p + LIMIT - 1);
    // `prev` is the key of the row just before the page.
    let backward = backward_rows(table, index, next);
    assert(backward[1] == table[p - 1]);
    assert(prev == sort_key(table[p - 1], index));
    lemma_precedes_irreflexive(prev);
    // The rows below `prev` therefore start with the page.
    if r > p {
        assert(at_most(prev, sort_key(table[p], index)));
        assert(precedes(sort_key(table[p], index), sort_key(table[p - 1], index)));
    }
    if r < p {
        assert(precedes(sort_key(table[r], index), prev));
        if r < p - 1 {
            assert(precedes(sort_key(table[p - 1], index), sort_key(table[r], index)));
            lemma_precedes_transitive(prev, sort_key(table[r], index), prev);
        }
    }
    assert(r == p);
    assert(fetched_page(table, index, prev).items =~= first.items);
}

/// Going back from the second page shows the first: where nothing precedes a page, the
/// page reached by its `next` token sends back to it.
pub proof fn law_prev_returns_to_first_page(table: Seq<RowView>, index: int)
    requires
        strictly_descending(table, index),
        below_sentinel(table, index),
        fetched_page(table, index, MAX_DATE@).cursor.has_next,
    ensures
        ({
            let first = fetched_page(table, index, MAX_DATE@);
            let second = fetched_page(table, index, first.cursor.next);
            &&& second.cursor.has_prev
            &&& second.cursor.prev == MAX_DATE@
            &&& fetched_page(table, index, second.cursor.prev) == first
        }),
{
    let first = fetched_page(table, index, MAX_DATE@);
    let next = first.cursor.next;
    lemma_strictly_descending_is_descending(table, index);
    lemma_token_sees_all(table, index, MAX_DATE@);
    let q = lemma_rows_above_is_head(table, index, next);
    assert(first.items.last() == table[LIMIT - 1]);
    lemma_precedes_irreflexive(next);
    if q > LIMIT - 1 {
        assert(precedes(next, sort_key(table[LIMIT - 1], index)));
    }
    if q < LIMIT - 1 {
        assert(at_most(sort_key(table[q], index), next));
        assert(precedes(sort_key(table[LIMIT - 1], index), sort_key(table[q], index)));
    }
    assert(q == LIMIT - 1);
}

/// Asking twice gives the same page: while the listing stays as it is, the page is
/// determined by the column and the token asked with.
pub proof fn law_same_request_same_page(
    table_a: Seq<RowView>,
    token_a: Seq<char>,
    table_b: Seq<RowView>,
    token_b: Seq<char>,
    index: int,
)
    requires
        table_a == table_b,
        token_a == token_b,
    ensures
        fetched_page(table_a, index, token_a) == fetched_page(table_b, index, token_b),
{
}

/// Asking with a token above every key gives the first page, the `LIMIT` rows that head
/// the listing, and nothing precedes it.
pub proof fn law_token_above_all_gives_first_page(
    table: Seq<RowView>,
    index: int,
    token: Seq<char>,
)
    requires
        all_below(table, index, token),
    ensures
        ({
            let page = fetched_page(table, index, token);
            &&& !page.cursor.has_prev
            &&& page.items == if table.len() > LIMIT {
                table.take(LIMIT as int)
            } else {
                table
            }
        }),
{
    lemma_token_sees_all(table, index, token);
    let page = fetched_page(table, index, token);
    if table.len() > LIMIT {
        assert(page.items =~= table.take(LIMIT as int));
    }
}

/// Asking with `MAX_DATE` gives the first page, the `LIMIT` rows that head the listing,
/// and nothing precedes it.
pub proof fn law_sentinel_gives_first_page(table: Seq<RowView>, index: int)
    requires
        below_sentinel(table, index),
    ensures
        ({
            let page = fetched_page(table, index, MAX_DATE@);
            &&& !page.cursor.has_prev
            &&& page.items == if table.len() > LIMIT {
                table.take(LIMIT as int)
            } else {
                table
            }
        }),
{
    law_token_above_all_gives_first_page(table, index, MAX_DATE@);
}

/// Asking a listing with its first token gives its first page, where every key sorts
/// below that token.
pub proof fn law_first_token_gives_first_page(table: Seq<RowView>, listing: Listing)
    requires
        all_below(table, listing.field().index() as int, listing.first_text()),
    ensures
        ({
            let page = fetched_page(
                table,
                listing.field().index() as int,
                listing.first_text(),
            );
            &&& !page.cursor.has_prev
            &&& page.items == if table.len() > LIMIT {
                table.take(LIMIT as int)
            } else {
                table
            }
        }),
{
    law_token_above_all_gives_first_page(
        table,
        listing.field().index() as int,
        listing.first_text(),
    );
}

/// The feeds sort below their first token, where each is known by an identifier written
/// in the URL-safe base64 alphabet, as every new feed is.
pub proof fn law_feeds_sort_below_first_token(table: Seq<RowView>)
    requires
        forall|i: int|
            0 <= i < table.len() ==> url_safe_text(
                sort_key(#[trigger] table[i], PaginationField::Id.index() as int),
            ),
    ensures
        all_below(table, Listing::Feeds.field().index() as int, Listing::Feeds.first_text()),
{
    assert forall|i: int| 0 <= i < table.len() implies precedes(
        sort_key(#[trigger] table[i], Listing::Feeds.field().index() as int),
        Listing::Feeds.first_text(),
    ) by {
        law_id_sorts_below_max_id(sort_key(table[i], PaginationField::Id.index() as int));
    }
}

/// A text that opens with a year of four digits before 9999, as timestamps do, or the
/// text `-1` that stands for no date.
pub open spec fn dated_before_max(key: Seq<char>) -> bool {
    ||| key == "-1"@
    ||| {
        &&& key.len() >= 4
        &&& forall|k: int| 0 <= k < 4 ==> '0' <= #[trigger] key[k] <= '9'
        &&& exists|k: int| 0 <= k < 4 && #[trigger] key[k] != '9'
    }
}

/// Every such text sorts below `MAX_DATE`.
pub proof fn law_date_sorts_below_max_date(key: Seq<char>)
    requires
        dated_before_max(key),
    ensures
        precedes(key, MAX_DATE@),
{
    reveal_strlit("9999-12-31");
    reveal_strlit("-1");
    reveal_with_fuel(precedes, 5);
    let max = MAX_DATE@;
    assert(max.len() == 10);
    assert(max[0] == '9' && max[1] == '9' && max[2] == '9' && max[3] == '9');
    if key == "-1"@ {
        assert(key.len() == 2 && key[0] == '-');
    } else {
        assert(key[0] <= '9' && key[1] <= '9' && key[2] <= '9' && key[3] <= '9');
        assert(key[0] != '9' || key[1] != '9' || key[2] != '9' || key[3] != '9');
        let key1 = key.drop_first();
        let key2 = key1.drop_first();
        let key3 = key2.drop_first();
        let max1 = max.drop_first();
        let max2 = max1.drop_first();
        let max3 = max2.drop_first();
        assert(key1[0] == key[1] && key2[0] == key[2] && key3[0] == key[3]);
        assert(max1[0] == '9' && max2[0] == '9' && max3[0] == '9');
    }
}

/// The articles sort below their first token, where each key is a timestamp of a year
/// before 9999 or stands for no date.
pub proof fn law_articles_sort_below_first_token(table: Seq<RowView>, listing: Listing)
    requires
        listing is Articles,
        forall|i: int|
            0 <= i < table.len() ==> dated_before_max(
                sort_key(#[trigger] table[i], listing.field().index() as int),
            ),
    ensures
        all_below(table, listing.field().index() as int, listing.first_text()),
{
    assert forall|i: int| 0 <= i < table.len() implies precedes(
        sort_key(#[trigger] table[i], listing.field().index() as int),
        listing.first_text(),
    ) by {
        law_date_sorts_below_max_date(sort_key(table[i], listing.field().index() as int));
    }
}

/// A listing that fits on one page has no following page, whatever the token.
pub proof fn law_short_listing_has_no_next(table: Seq<RowView>, index: int, token: Seq<char>)
    requires
        table.len() <= LIMIT,
    ensures
        !fetched_page(table, index, token).cursor.has_next,
{
    table.lemma_filter_len(is_below(index, token));
}

/// A listing shorter than a page has a first page without neighbours.
pub proof fn law_short_listing_has_no_neighbours(table: Seq<RowView>, index: int)
    requires
        table.len() < LIMIT,
        none_above_sentinel(table, index),
    ensures
        !fetched_page(table, index, MAX_DATE@).cursor.has_next,
        !fetched_page(table, index, MAX_DATE@).cursor.has_prev,
{
    law_short_listing_has_no_next(table, index, MAX_DATE@);
    lemma_nothing_above(table, index, MAX_DATE@);
}

} // verus!
