//! What a store answers.
//!
//! A listing is modelled as the sequence of all rows that match its predicate, in the
//! order the store keeps them: descending by the ordering column. Nothing here runs; the
//! functions say which rows a request finds. What follows for the pages is proved in
//! [`crate::laws`].

use vstd::prelude::*;
use crate::cursor::{sort_key, LIMIT_UPPER_BOUND, MAX_DATE};
use crate::page::{page_of, PageView};
use crate::row::{text_at, RowView};
use crate::token::{
    at_most, lemma_at_most_then_precedes, lemma_precedes_irreflexive,
    lemma_precedes_then_at_most, lemma_precedes_transitive, precedes,
};

verus! {

/// Every row sorts at or below the rows before it.
pub open spec fn descending(rows: Seq<RowView>, index: int) -> bool {
    forall|i: int, j: int|
        0 <= i < j < rows.len() ==> at_most(
            sort_key(#[trigger] rows[j], index),
            sort_key(#[trigger] rows[i], index),
        )
}

/// Every row sorts strictly below the rows before it: descending, and no key occurs twice.
pub open spec fn strictly_descending(rows: Seq<RowView>, index: int) -> bool {
    forall|i: int, j: int|
        0 <= i < j < rows.len() ==> precedes(
            sort_key(#[trigger] rows[j], index),
            sort_key(#[trigger] rows[i], index),
        )
}

/// Every row holds text in the ordering column.
pub open spec fn keyed(rows: Seq<RowView>, index: int) -> bool {
    forall|i: int| 0 <= i < rows.len() ==> text_at(#[trigger] rows[i], index).is_some()
}

/// The rows whose key sorts strictly below `token`.
pub open spec fn is_below(index: int, token: Seq<char>) -> spec_fn(RowView) -> bool {
    |row: RowView| precedes(sort_key(row, index), token)
}

/// The rows whose key sorts strictly above `token`.
pub open spec fn is_above(index: int, token: Seq<char>) -> spec_fn(RowView) -> bool {
    |row: RowView| precedes(token, sort_key(row, index))
}

/// All rows of the listing below `token`, nearest first.
pub open spec fn rows_below(table: Seq<RowView>, index: int, token: Seq<char>) -> Seq<RowView> {
    table.filter(is_below(index, token))
}

/// All rows of the listing above `token`, farthest first.
pub open spec fn rows_above(table: Seq<RowView>, index: int, token: Seq<char>) -> Seq<RowView> {
    table.filter(is_above(index, token))
}

/// The answer to the forward request: the first `LIMIT_UPPER_BOUND` rows below `token`.
pub open spec fn forward_rows(table: Seq<RowView>, index: int, token: Seq<char>) -> Seq<RowView> {
    let below = rows_below(table, index, token);
    if below.len() > LIMIT_UPPER_BOUND {
        below.take(LIMIT_UPPER_BOUND as int)
    } else {
        below
    }
}

/// The answer to the backward request: the `LIMIT_UPPER_BOUND` rows above `token` that lie
/// nearest to it, farthest first.
pub open spec fn backward_rows(table: Seq<RowView>, index: int, token: Seq<char>) -> Seq<RowView> {
    let above = rows_above(table, index, token);
    if above.len() > LIMIT_UPPER_BOUND {
        above.skip(above.len() - LIMIT_UPPER_BOUND)
    } else {
        above
    }
}

/// The page that a request with `token` gets from the listing.
pub open spec fn fetched_page(table: Seq<RowView>, index: int, token: Seq<char>) -> PageView {
    page_of(
        forward_rows(table, index, token),
        backward_rows(table, index, token),
        token,
        index,
    )
}

/// Every key of the listing sorts below `token`.
pub open spec fn all_below(table: Seq<RowView>, index: int, token: Seq<char>) -> bool {
    forall|i: int| 0 <= i < table.len() ==> precedes(sort_key(#[trigger] table[i], index), token)
}

/// No key of the listing sorts above `token`.
pub open spec fn none_above(table: Seq<RowView>, index: int, token: Seq<char>) -> bool {
    forall|i: int| 0 <= i < table.len() ==> at_most(sort_key(#[trigger] table[i], index), token)
}

/// Every key of the listing sorts below `MAX_DATE`.
pub open spec fn below_sentinel(table: Seq<RowView>, index: int) -> bool {
    all_below(table, index, MAX_DATE@)
}

/// No key of the listing sorts above `MAX_DATE`.
pub open spec fn none_above_sentinel(table: Seq<RowView>, index: int) -> bool {
    none_above(table, index, MAX_DATE@)
}

/// In a descending listing the rows below a token are its tail: they start at the
/// returned position and run to the end.
pub proof fn lemma_rows_below_is_tail(
    table: Seq<RowView>,
    index: int,
    token: Seq<char>,
) -> (p: int)
    requires
        descending(table, index),
    ensures
        0 <= p <= table.len(),
        rows_below(table, index, token) == table.skip(p),
        forall|i: int| 0 <= i < p ==> at_most(token, sort_key(#[trigger] table[i], index)),
        forall|i: int|
            p <= i < table.len() ==> precedes(sort_key(#[trigger] table[i], index), token),
    decreases table.len(),
{
    reveal(Seq::filter);
    if table.len() == 0 {
        assert(rows_below(table, index, token) =~= table.skip(0));
        0
    } else {
        let front = table.drop_last();
        assert forall|i: int, j: int| 0 <= i < j < front.len() implies at_most(
            sort_key(#[trigger] front[j], index),
            sort_key(#[trigger] front[i], index),
        ) by {
            assert(front[i] == table[i] && front[j] == table[j]);
        }
        let q = lemma_rows_below_is_tail(front, index, token);
        assert(forall|i: int| 0 <= i < front.len() ==> front[i] == table[i]);
        if precedes(sort_key(table.last(), index), token) {
            assert(rows_below(table, index, token) =~= table.skip(q));
            q
        } else {
            if q < front.len() {
                assert(precedes(sort_key(front[q], index), token));
                assert(at_most(
                    sort_key(table[table.len() - 1], index),
                    sort_key(table[q], index),
                ));
                lemma_at_most_then_precedes(
                    sort_key(table.last(), index),
                    sort_key(table[q], index),
                    token,
                );
            }
            assert(rows_below(table, index, token) =~= table.skip(table.len() as int));
            table.len() as int
        }
    }
}

/// In a descending listing the rows above a token are its head: they run from the start
/// up to the returned position.
pub proof fn lemma_rows_above_is_head(
    table: Seq<RowView>,
    index: int,
    token: Seq<char>,
) -> (q: int)
    requires
        descending(table, index),
    ensures
        0 <= q <= table.len(),
        rows_above(table, index, token) == table.take(q),
        forall|i: int| 0 <= i < q ==> precedes(token, sort_key(#[trigger] table[i], index)),
        forall|i: int|
            q <= i < table.len() ==> at_most(sort_key(#[trigger] table[i], index), token),
    decreases table.len(),
{
    reveal(Seq::filter);
    if table.len() == 0 {
        assert(rows_above(table, index, token) =~= table.take(0));
        0
    } else {
        let front = table.drop_last();
        assert forall|i: int, j: int| 0 <= i < j < front.len() implies at_most(
            sort_key(#[trigger] front[j], index),
            sort_key(#[trigger] front[i], index),
        ) by {
            assert(front[i] == table[i] && front[j] == table[j]);
        }
        let q = lemma_rows_above_is_head(front, index, token);
        assert(forall|i: int| 0 <= i < front.len() ==> front[i] == table[i]);
        if precedes(token, sort_key(table.last(), index)) {
            if q < front.len() {
                assert(at_most(sort_key(front[q], index), token));
                assert(at_most(
                    sort_key(table[table.len() - 1], index),
                    sort_key(table[q], index),
                ));
                lemma_precedes_then_at_most(
                    token,
                    sort_key(table.last(), index),
                    sort_key(table[q], index),
                );
            }
            assert(front.take(q) =~= front);
            assert(rows_above(table, index, token) =~= table.take(table.len() as int));
            table.len() as int
        } else {
            assert(rows_above(table, index, token) =~= table.take(q));
            q
        }
    }
}

/// A listing without repeated keys is descending.
pub proof fn lemma_strictly_descending_is_descending(table: Seq<RowView>, index: int)
    requires
        strictly_descending(table, index),
    ensures
        descending(table, index),
{
    assert forall|i: int, j: int| 0 <= i < j < table.len() implies at_most(
        sort_key(#[trigger] table[j], index),
        sort_key(#[trigger] table[i], index),
    ) by {
        if precedes(sort_key(table[i], index), sort_key(table[j], index)) {
            lemma_precedes_transitive(
                sort_key(table[i], index),
                sort_key(table[j], index),
                sort_key(table[i], index),
            );
            lemma_precedes_irreflexive(sort_key(table[i], index));
        }
    }
}

/// What is picked out of rows that hold their keys holds its keys.
pub proof fn lemma_filter_keeps_keys(
    table: Seq<RowView>,
    index: int,
    pick: spec_fn(RowView) -> bool,
)
    requires
        keyed(table, index),
    ensures
        keyed(table.filter(pick), index),
{
    let picked = table.filter(pick);
    assert forall|i: int| 0 <= i < picked.len() implies text_at(
        #[trigger] picked[i],
        index,
    ).is_some() by {
        assert(picked.contains(picked[i]));
        table.lemma_filter_contains_rev(pick, picked[i]);
        let j = choose|j: int| 0 <= j < table.len() && table[j] == picked[i];
        assert(text_at(table[j], index).is_some());
    }
}

/// Where no key sorts above a token, no row lies above it.
pub proof fn lemma_nothing_above(table: Seq<RowView>, index: int, token: Seq<char>)
    requires
        none_above(table, index, token),
    ensures
        rows_above(table, index, token).len() == 0,
    decreases table.len(),
{
    reveal(Seq::filter);
    if table.len() > 0 {
        let front = table.drop_last();
        assert(forall|i: int| 0 <= i < front.len() ==> front[i] == table[i]);
        lemma_nothing_above(front, index, token);
        assert(at_most(sort_key(table[table.len() - 1], index), token));
    }
}

/// Where every key sorts below a token, every row lies below it and none above.
pub proof fn lemma_token_sees_all(table: Seq<RowView>, index: int, token: Seq<char>)
    requires
        all_below(table, index, token),
    ensures
        rows_below(table, index, token) == table,
        rows_above(table, index, token).len() == 0,
        none_above(table, index, token),
    decreases table.len(),
{
    reveal(Seq::filter);
    assert forall|i: int| 0 <= i < table.len() implies at_most(
        sort_key(#[trigger] table[i], index),
        token,
    ) by {
        if precedes(token, sort_key(table[i], index)) {
            lemma_precedes_transitive(token, sort_key(table[i], index), token);
            lemma_precedes_irreflexive(token);
        }
    }
    lemma_nothing_above(table, index, token);
    if table.len() > 0 {
        let front = table.drop_last();
        assert(forall|i: int| 0 <= i < front.len() ==> front[i] == table[i]);
        lemma_token_sees_all(front, index, token);
        assert(precedes(sort_key(table[table.len() - 1], index), token));
        assert(rows_below(table, index, token) =~= table);
    }
}

} // verus!
