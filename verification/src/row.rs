//! Rows as the store hands them back: an ordered list of column values.

use vstd::prelude::*;

verus! {

/// The value one column holds in one row.
#[derive(Clone, Debug, PartialEq, Eq)]
pub enum Value {
    Text(String),
    Flag(bool),
}

/// What a [`Value`] stands for in contracts.
pub enum Datum {
    Text(Seq<char>),
    Flag(bool),
}

impl View for Value {
    type V = Datum;

    open spec fn view(&self) -> Datum {
        match self {
            Value::Text(s) => Datum::Text(s@),
            Value::Flag(b) => Datum::Flag(*b),
        }
    }
}

/// One row of a result set. Columns are addressed by their zero-based position.
#[derive(Clone, Debug, PartialEq, Eq)]
pub struct Row {
    pub values: Vec<Value>,
}

/// A row in contracts: the data of its columns, in order.
pub type RowView = Seq<Datum>;

impl View for Row {
    type V = RowView;

    open spec fn view(&self) -> RowView {
        Seq::new(self.values@.len(), |i: int| self.values@[i]@)
    }
}

/// The text in column `index` of `row`, if the row has that column and it holds text.
pub open spec fn text_at(row: RowView, index: int) -> Option<Seq<char>> {
    if 0 <= index < row.len() {
        match row[index] {
            Datum::Text(t) => Some(t),
            Datum::Flag(_) => None,
        }
    } else {
        None
    }
}

/// The flag in column `index` of `row`, if the row has that column and it holds a flag.
pub open spec fn flag_at(row: RowView, index: int) -> Option<bool> {
    if 0 <= index < row.len() {
        match row[index] {
            Datum::Text(_) => None,
            Datum::Flag(b) => Some(b),
        }
    } else {
        None
    }
}

/// The views of a sequence of rows, position by position.
pub open spec fn views(rows: Seq<Row>) -> Seq<RowView> {
    Seq::new(rows.len(), |i: int| rows[i]@)
}

impl Row {
    /// A row holding `values`, in column order.
    pub fn new(values: Vec<Value>) -> (row: Row)
        ensures
            row.values == values,
    {
        Row { values }
    }

    /// Number of columns.
    pub fn len(&self) -> (n: usize)
        ensures
            n == self@.len(),
    {
        self.values.len()
    }

    /// Whether column `index` exists and holds text.
    pub fn has_text(&self, index: usize) -> (b: bool)
        ensures
            b == text_at(self@, index as int).is_some(),
    {
        if index < self.values.len() {
            match &self.values[index] {
                Value::Text(_) => true,
                Value::Flag(_) => false,
            }
        } else {
            false
        }
    }

    /// Whether column `index` exists and holds a flag.
    pub fn has_flag(&self, index: usize) -> (b: bool)
        ensures
            b == flag_at(self@, index as int).is_some(),
    {
        if index < self.values.len() {
            match &self.values[index] {
                Value::Text(_) => false,
                Value::Flag(_) => true,
            }
        } else {
            false
        }
    }

    /// A copy of the text in column `index`, which the row must hold.
    pub fn get_text(&self, index: usize) -> (s: String)
        requires
            text_at(self@, index as int).is_some(),
        ensures
            text_at(self@, index as int) == Some(s@),
    {
        match &self.values[index] {
            Value::Text(s) => s.clone(),
            Value::Flag(_) => String::new(),
        }
    }

    /// The flag in column `index`, which the row must hold.
    pub fn get_flag(&self, index: usize) -> (b: bool)
        requires
            flag_at(self@, index as int).is_some(),
        ensures
            flag_at(self@, index as int) == Some(b),
    {
        match &self.values[index] {
            Value::Text(_) => false,
            Value::Flag(b) => *b,
        }
    }
}

} // verus!
