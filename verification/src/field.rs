//! The columns a listing can be paginated by.

use vstd::prelude::*;

verus! {

/// A column whose value positions a row within a listing.
#[derive(Clone, Copy, Debug, PartialEq, Eq, Structural)]
pub enum PaginationField {
    Id,
    Published,
    ReadDate,
}

impl PaginationField {
    /// Zero-based position of the column within a row.
    pub open spec fn spec_index(self) -> usize {
        match self {
            PaginationField::Id => 0,
            PaginationField::Published => 5,
            PaginationField::ReadDate => 8,
        }
    }

    /// Name of the column in the store.
    pub open spec fn column(self) -> Seq<char> {
        match self {
            PaginationField::Id => "id"@,
            PaginationField::Published => "published"@,
            PaginationField::ReadDate => "read_date"@,
        }
    }

    /// Name of the column in the store.
    pub fn column_name(self) -> (name: &'static str)
        ensures
            name@ == self.column(),
    {
        match self {
            PaginationField::Id => "id",
            PaginationField::Published => "published",
            PaginationField::ReadDate => "read_date",
        }
    }

    /// Zero-based position of the column within a row.
    #[verifier::when_used_as_spec(spec_index)]
    pub fn index(self) -> (i: usize)
        ensures
            i == self.spec_index(),
    {
        match self {
            PaginationField::Id => 0,
            PaginationField::Published => 5,
            PaginationField::ReadDate => 8,
        }
    }
}

} // verus!
