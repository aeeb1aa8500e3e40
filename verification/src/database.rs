//! Rows of the highscore table.

use vstd::prelude::*;

verus! {

/// Row in the database: one submitted score.
#[derive(Debug, Clone, PartialEq)]
pub struct DatabaseRow {
    pub id: i64,
    pub name: String,
    pub extra_data: String,
    pub score: i64,
    pub date: String,
}

impl DatabaseRow {
    /// Creates an empty database row.
    pub fn empty() -> (row: Self)
        ensures
            row.id == 0,
            row.name@ == Seq::<char>::empty(),
            row.extra_data@ == Seq::<char>::empty(),
            row.score == 0,
            row.date@ == Seq::<char>::empty(),
    {
        DatabaseRow {
            id: 0,
            name: String::new(),
            extra_data: String::new(),
            score: 0,
            date: String::new(),
        }
    }

    /// Creates an empty database row that carries the given ID.
    pub fn new(id: i64) -> (row: Self)
        ensures
            row.id == id,
            row.name@ == Seq::<char>::empty(),
            row.extra_data@ == Seq::<char>::empty(),
            row.score == 0,
            row.date@ == Seq::<char>::empty(),
    {
        DatabaseRow {
            id,
            name: String::new(),
            extra_data: String::new(),
            score: 0,
            date: String::new(),
        }
    }
}

} // verus!
