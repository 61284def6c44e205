//! Rows of a database's answer, with their columns decoded.

use crate::lsn_stats::Lsn;
use crate::time::Timestamp;
use vstd::prelude::*;

verus! {

/// The type a column is decoded to.
#[derive(Clone, Copy, Debug, PartialEq, Eq, Structural)]
pub enum ColumnType {
    Bool,
    Lsn,
    Bigint,
    Timestamp,
}

/// A decoded column.
#[derive(Clone, Copy, Debug, PartialEq, Eq, Structural)]
pub enum Column {
    Bool(bool),
    Lsn(Lsn),
    Bigint(i64),
    Timestamp(Timestamp),
}

/// A row. A column that was null, or whose text did not decode, holds nothing.
#[derive(Debug, PartialEq)]
pub struct DataRow {
    pub columns: Vec<Option<Column>>,
}

impl View for DataRow {
    type V = Seq<Option<Column>>;

    open spec fn view(&self) -> Seq<Option<Column>> {
        self.columns@
    }
}

/// The column at `index`, if the row has one there and it holds a value.
pub open spec fn column_at(row: Seq<Option<Column>>, index: int) -> Option<Column> {
    if 0 <= index < row.len() {
        row[index]
    } else {
        None
    }
}

/// The boolean at `index`.
pub open spec fn bool_at(row: Seq<Option<Column>>, index: int) -> Option<bool> {
    match column_at(row, index) {
        Some(Column::Bool(value)) => Some(value),
        _ => None,
    }
}

/// The log sequence number at `index`.
pub open spec fn lsn_at(row: Seq<Option<Column>>, index: int) -> Option<Lsn> {
    match column_at(row, index) {
        Some(Column::Lsn(value)) => Some(value),
        _ => None,
    }
}

/// The integer at `index`.
pub open spec fn bigint_at(row: Seq<Option<Column>>, index: int) -> Option<i64> {
    match column_at(row, index) {
        Some(Column::Bigint(value)) => Some(value),
        _ => None,
    }
}

/// The timestamp at `index`.
pub open spec fn timestamp_at(row: Seq<Option<Column>>, index: int) -> Option<Timestamp> {
    match column_at(row, index) {
        Some(Column::Timestamp(value)) => Some(value),
        _ => None,
    }
}

impl DataRow {
    /// The column at `index`, if the row has one there and it holds a value.
    pub fn get(&self, index: usize) -> (column: Option<Column>)
        ensures
            column == column_at(self@, index as int),
    {
        if index < self.columns.len() {
            self.columns[index]
        } else {
            None
        }
    }

    /// The boolean at `index`.
    pub fn get_bool(&self, index: usize) -> (value: Option<bool>)
        ensures
            value == bool_at(self@, index as int),
    {
        match self.get(index) {
            Some(Column::Bool(value)) => Some(value),
            _ => None,
        }
    }

    /// The log sequence number at `index`.
    pub fn get_lsn(&self, index: usize) -> (value: Option<Lsn>)
        ensures
            value == lsn_at(self@, index as int),
    {
        match self.get(index) {
            Some(Column::Lsn(value)) => Some(value),
            _ => None,
        }
    }

    /// The integer at `index`.
    pub fn get_bigint(&self, index: usize) -> (value: Option<i64>)
        ensures
            value == bigint_at(self@, index as int),
    {
        match self.get(index) {
            Some(Column::Bigint(value)) => Some(value),
            _ => None,
        }
    }

    /// The timestamp at `index`.
    pub fn get_timestamp(&self, index: usize) -> (value: Option<Timestamp>)
        ensures
            value == timestamp_at(self@, index as int),
    {
        match self.get(index) {
            Some(Column::Timestamp(value)) => Some(value),
            _ => None,
        }
    }
}

/// A column is read as the type that it holds and as no other; where the row has
/// none, or it holds nothing, nothing is read.
pub proof fn law_columns_are_read_as_typed(row: Seq<Option<Column>>, index: int)
    ensures
        !(0 <= index < row.len()) ==> column_at(row, index) is None,
        0 <= index < row.len() ==> column_at(row, index) == row[index],
        forall|value: bool|
            bool_at(row, index) == Some(value) <==> 0 <= index < row.len() && row[index] == Some(
                Column::Bool(value),
            ),
        forall|value: Lsn|
            lsn_at(row, index) == Some(value) <==> 0 <= index < row.len() && row[index] == Some(
                Column::Lsn(value),
            ),
        forall|value: i64|
            bigint_at(row, index) == Some(value) <==> 0 <= index < row.len() && row[index]
                == Some(Column::Bigint(value)),
        forall|value: Timestamp|
            timestamp_at(row, index) == Some(value) <==> 0 <= index < row.len() && row[index]
                == Some(Column::Timestamp(value)),
{
}

} // verus!
