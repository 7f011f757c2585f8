//! Rows of the database read as records, and records written as rows.
//!
//! A row is read column by column, each column as the type that the record
//! asks for at that place. The first column that is missing or cannot be
//! read so makes the row malformed, and the first malformed row makes a
//! whole listing fail.

use crate::value::{Cell, ConversionError, Number, SqlValue};
use vstd::prelude::*;

verus! {

/// What a column of a row is read as.
pub enum ColumnKind {
    Int32,
    Text,
    OptionalText,
    Number,
}

/// Why a row cannot be read as a record.
#[derive(Debug, Clone, Copy, PartialEq, Eq)]
pub enum RowError {
    /// The row has no column of this index.
    MissingColumn(usize),
    /// The column of this index holds a value of another storage class than
    /// the record asks for.
    InvalidColumnType(usize),
    /// The column of this index holds this integer, which the record's field
    /// cannot hold.
    IntegralValueOutOfRange(usize, i64),
}

/// Why a listing cannot be read: the index of its first malformed row, and
/// what is wrong with that row.
#[derive(Debug, Clone, Copy, PartialEq, Eq)]
pub struct FetchError {
    pub row: usize,
    pub error: RowError,
}

impl RowError {
    /// The error of a row whose column `column` fails to convert with `error`.
    pub open spec fn conversion(column: usize, error: ConversionError) -> RowError {
        match error {
            ConversionError::InvalidType => RowError::InvalidColumnType(column),
            ConversionError::OutOfRange(i) => RowError::IntegralValueOutOfRange(column, i),
        }
    }

    fn of_conversion(column: usize, error: ConversionError) -> (e: RowError)
        ensures
            e == RowError::conversion(column, error),
    {
        match error {
            ConversionError::InvalidType => RowError::InvalidColumnType(column),
            ConversionError::OutOfRange(i) => RowError::IntegralValueOutOfRange(column, i),
        }
    }
}

/// The error, if any, of reading `cell` as `kind`.
pub open spec fn conversion_error(cell: Cell, kind: ColumnKind) -> Option<ConversionError> {
    match kind {
        ColumnKind::Int32 => match cell.as_i32() {
            Ok(_) => None,
            Err(e) => Some(e),
        },
        ColumnKind::Text => match cell.as_text() {
            Ok(_) => None,
            Err(e) => Some(e),
        },
        ColumnKind::OptionalText => match cell.as_optional_text() {
            Ok(_) => None,
            Err(e) => Some(e),
        },
        ColumnKind::Number => match cell.as_number() {
            Ok(_) => None,
            Err(e) => Some(e),
        },
    }
}

/// The error, if any, of reading column `column` of `row` as `kind`.
pub open spec fn column_error(row: Seq<Cell>, column: int, kind: ColumnKind) -> Option<RowError> {
    if column >= row.len() {
        Some(RowError::MissingColumn(column as usize))
    } else {
        match conversion_error(row[column], kind) {
            Some(e) => Some(RowError::conversion(column as usize, e)),
            None => None,
        }
    }
}

/// The error of the first column from `from` on that `row` fails to offer as
/// `schema` asks, if there is one.
pub open spec fn first_error_from(row: Seq<Cell>, schema: Seq<ColumnKind>, from: int) -> Option<
    RowError,
>
    decreases schema.len() - from,
{
    if from < 0 || from >= schema.len() {
        None
    } else {
        match column_error(row, from, schema[from]) {
            Some(e) => Some(e),
            None => first_error_from(row, schema, from + 1),
        }
    }
}

/// The error of the first column that `row` fails to offer as `schema` asks,
/// if there is one.
pub open spec fn first_error(row: Seq<Cell>, schema: Seq<ColumnKind>) -> Option<RowError> {
    first_error_from(row, schema, 0)
}

/// Column `column` of `row` read as a 32-bit integer.
pub open spec fn read_i32(row: Seq<Cell>, column: int) -> Result<i32, RowError> {
    match column_error(row, column, ColumnKind::Int32) {
        Some(e) => Err(e),
        None => Ok(row[column].as_i32()->Ok_0),
    }
}

/// Column `column` of `row` read as a text.
pub open spec fn read_text(row: Seq<Cell>, column: int) -> Result<Seq<char>, RowError> {
    match column_error(row, column, ColumnKind::Text) {
        Some(e) => Err(e),
        None => Ok(row[column].as_text()->Ok_0),
    }
}

/// Column `column` of `row` read as a text that may be absent.
pub open spec fn read_optional_text(row: Seq<Cell>, column: int) -> Result<
    Option<Seq<char>>,
    RowError,
> {
    match column_error(row, column, ColumnKind::OptionalText) {
        Some(e) => Err(e),
        None => Ok(row[column].as_optional_text()->Ok_0),
    }
}

/// Column `column` of `row` read as a number.
pub open spec fn read_number(row: Seq<Cell>, column: int) -> Result<Number, RowError> {
    match column_error(row, column, ColumnKind::Number) {
        Some(e) => Err(e),
        None => Ok(row[column].as_number()->Ok_0),
    }
}

/// Reads column `column` of `row` as a 32-bit integer.
pub fn get_i32(row: &Vec<SqlValue>, column: usize) -> (r: Result<i32, RowError>)
    ensures
        r == read_i32(row.deep_view(), column as int),
{
    if column >= row.len() {
        return Err(RowError::MissingColumn(column));
    }
    match row[column].as_i32() {
        Ok(v) => Ok(v),
        Err(e) => Err(RowError::of_conversion(column, e)),
    }
}

/// Reads column `column` of `row` as a text.
pub fn get_text(row: &Vec<SqlValue>, column: usize) -> (r: Result<String, RowError>)
    ensures
        match r {
            Ok(s) => read_text(row.deep_view(), column as int) == Ok::<Seq<char>, RowError>(s@),
            Err(e) => read_text(row.deep_view(), column as int) == Err::<Seq<char>, RowError>(e),
        },
{
    if column >= row.len() {
        return Err(RowError::MissingColumn(column));
    }
    match row[column].as_text() {
        Ok(s) => Ok(s),
        Err(e) => Err(RowError::of_conversion(column, e)),
    }
}

/// Reads column `column` of `row` as a text that may be absent.
pub fn get_optional_text(row: &Vec<SqlValue>, column: usize) -> (r: Result<
    Option<String>,
    RowError,
>)
    ensures
        match r {
            Ok(s) => read_optional_text(row.deep_view(), column as int) == Ok::<
                Option<Seq<char>>,
                RowError,
            >(s.deep_view()),
            Err(e) => read_optional_text(row.deep_view(), column as int) == Err::<
                Option<Seq<char>>,
                RowError,
            >(e),
        },
{
    if column >= row.len() {
        return Err(RowError::MissingColumn(column));
    }
    match row[column].as_optional_text() {
        Ok(s) => Ok(s),
        Err(e) => Err(RowError::of_conversion(column, e)),
    }
}

/// Reads column `column` of `row` as a number.
pub fn get_number(row: &Vec<SqlValue>, column: usize) -> (r: Result<Number, RowError>)
    ensures
        r == read_number(row.deep_view(), column as int),
{
    if column >= row.len() {
        return Err(RowError::MissingColumn(column));
    }
    match row[column].as_number() {
        Ok(v) => Ok(v),
        Err(e) => Err(RowError::of_conversion(column, e)),
    }
}

/// The records of `rows`, each row read by `read`, in the order of the rows.
/// Where a row cannot be read, the first such row and its error.
pub open spec fn records_of_rows<T>(
    rows: Seq<Seq<Cell>>,
    read: spec_fn(Seq<Cell>) -> Result<T, RowError>,
) -> Result<Seq<T>, FetchError>
    decreases rows.len(),
{
    if rows.len() == 0 {
        Ok(Seq::empty())
    } else {
        match records_of_rows(rows.drop_last(), read) {
            Err(e) => Err(e),
            Ok(records) => match read(rows.last()) {
                Ok(record) => Ok(records.push(record)),
                Err(error) => Err(FetchError { row: (rows.len() - 1) as usize, error }),
            },
        }
    }
}

/// Where a listing can be read, it has a record for each row: the one that
/// the row is read as.
pub proof fn lemma_listing_follows_rows<T>(
    rows: Seq<Seq<Cell>>,
    read: spec_fn(Seq<Cell>) -> Result<T, RowError>,
)
    requires
        records_of_rows(rows, read) is Ok,
    ensures
        records_of_rows(rows, read)->Ok_0.len() == rows.len(),
        forall|i: int|
            0 <= i < rows.len() ==> read(#[trigger] rows[i]) == Ok::<T, RowError>(
                records_of_rows(rows, read)->Ok_0[i],
            ),
    decreases rows.len(),
{
    if rows.len() > 0 {
        let front = rows.drop_last();
        lemma_listing_follows_rows(front, read);
        let records = records_of_rows(front, read)->Ok_0;
        assert forall|i: int| 0 <= i < rows.len() implies read(#[trigger] rows[i]) == Ok::<
            T,
            RowError,
        >(records_of_rows(rows, read)->Ok_0[i]) by {
            if i < front.len() {
                assert(read(front[i]) == Ok::<T, RowError>(records[i]));
            }
        }
    }
}

/// Where a listing cannot be read, its error names the first row that cannot
/// be read, with that row's error.
pub proof fn lemma_listing_fails_at_first_malformed_row<T>(
    rows: Seq<Seq<Cell>>,
    read: spec_fn(Seq<Cell>) -> Result<T, RowError>,
)
    requires
        rows.len() <= usize::MAX,
        records_of_rows(rows, read) is Err,
    ensures
        records_of_rows(rows, read)->Err_0.row < rows.len(),
        read(rows[records_of_rows(rows, read)->Err_0.row as int]) == Err::<T, RowError>(
            records_of_rows(rows, read)->Err_0.error,
        ),
        forall|i: int|
            0 <= i < records_of_rows(rows, read)->Err_0.row ==> read(#[trigger] rows[i]) is Ok,
    decreases rows.len(),
{
    let front = rows.drop_last();
    let e = records_of_rows(rows, read)->Err_0;
    assert(forall|i: int| 0 <= i < front.len() ==> front[i] == rows[i]);
    if records_of_rows(front, read) is Err {
        lemma_listing_fails_at_first_malformed_row(front, read);
        assert(rows[e.row as int] == front[e.row as int]);
        assert forall|i: int| 0 <= i < e.row implies read(#[trigger] rows[i]) is Ok by {
            assert(read(front[i]) is Ok);
        }
    } else {
        lemma_listing_follows_rows(front, read);
        assert forall|i: int| 0 <= i < e.row implies read(#[trigger] rows[i]) is Ok by {
            assert(read(front[i]) is Ok);
        }
    }
}

/// Once the first rows of a listing cannot be read, their error is that of
/// the whole listing.
pub proof fn lemma_error_stays<T>(
    rows: Seq<Seq<Cell>>,
    read: spec_fn(Seq<Cell>) -> Result<T, RowError>,
    i: int,
)
    requires
        0 <= i < rows.len(),
        records_of_rows(rows.take(i + 1), read) is Err,
    ensures
        records_of_rows(rows, read) == records_of_rows(rows.take(i + 1), read),
    decreases rows.len(),
{
    if i + 1 < rows.len() {
        assert(rows.drop_last().take(i + 1) =~= rows.take(i + 1));
        lemma_error_stays(rows.drop_last(), read, i);
    } else {
        assert(rows.take(i + 1) =~= rows);
    }
}

} // verus!
