//! Values as the database holds them, and their conversion to the types of
//! the records.

use vstd::prelude::*;

verus! {

/// A value of one of the five storage classes of the database.
///
/// A floating-point value is carried by the 64 bits of its IEEE 754 binary64
/// form: the library passes such a value on and never computes with it.
#[derive(Debug, Clone, PartialEq, Eq)]
pub enum SqlValue {
    Null,
    Integer(i64),
    Real(u64),
    Text(String),
    Blob(Vec<u8>),
}

/// The mathematical view of an [`SqlValue`].
pub enum Cell {
    Null,
    Integer(i64),
    Real(u64),
    Text(Seq<char>),
    Blob(Seq<u8>),
}

impl View for SqlValue {
    type V = Cell;

    open spec fn view(&self) -> Cell {
        match self {
            SqlValue::Null => Cell::Null,
            SqlValue::Integer(i) => Cell::Integer(*i),
            SqlValue::Real(bits) => Cell::Real(*bits),
            SqlValue::Text(s) => Cell::Text(s@),
            SqlValue::Blob(b) => Cell::Blob(b@),
        }
    }
}

impl DeepView for SqlValue {
    type V = Cell;

    open spec fn deep_view(&self) -> Cell {
        self@
    }
}

/// A number as the database hands it out: an integer, or a floating-point
/// value by its bits. Either way it stands for a floating-point quantity.
#[derive(Debug, Clone, Copy, PartialEq, Eq)]
pub enum Number {
    Integer(i64),
    Real(u64),
}

/// Why a value cannot be read as the type that was asked for.
#[derive(Debug, Clone, Copy, PartialEq, Eq)]
pub enum ConversionError {
    /// The value is of another storage class.
    InvalidType,
    /// The value is an integer that the type asked for cannot hold.
    OutOfRange(i64),
}

impl Cell {
    /// The cell read as a 32-bit integer: an integer in range, and nothing
    /// else, can be read so.
    pub open spec fn as_i32(self) -> Result<i32, ConversionError> {
        match self {
            Cell::Integer(i) => if i32::MIN <= i <= i32::MAX {
                Ok(i as i32)
            } else {
                Err(ConversionError::OutOfRange(i))
            },
            _ => Err(ConversionError::InvalidType),
        }
    }

    /// The cell read as a text: only a text can be read so.
    pub open spec fn as_text(self) -> Result<Seq<char>, ConversionError> {
        match self {
            Cell::Text(s) => Ok(s),
            _ => Err(ConversionError::InvalidType),
        }
    }

    /// The cell read as a text that may be absent: a null is the absent
    /// text, and anything else is read as a text.
    pub open spec fn as_optional_text(self) -> Result<Option<Seq<char>>, ConversionError> {
        match self {
            Cell::Null => Ok(None),
            Cell::Text(s) => Ok(Some(s)),
            _ => Err(ConversionError::InvalidType),
        }
    }

    /// The cell read as a number: an integer or a floating-point value.
    pub open spec fn as_number(self) -> Result<Number, ConversionError> {
        match self {
            Cell::Integer(i) => Ok(Number::Integer(i)),
            Cell::Real(bits) => Ok(Number::Real(bits)),
            _ => Err(ConversionError::InvalidType),
        }
    }

    /// The cell that holds a 32-bit integer.
    pub open spec fn of_i32(i: i32) -> Cell {
        Cell::Integer(i as i64)
    }

    /// The cell that holds a text.
    pub open spec fn of_text(s: Seq<char>) -> Cell {
        Cell::Text(s)
    }

    /// The cell that holds a text that may be absent.
    pub open spec fn of_optional_text(s: Option<Seq<char>>) -> Cell {
        match s {
            Some(s) => Cell::Text(s),
            None => Cell::Null,
        }
    }

    /// The cell that holds a number.
    pub open spec fn of_number(n: Number) -> Cell {
        match n {
            Number::Integer(i) => Cell::Integer(i),
            Number::Real(bits) => Cell::Real(bits),
        }
    }
}

impl SqlValue {
    /// Reads the value as a 32-bit integer.
    pub fn as_i32(&self) -> (r: Result<i32, ConversionError>)
        ensures
            r == self@.as_i32(),
    {
        match self {
            SqlValue::Integer(i) => {
                if -2147483648 <= *i && *i <= 2147483647 {
                    Ok(*i as i32)
                } else {
                    Err(ConversionError::OutOfRange(*i))
                }
            },
            _ => Err(ConversionError::InvalidType),
        }
    }

    /// Reads the value as a text.
    pub fn as_text(&self) -> (r: Result<String, ConversionError>)
        ensures
            match r {
                Ok(s) => self@.as_text() == Ok::<Seq<char>, ConversionError>(s@),
                Err(e) => self@.as_text() == Err::<Seq<char>, ConversionError>(e),
            },
    {
        match self {
            SqlValue::Text(s) => Ok(s.clone()),
            _ => Err(ConversionError::InvalidType),
        }
    }

    /// Reads the value as a text that may be absent.
    pub fn as_optional_text(&self) -> (r: Result<Option<String>, ConversionError>)
        ensures
            match r {
                Ok(s) => self@.as_optional_text() == Ok::<Option<Seq<char>>, ConversionError>(
                    s.deep_view(),
                ),
                Err(e) => self@.as_optional_text() == Err::<Option<Seq<char>>, ConversionError>(e),
            },
    {
        match self {
            SqlValue::Null => Ok(None),
            SqlValue::Text(s) => Ok(Some(s.clone())),
            _ => Err(ConversionError::InvalidType),
        }
    }

    /// Reads the value as a number.
    pub fn as_number(&self) -> (r: Result<Number, ConversionError>)
        ensures
            r == self@.as_number(),
    {
        match self {
            SqlValue::Integer(i) => Ok(Number::Integer(*i)),
            SqlValue::Real(bits) => Ok(Number::Real(*bits)),
            _ => Err(ConversionError::InvalidType),
        }
    }

    /// The value that holds a 32-bit integer.
    pub fn of_i32(i: i32) -> (v: SqlValue)
        ensures
            v@ == Cell::of_i32(i),
    {
        SqlValue::Integer(i as i64)
    }

    /// The value that holds a copy of a text.
    pub fn of_text(s: &String) -> (v: SqlValue)
        ensures
            v@ == Cell::of_text(s@),
    {
        SqlValue::Text(s.clone())
    }

    /// The value that holds a copy of a text that may be absent.
    pub fn of_optional_text(s: &Option<String>) -> (v: SqlValue)
        ensures
            v@ == Cell::of_optional_text(s.deep_view()),
    {
        match s {
            Some(t) => SqlValue::Text(t.clone()),
            None => SqlValue::Null,
        }
    }

    /// The value that holds a number.
    pub fn of_number(n: Number) -> (v: SqlValue)
        ensures
            v@ == Cell::of_number(n),
    {
        match n {
            Number::Integer(i) => SqlValue::Integer(i),
            Number::Real(bits) => SqlValue::Real(bits),
        }
    }
}

} // verus!
