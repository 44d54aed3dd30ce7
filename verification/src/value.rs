//! The cells of a result store and their conversion to typed values.

use crate::error::Error;
use vstd::prelude::*;
use vstd::utf8::{decode_utf8, valid_utf8};

verus! {

/// One cell of a row, as the store holds it.
#[derive(Debug, Clone, PartialEq, Eq)]
pub enum Value {
    /// No value.
    Null,
    /// A signed integer.
    Integer(i64),
    /// A real number, given by the bits of its IEEE-754 binary64 form.
    Real(u64),
    /// Text, as the bytes that the store holds; they need not be UTF-8.
    Text(Vec<u8>),
    /// Bytes.
    Blob(Vec<u8>),
}

/// A row of a table: its cells in column order.
pub type Row = Vec<Value>;

/// The bits of the real number 1.0.
pub const ONE_BITS: u64 = 0x3FF0_0000_0000_0000;

/// The bits of the real number -0.0, which compares equal to zero.
pub const NEGATIVE_ZERO_BITS: u64 = 0x8000_0000_0000_0000;

/// True when the real number with these bits lies between 0.0 and 1.0, both
/// included. In the binary64 form the non-negative numbers are ordered as
/// their bits are, so these are the bits up to those of 1.0, and the bits
/// of -0.0.
pub open spec fn unit_interval_bits(bits: u64) -> bool {
    bits <= ONE_BITS || bits == NEGATIVE_ZERO_BITS
}

/// A similarity or confidence score: a real number between 0.0 and 1.0,
/// held as the bits of its IEEE-754 binary64 form.
#[derive(Debug, Clone, Copy, PartialEq, Eq, Structural)]
pub struct Score {
    pub bits: u64,
}

impl Score {
    /// True when the score lies between 0.0 and 1.0.
    pub open spec fn well_formed(self) -> bool {
        unit_interval_bits(self.bits)
    }

    /// The score with the given bits, if they lie in range.
    pub fn from_bits(bits: u64) -> (r: Option<Score>)
        ensures
            r == if unit_interval_bits(bits) {
                Some(Score { bits })
            } else {
                None::<Score>
            },
    {
        if bits <= ONE_BITS || bits == NEGATIVE_ZERO_BITS {
            Some(Score { bits })
        } else {
            None
        }
    }
}

/// A point in time: whole seconds since 1970-01-01 00:00:00 UTC, not
/// counting leap seconds, and the nanoseconds since that second.
#[derive(Debug, Clone, Copy, PartialEq, Eq, Structural)]
pub struct Timestamp {
    pub secs: i64,
    pub nanos: u32,
}

/// The text that shows a point in time as year, month, day, hour, minute and
/// second, or nothing where the calendar cannot hold it.
pub uninterp spec fn timestamp_text(secs: i64, nanos: u32) -> Option<Seq<char>>;

/// What the store's driver is handed to read a point in time from: the
/// integer of an integer cell, or the bytes of a text cell.
pub enum TimeCell<'a> {
    Seconds(i64),
    Text(&'a [u8]),
}

/// What a cell holds that a point in time is read from.
pub enum TimeCellView {
    Seconds(i64),
    Text(Seq<u8>),
}

impl<'a> View for TimeCell<'a> {
    type V = TimeCellView;

    open spec fn view(&self) -> TimeCellView {
        match self {
            TimeCell::Seconds(secs) => TimeCellView::Seconds(*secs),
            TimeCell::Text(text) => TimeCellView::Text(text@),
        }
    }
}

/// What the store's driver reads from a cell as a point in time: seconds
/// and nanoseconds, or nothing where the text is no date and time, or the
/// calendar cannot hold the second that an integer stands for.
pub uninterp spec fn cell_timestamp(cell: TimeCellView) -> Option<(i64, u32)>;

/// `rusqlite`'s `FromSql::column_result` for `chrono::DateTime<Utc>`, on an
/// integer cell or a text cell. The result is that of the call, reduced to
/// the pair of `DateTime::timestamp` and `DateTime::timestamp_subsec_nanos`;
/// it depends on the cell alone, as the parse reads no clock and no time
/// zone setting. `chrono` documents that `DateTime::from_timestamp` gives
/// back the value that such a pair was taken from, so the pair has a text.
/// The driver takes an integer as seconds since 1970, with no nanoseconds.
#[verifier::external_body]
fn timestamp_of_cell(cell: TimeCell<'_>) -> (r: Option<(i64, u32)>)
    ensures
        r == cell_timestamp(cell@),
        r matches Some(t) ==> timestamp_text(t.0, t.1) is Some,
        cell matches TimeCell::Seconds(secs) ==> (r matches Some(t) ==> t.0 == secs && t.1 == 0),
{
    let handed = match cell {
        TimeCell::Seconds(secs) => rusqlite::types::ValueRef::Integer(secs),
        TimeCell::Text(text) => rusqlite::types::ValueRef::Text(text),
    };
    let parsed: Result<chrono::DateTime<chrono::Utc>, rusqlite::types::FromSqlError> =
        rusqlite::types::FromSql::column_result(handed);
    match parsed {
        Ok(t) => Some((t.timestamp(), t.timestamp_subsec_nanos())),
        Err(_) => None,
    }
}

/// `chrono`'s `DateTime::format` with the pattern `%Y-%m-%d %H:%M:%S`, on the
/// value that `DateTime::from_timestamp` makes of the seconds and
/// nanoseconds. The result is the text that the call gives, which depends on
/// the arguments alone, and nothing where `from_timestamp` gives none.
#[verifier::external_body]
fn format_timestamp(secs: i64, nanos: u32) -> (r: Option<String>)
    ensures
        match r {
            Some(s) => timestamp_text(secs, nanos) == Some(s@),
            None => timestamp_text(secs, nanos) is None,
        },
{
    match chrono::DateTime::from_timestamp(secs, nanos) {
        Some(t) => Some(t.format("%Y-%m-%d %H:%M:%S").to_string()),
        None => None,
    }
}

/// `str::from_utf8` of std: the text that the bytes encode, exactly when
/// they are well-formed UTF-8.
#[verifier::external_body]
pub(crate) fn utf8_text(bytes: &[u8]) -> (r: Option<&str>)
    ensures
        r is Some <==> valid_utf8(bytes@),
        r matches Some(s) ==> s@ == decode_utf8(bytes@),
{
    std::str::from_utf8(bytes).ok()
}

/// The integer in a cell; any other kind of cell is an error.
pub open spec fn integer_of(v: Value) -> Result<i64, Error> {
    match v {
        Value::Integer(i) => Ok(i),
        _ => Err(Error::DecodeError),
    }
}

/// The count in a cell: an integer that is not negative.
pub open spec fn counter_of(v: Value) -> Result<i64, Error> {
    match v {
        Value::Integer(i) if i >= 0 => Ok(i),
        _ => Err(Error::DecodeError),
    }
}

/// The truth value in a cell: an integer, false when it is zero.
pub open spec fn flag_of(v: Value) -> Result<bool, Error> {
    match v {
        Value::Integer(i) => Ok(i != 0),
        _ => Err(Error::DecodeError),
    }
}

/// The text in a cell, which must hold well-formed UTF-8.
pub open spec fn text_of(v: Value) -> Result<Seq<char>, Error> {
    match v {
        Value::Text(bytes) if valid_utf8(bytes@) => Ok(decode_utf8(bytes@)),
        _ => Err(Error::DecodeError),
    }
}

/// The score in a cell: a real number between 0.0 and 1.0, or one of the
/// integers 0 and 1, which stand for 0.0 and 1.0.
pub open spec fn score_of(v: Value) -> Result<Score, Error> {
    match v {
        Value::Real(bits) if unit_interval_bits(bits) => Ok(Score { bits }),
        Value::Integer(i) if i == 0 => Ok(Score { bits: 0 }),
        Value::Integer(i) if i == 1 => Ok(Score { bits: ONE_BITS }),
        _ => Err(Error::DecodeError),
    }
}

/// What a parse gave, as a point in time or as the error of a cell that
/// holds none.
pub open spec fn timestamp_or_error(parsed: Option<(i64, u32)>) -> Result<Timestamp, Error> {
    match parsed {
        Some(t) => Ok(Timestamp { secs: t.0, nanos: t.1 }),
        None => Err(Error::DecodeError),
    }
}

/// The point in time in a cell: text that the driver reads as a date and
/// time, or an integer that it takes as seconds since 1970.
pub open spec fn timestamp_of(v: Value) -> Result<Timestamp, Error> {
    match v {
        Value::Text(bytes) => timestamp_or_error(cell_timestamp(TimeCellView::Text(bytes@))),
        Value::Integer(i) => timestamp_or_error(cell_timestamp(TimeCellView::Seconds(i))),
        _ => Err(Error::DecodeError),
    }
}

impl Timestamp {
    /// True when the calendar holds this point in time, so that it has a
    /// text.
    pub open spec fn well_formed(self) -> bool {
        timestamp_text(self.secs, self.nanos) is Some
    }

    /// The date and time of day in UTC, as `2024-05-17 08:30:00`; nothing
    /// for a point in time that no calendar date holds.
    pub fn to_text(&self) -> (r: Option<String>)
        ensures
            match r {
                Some(s) => timestamp_text(self.secs, self.nanos) == Some(s@),
                None => timestamp_text(self.secs, self.nanos) is None,
            },
            self.well_formed() ==> r is Some,
    {
        format_timestamp(self.secs, self.nanos)
    }

    /// Turns the outcome of a parse into a point in time; a parse that
    /// found none is a decode error.
    pub fn from_parsed(parsed: Option<(i64, u32)>) -> (r: Result<Timestamp, Error>)
        ensures
            r == timestamp_or_error(parsed),
    {
        match parsed {
            Some(t) => Ok(Timestamp { secs: t.0, nanos: t.1 }),
            None => Err(Error::DecodeError),
        }
    }
}

impl Value {
    /// Reads the cell as an integer.
    pub fn as_i64(&self) -> (r: Result<i64, Error>)
        ensures
            r == integer_of(*self),
    {
        match self {
            Value::Integer(i) => Ok(*i),
            _ => Err(Error::DecodeError),
        }
    }

    /// Reads the cell as a count, which cannot be negative.
    pub fn as_counter(&self) -> (r: Result<i64, Error>)
        ensures
            r == counter_of(*self),
    {
        match self {
            Value::Integer(i) => {
                if *i >= 0 {
                    Ok(*i)
                } else {
                    Err(Error::DecodeError)
                }
            },
            _ => Err(Error::DecodeError),
        }
    }

    /// Reads the cell as a truth value.
    pub fn as_bool(&self) -> (r: Result<bool, Error>)
        ensures
            r == flag_of(*self),
    {
        match self {
            Value::Integer(i) => Ok(*i != 0),
            _ => Err(Error::DecodeError),
        }
    }

    /// Reads the cell as text.
    pub fn as_string(&self) -> (r: Result<String, Error>)
        ensures
            match r {
                Ok(s) => text_of(*self) == Ok::<Seq<char>, Error>(s@),
                Err(e) => text_of(*self) == Err::<Seq<char>, Error>(e),
            },
    {
        match self {
            Value::Text(bytes) => {
                match utf8_text(bytes.as_slice()) {
                    Some(s) => Ok(s.to_owned()),
                    None => Err(Error::DecodeError),
                }
            },
            _ => Err(Error::DecodeError),
        }
    }

    /// Reads the cell as a score.
    pub fn as_score(&self) -> (r: Result<Score, Error>)
        ensures
            r == score_of(*self),
            r matches Ok(s) ==> s.well_formed(),
    {
        match self {
            Value::Real(bits) => {
                match Score::from_bits(*bits) {
                    Some(s) => Ok(s),
                    None => Err(Error::DecodeError),
                }
            },
            Value::Integer(i) => {
                if *i == 0 {
                    Ok(Score { bits: 0 })
                } else if *i == 1 {
                    Ok(Score { bits: ONE_BITS })
                } else {
                    Err(Error::DecodeError)
                }
            },
            _ => Err(Error::DecodeError),
        }
    }

    /// Reads the cell as a point in time.
    pub fn as_timestamp(&self) -> (r: Result<Timestamp, Error>)
        ensures
            r == timestamp_of(*self),
            r matches Ok(t) ==> t.well_formed(),
            *self matches Value::Integer(i) ==> (r matches Ok(t) ==> t.secs == i && t.nanos
                == 0),
    {
        match self {
            Value::Text(bytes) => Timestamp::from_parsed(
                timestamp_of_cell(TimeCell::Text(bytes.as_slice())),
            ),
            Value::Integer(i) => Timestamp::from_parsed(timestamp_of_cell(TimeCell::Seconds(*i))),
            _ => Err(Error::DecodeError),
        }
    }
}

} // verus!
