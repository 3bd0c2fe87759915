//! Turning one field of a RevenueCat record into a PostgreSQL cell.

use vstd::prelude::*;
use crate::json::{Json, JsonNode};
use crate::text::{str_eq, trunc_div};

verus! {

/// The PostgreSQL type of a target column.
#[derive(Debug, Clone, Copy, PartialEq, Eq, Structural)]
pub enum ColumnType {
    Bool,
    I8,
    I16,
    I32,
    I64,
    F32,
    F64,
    Numeric,
    String,
    Date,
    Timestamp,
    Timestamptz,
    Json,
}

/// The floating-point column types.
#[derive(Debug, Clone, Copy, PartialEq, Eq, Structural)]
pub enum FloatKind {
    F32,
    F64,
    Numeric,
}

/// The time column types.
#[derive(Debug, Clone, Copy, PartialEq, Eq, Structural)]
pub enum TimeKind {
    Date,
    Timestamp,
    Timestamptz,
}

/// A PostgreSQL cell value.
///
/// A floating-point cell carries the decimal text of its number; the host
/// side turns that text into the float.  Dates hold seconds since the epoch,
/// timestamps microseconds.
#[derive(Debug)]
pub enum Cell {
    Bool(bool),
    I8(i8),
    I16(i16),
    I32(i32),
    I64(i64),
    Float(FloatKind, String),
    String(String),
    Date(i64),
    Timestamp(i64),
    Timestamptz(i64),
    Json(String),
}

/// Where the conversion of one field stands.
#[derive(Debug)]
pub enum CellStep {
    /// The cell is known (`None` is SQL NULL).
    Ready(Option<Cell>),
    /// The field is a string in a time column: it must be read as an
    /// RFC 3339 timestamp (microseconds since the epoch), and
    /// `finish_time_cell` then gives the cell.
    ParseTime(TimeKind, String),
}

/// A timestamp in microseconds from RevenueCat's millisecond epoch integer
/// (two's-complement wrap on overflow, as in a release build).
pub open spec fn micros_of_millis(ms: i64) -> i64 {
    i64::wrapping_mul(ms, 1000)
}

/// Seconds since the epoch from milliseconds, rounded toward zero.
pub open spec fn seconds_of_millis(ms: i64) -> i64 {
    trunc_div(ms as int, 1000) as i64
}

/// Seconds since the epoch from microseconds, rounded toward zero.
pub open spec fn seconds_of_micros(us: i64) -> i64 {
    trunc_div(us as int, 1000000) as i64
}

/// The cell for a present, non-null JSON value in a column of type `ty`.
pub open spec fn value_cell(v: Json, ty: ColumnType) -> CellStep {
    match ty {
        ColumnType::Bool => match v.node {
            JsonNode::Bool(b) => CellStep::Ready(Some(Cell::Bool(b))),
            _ => CellStep::Ready(None),
        },
        ColumnType::I8 => match v.node {
            JsonNode::Number(Some(i)) => CellStep::Ready(Some(Cell::I8(i as i8))),
            _ => CellStep::Ready(None),
        },
        ColumnType::I16 => match v.node {
            JsonNode::Number(Some(i)) => CellStep::Ready(Some(Cell::I16(i as i16))),
            _ => CellStep::Ready(None),
        },
        ColumnType::I32 => match v.node {
            JsonNode::Number(Some(i)) => CellStep::Ready(Some(Cell::I32(i as i32))),
            _ => CellStep::Ready(None),
        },
        ColumnType::I64 => match v.node {
            JsonNode::Number(Some(i)) => CellStep::Ready(Some(Cell::I64(i))),
            _ => CellStep::Ready(None),
        },
        ColumnType::F32 => float_cell(v, FloatKind::F32),
        ColumnType::F64 => float_cell(v, FloatKind::F64),
        ColumnType::Numeric => float_cell(v, FloatKind::Numeric),
        ColumnType::String => match v.node {
            JsonNode::Str(s) => CellStep::Ready(Some(Cell::String(s))),
            _ => CellStep::Ready(Some(Cell::String(v.text))),
        },
        ColumnType::Date => match v.node {
            JsonNode::Number(Some(ms)) => CellStep::Ready(Some(Cell::Date(seconds_of_millis(ms)))),
            JsonNode::Str(s) => CellStep::ParseTime(TimeKind::Date, s),
            _ => CellStep::Ready(None),
        },
        ColumnType::Timestamp => match v.node {
            JsonNode::Number(Some(ms)) => CellStep::Ready(
                Some(Cell::Timestamp(micros_of_millis(ms))),
            ),
            JsonNode::Str(s) => CellStep::ParseTime(TimeKind::Timestamp, s),
            _ => CellStep::Ready(None),
        },
        ColumnType::Timestamptz => match v.node {
            JsonNode::Number(Some(ms)) => CellStep::Ready(
                Some(Cell::Timestamptz(micros_of_millis(ms))),
            ),
            JsonNode::Str(s) => CellStep::ParseTime(TimeKind::Timestamptz, s),
            _ => CellStep::Ready(None),
        },
        ColumnType::Json => CellStep::Ready(Some(Cell::Json(v.text))),
    }
}

/// A floating-point cell holds any JSON number, by its text.
pub open spec fn float_cell(v: Json, kind: FloatKind) -> CellStep {
    match v.node {
        JsonNode::Number(_) => CellStep::Ready(Some(Cell::Float(kind, v.text))),
        _ => CellStep::Ready(None),
    }
}

/// The cell of column `col` (of type `ty`) for the record `row`.
///
/// The `attrs` column holds the whole record as JSON; any other column holds
/// the record's member of the same name, NULL when the record has no such
/// member or it is JSON null.
pub open spec fn column_cell(row: Json, col: Seq<char>, ty: ColumnType) -> CellStep {
    if col == "attrs"@ {
        CellStep::Ready(Some(Cell::Json(row.text)))
    } else {
        match row.member(col) {
            None => CellStep::Ready(None),
            Some(v) => match v.node {
                JsonNode::Null => CellStep::Ready(None),
                _ => value_cell(v, ty),
            },
        }
    }
}

fn float_of(v: &Json, kind: FloatKind) -> (r: CellStep)
    ensures
        r == float_cell(*v, kind),
{
    match &v.node {
        JsonNode::Number(_) => CellStep::Ready(Some(Cell::Float(kind, v.text.clone()))),
        _ => CellStep::Ready(None),
    }
}

fn cell_of_value(v: &Json, ty: ColumnType) -> (r: CellStep)
    ensures
        r == value_cell(*v, ty),
{
    match ty {
        ColumnType::Bool => match &v.node {
            JsonNode::Bool(b) => CellStep::Ready(Some(Cell::Bool(*b))),
            _ => CellStep::Ready(None),
        },
        ColumnType::I8 => match &v.node {
            JsonNode::Number(Some(i)) => CellStep::Ready(Some(Cell::I8(*i as i8))),
            _ => CellStep::Ready(None),
        },
        ColumnType::I16 => match &v.node {
            JsonNode::Number(Some(i)) => CellStep::Ready(Some(Cell::I16(*i as i16))),
            _ => CellStep::Ready(None),
        },
        ColumnType::I32 => match &v.node {
            JsonNode::Number(Some(i)) => CellStep::Ready(Some(Cell::I32(*i as i32))),
            _ => CellStep::Ready(None),
        },
        ColumnType::I64 => match &v.node {
            JsonNode::Number(Some(i)) => CellStep::Ready(Some(Cell::I64(*i))),
            _ => CellStep::Ready(None),
        },
        ColumnType::F32 => float_of(v, FloatKind::F32),
        ColumnType::F64 => float_of(v, FloatKind::F64),
        ColumnType::Numeric => float_of(v, FloatKind::Numeric),
        ColumnType::String => match &v.node {
            JsonNode::Str(s) => CellStep::Ready(Some(Cell::String(s.clone()))),
            _ => CellStep::Ready(Some(Cell::String(v.text.clone()))),
        },
        ColumnType::Date => match &v.node {
            JsonNode::Number(Some(ms)) => CellStep::Ready(Some(Cell::Date(*ms / 1000))),
            JsonNode::Str(s) => CellStep::ParseTime(TimeKind::Date, s.clone()),
            _ => CellStep::Ready(None),
        },
        ColumnType::Timestamp => match &v.node {
            JsonNode::Number(Some(ms)) => CellStep::Ready(
                Some(Cell::Timestamp(ms.wrapping_mul(1000))),
            ),
            JsonNode::Str(s) => CellStep::ParseTime(TimeKind::Timestamp, s.clone()),
            _ => CellStep::Ready(None),
        },
        ColumnType::Timestamptz => match &v.node {
            JsonNode::Number(Some(ms)) => CellStep::Ready(
                Some(Cell::Timestamptz(ms.wrapping_mul(1000))),
            ),
            JsonNode::Str(s) => CellStep::ParseTime(TimeKind::Timestamptz, s.clone()),
            _ => CellStep::Ready(None),
        },
        ColumnType::Json => CellStep::Ready(Some(Cell::Json(v.text.clone()))),
    }
}

/// Converts member `col` of the record `row` into a cell of type `ty`.
pub fn src_to_cell(row: &Json, col: &str, ty: ColumnType) -> (r: CellStep)
    ensures
        r == column_cell(*row, col@, ty),
{
    if str_eq(col, "attrs") {
        return CellStep::Ready(Some(Cell::Json(row.text.clone())));
    }
    match row.get(col) {
        None => CellStep::Ready(None),
        Some(v) => match &v.node {
            JsonNode::Null => CellStep::Ready(None),
            _ => cell_of_value(v, ty),
        },
    }
}

/// The cell of a time column whose field was a string, from the outcome of
/// reading that string as an RFC 3339 timestamp in microseconds.  A date
/// holds whole seconds.  A failed read is the conversion's error.
pub fn finish_time_cell(kind: TimeKind, parsed: Result<i64, String>) -> (r: Result<Option<Cell>, String>)
    ensures
        match parsed {
            Err(e) => r == Err::<Option<Cell>, String>(e),
            Ok(us) => r == Ok::<Option<Cell>, String>(Some(
                match kind {
                    TimeKind::Date => Cell::Date(seconds_of_micros(us)),
                    TimeKind::Timestamp => Cell::Timestamp(us),
                    TimeKind::Timestamptz => Cell::Timestamptz(us),
                },
            )),
        },
{
    match parsed {
        Err(e) => Err(e),
        Ok(us) => Ok(Some(
            match kind {
                TimeKind::Date => Cell::Date(us / 1000000),
                TimeKind::Timestamp => Cell::Timestamp(us),
                TimeKind::Timestamptz => Cell::Timestamptz(us),
            },
        )),
    }
}

} // verus!
