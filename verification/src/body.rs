//! Request bodies: the JSON object that a write sends to RevenueCat.

use vstd::prelude::*;
use crate::cell::Cell;
use crate::json::{check_json_text, json_syntax_error};
use crate::text::{concat3, trunc_div};

verus! {

/// One member value of a request body.
#[derive(Debug)]
pub enum BodyValue {
    Bool(bool),
    Int(i64),
    Str(String),
    /// Text that `serde_json` reads as one JSON value; the body holds that value.
    Json(String),
}

/// A request body: a JSON object built by inserting these members in order
/// (a later member with the same key replaces an earlier one).
pub type BodyEntries = Vec<(String, BodyValue)>;

/// The mathematical content of a body value.
pub enum BodyValueView {
    Bool(bool),
    Int(i64),
    Str(Seq<char>),
    Json(Seq<char>),
}

impl View for BodyValue {
    type V = BodyValueView;

    open spec fn view(&self) -> BodyValueView {
        match self {
            BodyValue::Bool(b) => BodyValueView::Bool(*b),
            BodyValue::Int(i) => BodyValueView::Int(*i),
            BodyValue::Str(s) => BodyValueView::Str(s@),
            BodyValue::Json(t) => BodyValueView::Json(t@),
        }
    }
}

/// The members of a body, by their contents.
pub open spec fn entries_view(b: Seq<(String, BodyValue)>) -> Seq<(Seq<char>, BodyValueView)> {
    b.map_values(|e: (String, BodyValue)| (e.0@, e.1@))
}

/// Milliseconds since the epoch from microseconds, rounded toward zero.
pub open spec fn millis_of_micros(us: i64) -> i64 {
    trunc_div(us as int, 1000) as i64
}

pub open spec fn unsupported_write_message(col: Seq<char>) -> Seq<char> {
    "column '"@ + col + "' type not supported for write"@
}

/// The body value that a cell of column `col` is written as, or why it cannot be.
pub open spec fn write_value(col: Seq<char>, cell: Cell) -> Result<BodyValueView, Seq<char>> {
    match cell {
        Cell::Bool(b) => Ok(BodyValueView::Bool(b)),
        Cell::I8(v) => Ok(BodyValueView::Int(v as i64)),
        Cell::I16(v) => Ok(BodyValueView::Int(v as i64)),
        Cell::I32(v) => Ok(BodyValueView::Int(v as i64)),
        Cell::I64(v) => Ok(BodyValueView::Int(v)),
        Cell::String(s) => Ok(BodyValueView::Str(s@)),
        Cell::Timestamp(us) => Ok(BodyValueView::Int(millis_of_micros(us))),
        Cell::Timestamptz(us) => Ok(BodyValueView::Int(millis_of_micros(us))),
        Cell::Json(t) => match json_syntax_error(t@) {
            Some(e) => Err(e),
            None => Ok(BodyValueView::Json(t@)),
        },
        _ => Err(unsupported_write_message(col)),
    }
}

/// The body built from the first `n` columns of a row: each non-NULL cell
/// becomes a member named after its column; the first cell that cannot be
/// written ends it with an error.
pub open spec fn body_prefix(cols: Seq<String>, cells: Seq<Option<Cell>>, n: int) -> Result<
    Seq<(Seq<char>, BodyValueView)>,
    Seq<char>,
>
    decreases n,
{
    if n <= 0 {
        Ok(Seq::empty())
    } else {
        match body_prefix(cols, cells, n - 1) {
            Err(e) => Err(e),
            Ok(entries) => match cells[n - 1] {
                None => Ok(entries),
                Some(c) => match write_value(cols[n - 1]@, c) {
                    Err(e) => Err(e),
                    Ok(v) => Ok(entries.push((cols[n - 1]@, v))),
                },
            },
        }
    }
}

/// The number of (column, cell) pairs of a row.
pub open spec fn pair_count(cols: Seq<String>, cells: Seq<Option<Cell>>) -> int {
    if cols.len() <= cells.len() {
        cols.len() as int
    } else {
        cells.len() as int
    }
}

/// The body of a row: its columns paired with its cells.
pub open spec fn row_body(cols: Seq<String>, cells: Seq<Option<Cell>>) -> Result<
    Seq<(Seq<char>, BodyValueView)>,
    Seq<char>,
> {
    body_prefix(cols, cells, pair_count(cols, cells))
}

fn write_value_of(col: &String, cell: &Cell) -> (r: Result<BodyValue, String>)
    ensures
        match write_value(col@, *cell) {
            Ok(v) => r matches Ok(b) && b@ == v,
            Err(m) => r matches Err(e) && e@ == m,
        },
{
    match cell {
        Cell::Bool(b) => Ok(BodyValue::Bool(*b)),
        Cell::I8(v) => Ok(BodyValue::Int(*v as i64)),
        Cell::I16(v) => Ok(BodyValue::Int(*v as i64)),
        Cell::I32(v) => Ok(BodyValue::Int(*v as i64)),
        Cell::I64(v) => Ok(BodyValue::Int(*v)),
        Cell::String(s) => Ok(BodyValue::Str(s.clone())),
        Cell::Timestamp(us) => Ok(BodyValue::Int(*us / 1000)),
        Cell::Timestamptz(us) => Ok(BodyValue::Int(*us / 1000)),
        Cell::Json(t) => match check_json_text(t.as_str()) {
            Some(e) => Err(e),
            None => Ok(BodyValue::Json(t.clone())),
        },
        _ => Err(concat3("column '", col.as_str(), "' type not supported for write")),
    }
}

/// Converts a row (its column names and cells) into the JSON body of a
/// create request.
pub fn row_to_body(cols: &Vec<String>, cells: &Vec<Option<Cell>>) -> (r: Result<BodyEntries, String>)
    ensures
        match row_body(cols@, cells@) {
            Ok(entries) => r matches Ok(b) && entries_view(b@) == entries,
            Err(m) => r matches Err(e) && e@ == m,
        },
{
    let n = if cols.len() <= cells.len() {
        cols.len()
    } else {
        cells.len()
    };
    let mut entries: BodyEntries = Vec::new();
    let mut i: usize = 0;
    assert(entries_view(entries@) =~= Seq::empty());
    while i < n
        invariant
            n == pair_count(cols@, cells@),
            n <= cols@.len(),
            n <= cells@.len(),
            i <= n,
            body_prefix(cols@, cells@, i as int) == Ok::<Seq<(Seq<char>, BodyValueView)>, Seq<char>>(
                entries_view(entries@),
            ),
        decreases n - i,
    {
        match &cells[i] {
            None => {},
            Some(c) => match write_value_of(&cols[i], c) {
                Err(e) => {
                    proof {
                        lemma_body_error_sticks(cols@, cells@, i as int + 1, n as int);
                    }
                    return Err(e);
                },
                Ok(v) => {
                    let ghost before = entries@;
                    entries.push((cols[i].clone(), v));
                    assert(entries_view(entries@) =~= entries_view(before).push((cols@[i as int]@, v@)));
                },
            },
        }
        i = i + 1;
    }
    Ok(entries)
}

/// Once a prefix of the row fails, every longer prefix fails the same way.
proof fn lemma_body_error_sticks(cols: Seq<String>, cells: Seq<Option<Cell>>, m: int, n: int)
    requires
        0 < m <= n,
        body_prefix(cols, cells, m) is Err,
    ensures
        body_prefix(cols, cells, n) == body_prefix(cols, cells, m),
    decreases n - m,
{
    if n > m {
        lemma_body_error_sticks(cols, cells, m, n - 1);
    }
}

} // verus!
