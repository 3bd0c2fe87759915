//! Properties of the wrapper that span several of its functions.

use vstd::prelude::*;
use crate::body::{BodyValueView, row_body, write_value};
use crate::cell::{Cell, CellStep, ColumnType, column_cell};
use crate::fdw::{
    Method, Qual, QualValue, RevenueCatFdw, customer_action_url, drained, grant_body, grant_expiry,
    has_item_endpoint, is_customer_scoped, lemma_first_eq_qual, item_url, list_url, named_cell, named_text,
    revoke_body,
};
use crate::json::{Json, JsonNode};
use crate::text::{lemma_first_index_of_joined, trunc_div};

verus! {

/// Pagination: from position `idx` of a page, a scan hands out the rest of
/// that page and then every record of every later page, in order; an empty
/// page on the way does not end it, and it ends after the last page.
pub proof fn law_scan_hands_out_every_page(rows: Seq<Json>, idx: int, pages: Seq<Seq<Json>>)
    requires
        0 <= idx <= rows.len(),
    ensures
        drained(rows, idx, pages) == rows.skip(idx) + pages.flatten(),
    decreases pages.len(), rows.len() - idx,
{
    if idx < rows.len() {
        law_scan_hands_out_every_page(rows, idx + 1, pages);
        assert(rows.skip(idx) =~= seq![rows[idx]] + rows.skip(idx + 1));
        assert(seq![rows[idx]] + (rows.skip(idx + 1) + pages.flatten()) =~= seq![rows[idx]]
            + rows.skip(idx + 1) + pages.flatten());
    } else if pages.len() > 0 {
        law_scan_hands_out_every_page(pages[0], 0, pages.drop_first());
        assert(rows.skip(idx) =~= Seq::<Json>::empty());
        assert(pages[0].skip(0) =~= pages[0]);
        assert(pages.flatten() == pages[0] + pages.drop_first().flatten());
        assert(rows.skip(idx) + pages.flatten() =~= pages.flatten());
    } else {
        assert(rows.skip(idx) =~= Seq::<Json>::empty());
        assert(pages.flatten() =~= Seq::<Json>::empty());
        assert(rows.skip(idx) + pages.flatten() =~= Seq::<Json>::empty());
    }
}

/// ID pushdown: with no page in progress, a query whose first condition is
/// `id = '...'` on an object with a single-record endpoint fetches that one
/// record.
pub proof fn law_id_equality_fetches_one_record(fdw: RevenueCatFdw, quals: Seq<Qual>, id: Seq<char>)
    requires
        fdw.url is None,
        has_item_endpoint(fdw.object@),
        quals.len() > 0,
        quals[0].field@ == "id"@,
        quals[0].operator@ == "="@,
        quals[0].value matches QualValue::Text(s) && s@ == id,
    ensures
        fdw.next_request(quals) == Ok::<(Seq<char>, bool), Seq<char>>(
            (item_url(fdw.base_url@, fdw.project_id@, fdw.object@, id), true),
        ),
{
}

/// Only `=` is pushed down: with no page in progress, a query without any `=`
/// condition on an object that is not customer-scoped reads the first page of
/// the whole list.
pub proof fn law_other_operators_read_the_list(fdw: RevenueCatFdw, quals: Seq<Qual>)
    requires
        fdw.url is None,
        !is_customer_scoped(fdw.object@),
        forall|i: int| 0 <= i < quals.len() ==> quals[i].operator@ != "="@,
    ensures
        fdw.next_request(quals) == Ok::<(Seq<char>, bool), Seq<char>>(
            (list_url(fdw.base_url@, fdw.project_id@, fdw.object@), false),
        ),
{
    lemma_first_eq_qual(quals, "id"@);
}

/// Timestamps survive a read and a write: RevenueCat's millisecond value,
/// read into a timestamp cell, is written back as the same milliseconds
/// (for values whose microseconds fit in an `i64`).
pub proof fn law_timestamp_read_then_written_is_unchanged(
    row: Json,
    col: Seq<char>,
    ty: ColumnType,
    ms: i64,
)
    requires
        col != "attrs"@,
        ty == ColumnType::Timestamp || ty == ColumnType::Timestamptz,
        row.member(col) matches Some(v) && v.node == JsonNode::Number(Some(ms)),
        i64::MIN <= ms * 1000 <= i64::MAX,
    ensures
        column_cell(row, col, ty) matches CellStep::Ready(Some(c)) && write_value(col, c) == Ok::<
            BodyValueView,
            Seq<char>,
        >(BodyValueView::Int(ms)),
{
    assert(i64::wrapping_mul(ms, 1000) == ms * 1000) by {
        assert(vstd::wrapping::i64_specs::wrapping_mul(ms, 1000) == ms * 1000);
    }
}

/// A revocation undoes a grant: for a `granted_entitlements` row that can be
/// inserted, deleting the row id `customer_id:entitlement_id` made of its
/// customer and entitlement (a customer id without `:`) revokes that same
/// entitlement from that same customer.
pub proof fn law_revoke_matches_grant(
    fdw: RevenueCatFdw,
    cols: Seq<String>,
    cells: Seq<Option<Cell>>,
    rowid: String,
)
    requires
        fdw.object@ == "granted_entitlements"@,
        named_text(cols, cells, "customer_id"@) matches Some(customer) && !customer.contains(':'),
        named_text(cols, cells, "entitlement_id"@) is Some,
        rowid@ == named_text(cols, cells, "customer_id"@).unwrap() + ":"@ + named_text(
            cols,
            cells,
            "entitlement_id"@,
        ).unwrap(),
    ensures
        ({
            let customer = named_text(cols, cells, "customer_id"@).unwrap();
            let entitlement = named_text(cols, cells, "entitlement_id"@).unwrap();
            let grant = fdw.insert_request(cols, cells);
            let revoke = fdw.delete_request(Cell::String(rowid));
            &&& grant is Ok
            &&& grant->Ok_0.method == Method::Post
            &&& grant->Ok_0.url == customer_action_url(
                fdw.base_url@,
                fdw.project_id@,
                customer,
                "grant_entitlement"@,
            )
            &&& grant->Ok_0.body is Some
            &&& grant->Ok_0.body->Some_0[0] == ("entitlement_id"@, BodyValueView::Str(entitlement))
            &&& revoke is Ok
            &&& revoke->Ok_0.method == Method::Post
            &&& revoke->Ok_0.url == customer_action_url(
                fdw.base_url@,
                fdw.project_id@,
                customer,
                "revoke_granted_entitlement"@,
            )
            &&& revoke->Ok_0.body == Some(revoke_body(entitlement))
        }),
{
    let customer = named_text(cols, cells, "customer_id"@).unwrap();
    let entitlement = named_text(cols, cells, "entitlement_id"@).unwrap();
    reveal_strlit(":");
    reveal_strlit("granted_entitlements");
    reveal_strlit("customers");
    reveal_strlit("entitlements");
    reveal_strlit("offerings");
    assert(":"@ =~= seq![':']);
    lemma_first_index_of_joined(customer, ':', entitlement);
    assert((customer + ":"@ + entitlement).take(customer.len() as int) =~= customer);
    assert((customer + ":"@ + entitlement).skip(customer.len() as int + 1) =~= entitlement);
    assert(grant_body(entitlement, grant_expiry(cols, cells))[0] == (
        "entitlement_id"@,
        BodyValueView::Str(entitlement),
    ));
}

/// Bulk reads: with no page in progress and no `id = ...` condition, a scan
/// of any object other than `subscriptions` and `purchases` starts with the
/// project-level list `{base}/projects/{project}/{object}?limit=100`; no
/// customer filter is asked for.
pub proof fn law_bulk_read_lists_the_project(fdw: RevenueCatFdw, quals: Seq<Qual>)
    requires
        fdw.url is None,
        fdw.object@ != "subscriptions"@,
        fdw.object@ != "purchases"@,
        forall|i: int| 0 <= i < quals.len() ==> quals[i].field@ != "id"@,
    ensures
        fdw.next_request(quals) == Ok::<(Seq<char>, bool), Seq<char>>(
            (
                fdw.base_url@ + "/projects/"@ + fdw.project_id@ + "/"@ + fdw.object@ + "?limit=100"@,
                false,
            ),
        ),
{
    lemma_first_eq_qual(quals, "id"@);
}

/// Customer scoping: with no page in progress and no `id = ...` condition,
/// a scan of `subscriptions` or `purchases` reads the list of the customer of
/// the first `customer_id = '...'` condition,
/// `{base}/projects/{project}/customers/{customer}/{object}?limit=100`, and is
/// refused without such a condition.
pub proof fn law_customer_scoped_reads_per_customer(fdw: RevenueCatFdw, quals: Seq<Qual>)
    requires
        fdw.url is None,
        fdw.object@ == "subscriptions"@ || fdw.object@ == "purchases"@,
        forall|i: int| 0 <= i < quals.len() ==> quals[i].field@ != "id"@,
    ensures
        match eq_filter_text(quals, "customer_id"@) {
            Some(customer) => fdw.next_request(quals) == Ok::<(Seq<char>, bool), Seq<char>>(
                (
                    fdw.base_url@ + "/projects/"@ + fdw.project_id@ + "/"@ + "customers"@ + "/"@
                        + customer + "/"@ + fdw.object@ + "?limit=100"@,
                    false,
                ),
            ),
            None => fdw.next_request(quals) is Err,
        },
{
    lemma_first_eq_qual(quals, "id"@);
}

/// The text of the first `field = '...'` condition, when it is text.
pub open spec fn eq_filter_text(quals: Seq<Qual>, field: Seq<char>) -> Option<Seq<char>> {
    crate::fdw::eq_filter(quals, field)
}

/// ID pushdown: on customers, subscriptions, purchases, products,
/// entitlements and offerings, a scan whose first condition is
/// `id = '...'` fetches that one record from
/// `{base}/projects/{project}/{object}/{id}`.
pub proof fn law_id_pushdown_objects(fdw: RevenueCatFdw, quals: Seq<Qual>, id: Seq<char>)
    requires
        fdw.url is None,
        ({
            let o = fdw.object@;
            ||| o == "customers"@
            ||| o == "subscriptions"@
            ||| o == "purchases"@
            ||| o == "products"@
            ||| o == "entitlements"@
            ||| o == "offerings"@
        }),
        quals.len() > 0,
        quals[0].field@ == "id"@,
        quals[0].operator@ == "="@,
        quals[0].value matches QualValue::Text(s) && s@ == id,
    ensures
        fdw.next_request(quals) == Ok::<(Seq<char>, bool), Seq<char>>(
            (fdw.base_url@ + "/projects/"@ + fdw.project_id@ + "/"@ + fdw.object@ + "/"@ + id, true),
        ),
{
}

/// Booleans are read as they are: a boolean member fills a boolean column
/// with that same boolean, `true` and `false` alike.
pub proof fn law_boolean_field_is_read_as_is(row: Json, col: Seq<char>, b: bool)
    requires
        col != "attrs"@,
        row.member(col) matches Some(v) && v.node == JsonNode::Bool(b),
    ensures
        column_cell(row, col, ColumnType::Bool) == CellStep::Ready(Some(Cell::Bool(b))),
{
}

/// Booleans survive a read and a write: a boolean member read into a boolean
/// cell is written back as the same boolean.
pub proof fn law_boolean_read_then_written_is_unchanged(row: Json, col: Seq<char>, b: bool)
    requires
        col != "attrs"@,
        row.member(col) matches Some(v) && v.node == JsonNode::Bool(b),
    ensures
        column_cell(row, col, ColumnType::Bool) matches CellStep::Ready(Some(c)) && write_value(col, c)
            == Ok::<BodyValueView, Seq<char>>(BodyValueView::Bool(b)),
{
}

/// A row of one boolean, integer or text cell is written as an object with
/// that one member, named after the column, holding the cell's value.
pub proof fn law_single_cell_row_body(col: String, cell: Cell)
    ensures
        match cell {
            Cell::Bool(b) => row_body(seq![col], seq![Some(cell)]) == Ok::<
                Seq<(Seq<char>, BodyValueView)>,
                Seq<char>,
            >(seq![(col@, BodyValueView::Bool(b))]),
            Cell::I64(i) => row_body(seq![col], seq![Some(cell)]) == Ok::<
                Seq<(Seq<char>, BodyValueView)>,
                Seq<char>,
            >(seq![(col@, BodyValueView::Int(i))]),
            Cell::String(t) => row_body(seq![col], seq![Some(cell)]) == Ok::<
                Seq<(Seq<char>, BodyValueView)>,
                Seq<char>,
            >(seq![(col@, BodyValueView::Str(t@))]),
            _ => true,
        },
{
    let cols = seq![col];
    let cells = seq![Some(cell)];
    assert(crate::body::pair_count(cols, cells) == 1);
    assert(crate::body::body_prefix(cols, cells, 0) == Ok::<
        Seq<(Seq<char>, BodyValueView)>,
        Seq<char>,
    >(Seq::empty()));
    assert(cols[0] == col && cells[0] == Some(cell));
    match cell {
        Cell::Bool(b) => {
            assert(Seq::<(Seq<char>, BodyValueView)>::empty().push((col@, BodyValueView::Bool(b)))
                =~= seq![(col@, BodyValueView::Bool(b))]);
        },
        Cell::I64(i) => {
            assert(Seq::<(Seq<char>, BodyValueView)>::empty().push((col@, BodyValueView::Int(i)))
                =~= seq![(col@, BodyValueView::Int(i))]);
        },
        Cell::String(t) => {
            assert(Seq::<(Seq<char>, BodyValueView)>::empty().push((col@, BodyValueView::Str(t@)))
                =~= seq![(col@, BodyValueView::Str(t@))]);
        },
        _ => {},
    }
}

/// A grant's expiry: the body of a grant holds `entitlement_id` and, only
/// when the `expires_at` cell is a timestamp or a 64-bit integer, also
/// `expires_at` in epoch milliseconds (microseconds divided by 1000,
/// rounded toward zero, for timestamps).  A missing or NULL `expires_at`, or
/// a cell of another type, gives a body with `entitlement_id` alone.
pub proof fn law_grant_expiry(fdw: RevenueCatFdw, cols: Seq<String>, cells: Seq<Option<Cell>>)
    requires
        fdw.object@ == "granted_entitlements"@,
        named_text(cols, cells, "customer_id"@) is Some,
        named_text(cols, cells, "entitlement_id"@) is Some,
    ensures
        ({
            let e = named_text(cols, cells, "entitlement_id"@).unwrap();
            let body = fdw.insert_request(cols, cells)->Ok_0.body;
            &&& fdw.insert_request(cols, cells) is Ok
            &&& match named_cell(cols, cells, "expires_at"@) {
                Some(Some(Cell::Timestamp(us))) => body == Some(
                    seq![
                        ("entitlement_id"@, BodyValueView::Str(e)),
                        ("expires_at"@, BodyValueView::Int(trunc_div(us as int, 1000) as i64)),
                    ],
                ),
                Some(Some(Cell::Timestamptz(us))) => body == Some(
                    seq![
                        ("entitlement_id"@, BodyValueView::Str(e)),
                        ("expires_at"@, BodyValueView::Int(trunc_div(us as int, 1000) as i64)),
                    ],
                ),
                Some(Some(Cell::I64(ms))) => body == Some(
                    seq![
                        ("entitlement_id"@, BodyValueView::Str(e)),
                        ("expires_at"@, BodyValueView::Int(ms)),
                    ],
                ),
                _ => body == Some(seq![("entitlement_id"@, BodyValueView::Str(e))]),
            }
        }),
{
    let e = named_text(cols, cells, "entitlement_id"@).unwrap();
    reveal_strlit("granted_entitlements");
    reveal_strlit("customers");
    reveal_strlit("entitlements");
    reveal_strlit("offerings");
    match named_cell(cols, cells, "expires_at"@) {
        Some(Some(Cell::Timestamp(us))) => {
            assert(grant_body(e, grant_expiry(cols, cells)) =~= seq![
                ("entitlement_id"@, BodyValueView::Str(e)),
                ("expires_at"@, BodyValueView::Int(trunc_div(us as int, 1000) as i64)),
            ]);
        },
        Some(Some(Cell::Timestamptz(us))) => {
            assert(grant_body(e, grant_expiry(cols, cells)) =~= seq![
                ("entitlement_id"@, BodyValueView::Str(e)),
                ("expires_at"@, BodyValueView::Int(trunc_div(us as int, 1000) as i64)),
            ]);
        },
        Some(Some(Cell::I64(ms))) => {
            assert(grant_body(e, grant_expiry(cols, cells)) =~= seq![
                ("entitlement_id"@, BodyValueView::Str(e)),
                ("expires_at"@, BodyValueView::Int(ms)),
            ]);
        },
        _ => {
            assert(grant_body(e, grant_expiry(cols, cells)) =~= seq![
                ("entitlement_id"@, BodyValueView::Str(e)),
            ]);
        },
    }
}

/// Integers, text and JSON are read as they are: an integer member fills a
/// 64-bit integer column with that integer, a string member fills a text
/// column with its characters, and any member fills a JSON column with its
/// JSON text.
pub proof fn law_scalar_fields_are_read_as_is(row: Json, col: Seq<char>, v: Json)
    requires
        col != "attrs"@,
        row.member(col) == Some(v),
        !(v.node is Null),
    ensures
        v.node matches JsonNode::Number(Some(i)) ==> column_cell(row, col, ColumnType::I64)
            == CellStep::Ready(Some(Cell::I64(i))),
        v.node matches JsonNode::Str(t) ==> column_cell(row, col, ColumnType::String) matches CellStep::Ready(
            Some(Cell::String(u)),
        ) && u@ == t@,
        column_cell(row, col, ColumnType::Json) matches CellStep::Ready(Some(Cell::Json(u))) && u@
            == v.text@,
{
}

/// Small integers are written as the same integer: an 8-, 16- or 32-bit cell
/// becomes a body integer of equal value.
pub proof fn law_small_integers_are_written_as_is(col: Seq<char>, cell: Cell)
    ensures
        cell matches Cell::I8(v) ==> write_value(col, cell) == Ok::<BodyValueView, Seq<char>>(
            BodyValueView::Int(v as i64),
        ) && (v as i64) as int == v as int,
        cell matches Cell::I16(v) ==> write_value(col, cell) == Ok::<BodyValueView, Seq<char>>(
            BodyValueView::Int(v as i64),
        ) && (v as i64) as int == v as int,
        cell matches Cell::I32(v) ==> write_value(col, cell) == Ok::<BodyValueView, Seq<char>>(
            BodyValueView::Int(v as i64),
        ) && (v as i64) as int == v as int,
{
}

} // verus!
