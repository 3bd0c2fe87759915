//! The wrapper's state and its decisions: which RevenueCat endpoint a scan or
//! a write calls, what a response does to the scan, and which row comes next.

use vstd::prelude::*;
use crate::body::{BodyEntries, BodyValue, BodyValueView, entries_view, millis_of_micros, pair_count, row_body, row_to_body};
use crate::cell::Cell;
use crate::json::{Json, JsonNode};
use crate::text::{concat2, concat3, first_index_of, split_once, starts_with, str_eq};

verus! {

/// State of one wrapper instance.
pub struct RevenueCatFdw {
    /// API root, such as `https://api.revenuecat.com/v2`.
    pub base_url: String,
    pub project_id: String,
    /// The `next_page` cursor of the last page, while there are more pages.
    pub url: Option<String>,
    /// Headers sent with every request.
    pub headers: Vec<(String, String)>,
    /// The RevenueCat object of the foreign table (`customers`, `products`, ...).
    pub object: String,
    /// The records of the current page.
    pub src_rows: Vec<Json>,
    /// Index of the next record of the page to hand out.
    pub src_idx: usize,
    /// The table's row id column.
    pub rowid_col: String,
    /// Whether the request in flight targets a single record.
    pub item_lookup: bool,
}

/// The value a qualifier compares its field with.
#[derive(Debug)]
pub enum QualValue {
    Text(String),
    /// Any other value (a number, a list, ...).
    Other,
}

/// A `WHERE` condition that PostgreSQL offers to push down: `field operator value`.
#[derive(Debug)]
pub struct Qual {
    pub field: String,
    pub operator: String,
    pub value: QualValue,
}

/// What the scan does next.
#[derive(Debug, PartialEq, Eq, Structural)]
pub enum IterStep {
    /// Hand out the record at `src_idx`.
    Emit,
    /// The page is used up (it held this many records) and another page is to be fetched.
    Fetch(usize),
    /// The page is used up (it held this many records) and there are no more pages.
    Done(usize),
}

#[derive(Debug, Clone, Copy, PartialEq, Eq, Structural)]
pub enum Method {
    Get,
    Post,
    Delete,
}

/// An HTTP request for a write.  A `None` body is sent as the empty string;
/// any other body as its JSON object.
#[derive(Debug)]
pub struct Request {
    pub method: Method,
    pub url: String,
    pub body: Option<BodyEntries>,
}

/// The content of a request.
pub struct RequestView {
    pub method: Method,
    pub url: Seq<char>,
    pub body: Option<Seq<(Seq<char>, BodyValueView)>>,
}

impl View for Request {
    type V = RequestView;

    open spec fn view(&self) -> RequestView {
        RequestView {
            method: self.method,
            url: self.url@,
            body: match self.body {
                Some(b) => Some(entries_view(b@)),
                None => None,
            },
        }
    }
}

/// The characters of an optional string.
pub open spec fn opt_view(s: Option<String>) -> Option<Seq<char>> {
    match s {
        Some(t) => Some(t@),
        None => None,
    }
}

pub open spec fn headers_view(h: Seq<(String, String)>) -> Seq<(Seq<char>, Seq<char>)> {
    h.map_values(|p: (String, String)| (p.0@, p.1@))
}

/// The objects that have a single-record endpoint `/{object}/{id}`.
pub open spec fn has_item_endpoint(object: Seq<char>) -> bool {
    ||| object == "customers"@
    ||| object == "subscriptions"@
    ||| object == "purchases"@
    ||| object == "products"@
    ||| object == "entitlements"@
    ||| object == "offerings"@
}

/// The objects that RevenueCat lists only per customer.
pub open spec fn is_customer_scoped(object: Seq<char>) -> bool {
    object == "subscriptions"@ || object == "purchases"@
}

/// The objects that are created with a POST to their collection and removed
/// with a DELETE of `/{object}/{id}`.
pub open spec fn is_plain_writable(object: Seq<char>) -> bool {
    ||| object == "customers"@
    ||| object == "entitlements"@
    ||| object == "offerings"@
}

pub open spec fn collection_url(base: Seq<char>, project: Seq<char>, object: Seq<char>) -> Seq<char> {
    base + "/projects/"@ + project + "/"@ + object
}

/// The first page of a project-level list.
pub open spec fn list_url(base: Seq<char>, project: Seq<char>, object: Seq<char>) -> Seq<char> {
    collection_url(base, project, object) + "?limit=100"@
}

/// The endpoint of a single record.
pub open spec fn item_url(base: Seq<char>, project: Seq<char>, object: Seq<char>, id: Seq<char>) -> Seq<char> {
    collection_url(base, project, object) + "/"@ + id
}

pub open spec fn customer_url(base: Seq<char>, project: Seq<char>, customer: Seq<char>) -> Seq<char> {
    collection_url(base, project, "customers"@) + "/"@ + customer
}

/// The first page of a list that belongs to one customer.
pub open spec fn customer_list_url(
    base: Seq<char>,
    project: Seq<char>,
    customer: Seq<char>,
    object: Seq<char>,
) -> Seq<char> {
    customer_url(base, project, customer) + "/"@ + object + "?limit=100"@
}

/// The endpoint of an action on a customer.
pub open spec fn customer_action_url(
    base: Seq<char>,
    project: Seq<char>,
    customer: Seq<char>,
    action: Seq<char>,
) -> Seq<char> {
    customer_url(base, project, customer) + "/actions/"@ + action
}

/// A `next_page` cursor as a URL: absolute cursors as they are, paths on the API host.
pub open spec fn cursor_url(cursor: Seq<char>) -> Seq<char> {
    if "http"@.len() <= cursor.len() && cursor.take("http"@.len() as int) == "http"@ {
        cursor
    } else {
        "https://api.revenuecat.com"@ + cursor
    }
}

/// Position of the first `field = ...` qualifier.
pub open spec fn first_eq_qual(quals: Seq<Qual>, field: Seq<char>) -> Option<int>
    decreases quals.len(),
{
    if quals.len() == 0 {
        None
    } else if quals[0].field@ == field && quals[0].operator@ == "="@ {
        Some(0)
    } else {
        match first_eq_qual(quals.drop_first(), field) {
            Some(i) => Some(i + 1),
            None => None,
        }
    }
}

/// The text that the first `field = ...` qualifier compares with, when it is text.
pub open spec fn eq_filter(quals: Seq<Qual>, field: Seq<char>) -> Option<Seq<char>> {
    match first_eq_qual(quals, field) {
        Some(i) => match quals[i].value {
            QualValue::Text(s) => Some(s@),
            QualValue::Other => None,
        },
        None => None,
    }
}

pub open spec fn customer_filter_message(object: Seq<char>) -> Seq<char> {
    object + " can only be read per customer: add a WHERE customer_id = '...' condition"@
}

/// Error text for a response whose status is an error.
pub open spec fn status_error_message(err: Seq<char>, body: Seq<char>) -> Seq<char> {
    err + ": "@ + body
}

impl RevenueCatFdw {
    /// The state with every field empty.
    pub open spec fn is_blank(self) -> bool {
        &&& self.base_url@ == Seq::<char>::empty()
        &&& self.project_id@ == Seq::<char>::empty()
        &&& self.url is None
        &&& self.headers@.len() == 0
        &&& self.object@ == Seq::<char>::empty()
        &&& self.src_rows@.len() == 0
        &&& self.src_idx == 0
        &&& self.rowid_col@ == Seq::<char>::empty()
        &&& !self.item_lookup
    }

    /// The first request of a scan: the record's own endpoint when the query
    /// has `id = '...'` and the object has one; otherwise the first page of
    /// the list, per customer for customer-scoped objects (which then need a
    /// `customer_id = '...'` condition).  The flag tells whether the request
    /// targets a single record.
    pub open spec fn first_request(self, quals: Seq<Qual>) -> Result<(Seq<char>, bool), Seq<char>> {
        let base = self.base_url@;
        let project = self.project_id@;
        let object = self.object@;
        match (if has_item_endpoint(object) {
            eq_filter(quals, "id"@)
        } else {
            None
        }) {
            Some(id) => Ok((item_url(base, project, object, id), true)),
            None => if is_customer_scoped(object) {
                match eq_filter(quals, "customer_id"@) {
                    Some(customer) => Ok((customer_list_url(base, project, customer, object), false)),
                    None => Err(customer_filter_message(object)),
                }
            } else {
                Ok((list_url(base, project, object), false))
            },
        }
    }

    /// The next request of a scan: the stored cursor while there is one,
    /// else the first request.
    pub open spec fn next_request(self, quals: Seq<Qual>) -> Result<(Seq<char>, bool), Seq<char>> {
        match self.url {
            Some(cursor) => Ok((cursor_url(cursor@), false)),
            None => self.first_request(quals),
        }
    }
}

/// Position of the first `field = ...` qualifier, as a proof of what `first_eq_qual` finds.
pub proof fn lemma_first_eq_qual(quals: Seq<Qual>, field: Seq<char>)
    ensures
        match first_eq_qual(quals, field) {
            Some(i) => 0 <= i < quals.len() && quals[i].field@ == field && quals[i].operator@ == "="@
                && forall|j: int|
                0 <= j < i ==> !(quals[j].field@ == field && quals[j].operator@ == "="@),
            None => forall|j: int|
                0 <= j < quals.len() ==> !(quals[j].field@ == field && quals[j].operator@ == "="@),
        },
    decreases quals.len(),
{
    if quals.len() > 0 {
        lemma_first_eq_qual(quals.drop_first(), field);
        if !(quals[0].field@ == field && quals[0].operator@ == "="@) {
            assert forall|j: int| 0 < j < quals.len() implies quals[j] == quals.drop_first()[j - 1] by {}
        }
    }
}

/// The text compared with by the first `field = ...` qualifier.
fn eq_filter_of<'a>(quals: &'a Vec<Qual>, field: &str) -> (r: Option<&'a String>)
    ensures
        match r {
            Some(s) => eq_filter(quals@, field@) == Some(s@),
            None => eq_filter(quals@, field@) is None,
        },
{
    proof {
        lemma_first_eq_qual(quals@, field@);
    }
    let n = quals.len();
    let mut i: usize = 0;
    while i < n
        invariant
            n == quals@.len(),
            i <= n,
            forall|j: int|
                0 <= j < i ==> !(quals@[j].field@ == field@ && quals@[j].operator@ == "="@),
            match first_eq_qual(quals@, field@) {
                Some(k) => 0 <= k < quals@.len() && quals@[k].field@ == field@ && quals@[k].operator@
                    == "="@ && forall|j: int|
                    0 <= j < k ==> !(quals@[j].field@ == field@ && quals@[j].operator@ == "="@),
                None => forall|j: int|
                    0 <= j < quals@.len() ==> !(quals@[j].field@ == field@ && quals@[j].operator@
                        == "="@),
            },
        decreases n - i,
    {
        let q = &quals[i];
        if str_eq(q.field.as_str(), field) && str_eq(q.operator.as_str(), "=") {
            return match &q.value {
                QualValue::Text(s) => Some(s),
                QualValue::Other => None,
            };
        }
        i = i + 1;
    }
    None
}

/// Whether `object` is one of the objects with a single-record endpoint.
fn has_item_endpoint_exec(object: &str) -> (r: bool)
    ensures
        r == has_item_endpoint(object@),
{
    str_eq(object, "customers") || str_eq(object, "subscriptions") || str_eq(object, "purchases")
        || str_eq(object, "products") || str_eq(object, "entitlements") || str_eq(object, "offerings")
}

fn is_plain_writable_exec(object: &str) -> (r: bool)
    ensures
        r == is_plain_writable(object@),
{
    str_eq(object, "customers") || str_eq(object, "entitlements") || str_eq(object, "offerings")
}

fn collection_url_of(base: &str, project: &str, object: &str) -> (r: String)
    ensures
        r@ == collection_url(base@, project@, object@),
{
    let mut u = concat3(base, "/projects/", project);
    u.append("/");
    u.append(object);
    u
}

fn customer_url_of(base: &str, project: &str, customer: &str) -> (r: String)
    ensures
        r@ == customer_url(base@, project@, customer@),
{
    let mut u = collection_url_of(base, project, "customers");
    u.append("/");
    u.append(customer);
    u
}

/// The version range of the Wrappers host that this wrapper runs on.
pub fn host_version_requirement() -> (r: String)
    ensures
        r@ == "^0.1.0"@,
{
    "^0.1.0".to_owned()
}

/// The HTTP status error of a response as the wrapper reports it: the host's
/// error text, a colon and the response body.
pub fn check_status(status_check: Result<(), String>, body: &str) -> (r: Result<(), String>)
    ensures
        match status_check {
            Ok(()) => r is Ok,
            Err(err) => r matches Err(m) && m@ == status_error_message(err@, body@),
        },
{
    match status_check {
        Ok(()) => Ok(()),
        Err(err) => Err(concat3(err.as_str(), ": ", body)),
    }
}


/// Whether a response is RevenueCat's "no such record" answer to a
/// single-record request, which the scan reads as an empty result.
pub open spec fn is_missing_record(item_lookup: bool, status: u16, json: Json) -> bool {
    &&& status == 404
    &&& item_lookup
    &&& json.member_str("type"@) == Some("resource_missing"@)
}

/// Whether a response body is a list page `{"object": "list", "items": [...], ...}`.
pub open spec fn is_list_page(json: Json) -> bool {
    json.member_str("object"@) == Some("list"@)
}

/// The records a response holds: the items of a list page (none when it has
/// no item array), else the response itself.
pub open spec fn page_rows(json: Json) -> Seq<Json> {
    if is_list_page(json) {
        match json.member("items"@) {
            Some(items) => match items.node {
                JsonNode::Array(a) => a@,
                _ => Seq::empty(),
            },
            None => Seq::empty(),
        }
    } else {
        seq![json]
    }
}

/// The cursor of the page after a response: the `next_page` string of a list page.
pub open spec fn page_cursor(json: Json) -> Option<Seq<char>> {
    if is_list_page(json) {
        json.member_str("next_page"@)
    } else {
        None
    }
}

/// The scan's next step for a page of `len` records of which `idx` are handed out.
pub open spec fn scan_step(len: int, idx: int, has_cursor: bool) -> IterStep {
    if idx < len {
        IterStep::Emit
    } else if has_cursor {
        IterStep::Fetch(len as usize)
    } else {
        IterStep::Done(len as usize)
    }
}

/// The records a scan hands out from a page `rows` at position `idx` on,
/// when each `Fetch` loads the next of `pages` (a cursor is present exactly
/// while pages are left): the scan follows `scan_step` until it is done.
pub open spec fn drained(rows: Seq<Json>, idx: int, pages: Seq<Seq<Json>>) -> Seq<Json>
    decreases pages.len(), rows.len() - idx,
{
    match scan_step(rows.len() as int, idx, pages.len() > 0) {
        IterStep::Emit => seq![rows[idx]] + drained(rows, idx + 1, pages),
        IterStep::Fetch(_) => drained(pages[0], 0, pages.drop_first()),
        IterStep::Done(_) => Seq::empty(),
    }
}

impl RevenueCatFdw {
    /// The same wrapper apart from its page, its position in it and its cursor.
    pub open spec fn same_setup(self, other: RevenueCatFdw) -> bool {
        &&& self.base_url == other.base_url
        &&& self.project_id == other.project_id
        &&& self.headers == other.headers
        &&& self.object == other.object
        &&& self.rowid_col == other.rowid_col
        &&& self.item_lookup == other.item_lookup
    }
}

/// Position of the first column named `name`.
pub open spec fn first_column(cols: Seq<String>, name: Seq<char>) -> Option<int>
    decreases cols.len(),
{
    if cols.len() == 0 {
        None
    } else if cols[0]@ == name {
        Some(0)
    } else {
        match first_column(cols.drop_first(), name) {
            Some(i) => Some(i + 1),
            None => None,
        }
    }
}

pub proof fn lemma_first_column(cols: Seq<String>, name: Seq<char>)
    ensures
        match first_column(cols, name) {
            Some(i) => 0 <= i < cols.len() && cols[i]@ == name && forall|j: int|
                0 <= j < i ==> cols[j]@ != name,
            None => forall|j: int| 0 <= j < cols.len() ==> cols[j]@ != name,
        },
    decreases cols.len(),
{
    if cols.len() > 0 {
        lemma_first_column(cols.drop_first(), name);
        if cols[0]@ != name {
            assert forall|j: int| 0 < j < cols.len() implies cols[j] == cols.drop_first()[j - 1] by {}
        }
    }
}

/// The cell of the first column named `name` among a row's (column, cell) pairs.
pub open spec fn named_cell(cols: Seq<String>, cells: Seq<Option<Cell>>, name: Seq<char>) -> Option<
    Option<Cell>,
> {
    match first_column(cols.take(pair_count(cols, cells)), name) {
        Some(i) => Some(cells[i]),
        None => None,
    }
}

/// The text of column `name` when its first occurrence holds text.
pub open spec fn named_text(cols: Seq<String>, cells: Seq<Option<Cell>>, name: Seq<char>) -> Option<
    Seq<char>,
> {
    match named_cell(cols, cells, name) {
        Some(Some(Cell::String(s))) => Some(s@),
        _ => None,
    }
}

/// The expiry, in epoch milliseconds, given in the `expires_at` column of a grant.
pub open spec fn grant_expiry(cols: Seq<String>, cells: Seq<Option<Cell>>) -> Option<i64> {
    match named_cell(cols, cells, "expires_at"@) {
        Some(Some(Cell::Timestamp(us))) => Some(millis_of_micros(us)),
        Some(Some(Cell::Timestamptz(us))) => Some(millis_of_micros(us)),
        Some(Some(Cell::I64(ms))) => Some(ms),
        _ => None,
    }
}

/// The body of an entitlement grant.
pub open spec fn grant_body(entitlement: Seq<char>, expiry: Option<i64>) -> Seq<
    (Seq<char>, BodyValueView),
> {
    seq![("entitlement_id"@, BodyValueView::Str(entitlement))] + match expiry {
        Some(ms) => seq![("expires_at"@, BodyValueView::Int(ms))],
        None => Seq::empty(),
    }
}

/// The body of an entitlement revocation.
pub open spec fn revoke_body(entitlement: Seq<char>) -> Seq<(Seq<char>, BodyValueView)> {
    seq![("entitlement_id"@, BodyValueView::Str(entitlement))]
}


impl RevenueCatFdw {
    /// The request that inserts a row: a POST of the row to the collection of
    /// customers, entitlements and offerings; for `granted_entitlements`, a
    /// grant action on the row's customer with its entitlement and optional
    /// expiry.  Other objects cannot be inserted into.
    pub open spec fn insert_request(self, cols: Seq<String>, cells: Seq<Option<Cell>>) -> Result<
        RequestView,
        Seq<char>,
    > {
        let base = self.base_url@;
        let project = self.project_id@;
        let object = self.object@;
        if is_plain_writable(object) {
            match row_body(cols, cells) {
                Ok(b) => Ok(
                    RequestView {
                        method: Method::Post,
                        url: collection_url(base, project, object),
                        body: Some(b),
                    },
                ),
                Err(e) => Err(e),
            }
        } else if object == "granted_entitlements"@ {
            match named_text(cols, cells, "customer_id"@) {
                None => Err("'customer_id' column is required for granted_entitlements INSERT"@),
                Some(customer) => match named_text(cols, cells, "entitlement_id"@) {
                    None => Err("'entitlement_id' column is required for granted_entitlements INSERT"@),
                    Some(entitlement) => Ok(
                        RequestView {
                            method: Method::Post,
                            url: customer_action_url(base, project, customer, "grant_entitlement"@),
                            body: Some(grant_body(entitlement, grant_expiry(cols, cells))),
                        },
                    ),
                },
            }
        } else {
            Err("INSERT is not supported for object '"@ + object + "'"@)
        }
    }

    /// The request that deletes the row with id `rowid`: a DELETE of the
    /// record for customers, entitlements and offerings; for
    /// `granted_entitlements`, whose row id is `customer_id:entitlement_id`,
    /// a revoke action on that customer.  The row id must be text.
    pub open spec fn delete_request(self, rowid: Cell) -> Result<RequestView, Seq<char>> {
        let base = self.base_url@;
        let project = self.project_id@;
        let object = self.object@;
        match rowid {
            Cell::String(id) => if is_plain_writable(object) {
                Ok(RequestView { method: Method::Delete, url: item_url(base, project, object, id@), body: None })
            } else if object == "granted_entitlements"@ {
                match first_index_of(id@, ':') {
                    None => Err("granted_entitlements rowid must be 'customer_id:entitlement_id'"@),
                    Some(k) => Ok(
                        RequestView {
                            method: Method::Post,
                            url: customer_action_url(
                                base,
                                project,
                                id@.take(k),
                                "revoke_granted_entitlement"@,
                            ),
                            body: Some(revoke_body(id@.skip(k + 1))),
                        },
                    ),
                }
            } else {
                Err("DELETE is not supported for object '"@ + object + "'"@)
            },
            _ => Err("rowid must be a text column"@),
        }
    }
}

/// Index of the first column named `name` among the (column, cell) pairs.
fn find_column(cols: &Vec<String>, cells: &Vec<Option<Cell>>, name: &str) -> (r: Option<usize>)
    ensures
        match r {
            Some(j) => first_column(cols@.take(pair_count(cols@, cells@)), name@) == Some(j as int)
                && j < cols@.len() && j < cells@.len(),
            None => first_column(cols@.take(pair_count(cols@, cells@)), name@) is None,
        },
{
    let n = if cols.len() <= cells.len() {
        cols.len()
    } else {
        cells.len()
    };
    let ghost pairs = cols@.take(n as int);
    proof {
        lemma_first_column(pairs, name@);
    }
    let mut i: usize = 0;
    while i < n
        invariant
            n == pair_count(cols@, cells@),
            n <= cols@.len(),
            n <= cells@.len(),
            pairs == cols@.take(n as int),
            forall|j: int| 0 <= j < n ==> pairs[j] == cols@[j],
            i <= n,
            forall|j: int| 0 <= j < i ==> cols@[j]@ != name@,
            match first_column(pairs, name@) {
                Some(k) => 0 <= k < pairs.len() && pairs[k]@ == name@ && forall|j: int|
                    0 <= j < k ==> pairs[j]@ != name@,
                None => forall|j: int| 0 <= j < pairs.len() ==> pairs[j]@ != name@,
            },
        decreases n - i,
    {
        if str_eq(cols[i].as_str(), name) {
            assert(pairs[i as int] == cols@[i as int]);
            return Some(i);
        }
        i = i + 1;
    }
    None
}

/// The text of column `name` when its first occurrence holds text.
fn named_text_of<'a>(cols: &Vec<String>, cells: &'a Vec<Option<Cell>>, name: &str) -> (r: Option<&'a String>)
    ensures
        match r {
            Some(s) => named_text(cols@, cells@, name@) == Some(s@),
            None => named_text(cols@, cells@, name@) is None,
        },
{
    match find_column(cols, cells, name) {
        Some(i) => match &cells[i] {
            Some(Cell::String(s)) => Some(s),
            _ => None,
        },
        None => None,
    }
}

impl RevenueCatFdw {
    /// A wrapper with every field empty.
    pub fn new() -> (r: Self)
        ensures
            r.is_blank(),
    {
        RevenueCatFdw {
            base_url: String::new(),
            project_id: String::new(),
            url: None,
            headers: Vec::new(),
            object: String::new(),
            src_rows: Vec::new(),
            src_idx: 0,
            rowid_col: String::new(),
            item_lookup: false,
        }
    }

    /// A wrapper for the server options: the API root (RevenueCat's v2 API
    /// unless `api_url` is given), the project, and the API key, which goes
    /// into an `authorization: Bearer` header beside the user agent and the
    /// JSON content type.
    pub fn init(api_url: Option<String>, project_id: String, api_key: &str) -> (r: Self)
        ensures
            r.base_url@ == match api_url {
                Some(u) => u@,
                None => "https://api.revenuecat.com/v2"@,
            },
            r.project_id == project_id,
            headers_view(r.headers@) == seq![
                ("user-agent"@, "WordPuppi RevenueCat FDW"@),
                ("content-type"@, "application/json"@),
                ("authorization"@, "Bearer "@ + api_key@),
            ],
            r.url is None,
            r.object@ == Seq::<char>::empty(),
            r.src_rows@.len() == 0,
            r.src_idx == 0,
            r.rowid_col@ == Seq::<char>::empty(),
            !r.item_lookup,
    {
        let base_url = match api_url {
            Some(u) => u,
            None => "https://api.revenuecat.com/v2".to_owned(),
        };
        let mut headers: Vec<(String, String)> = Vec::new();
        headers.push(("user-agent".to_owned(), "WordPuppi RevenueCat FDW".to_owned()));
        headers.push(("content-type".to_owned(), "application/json".to_owned()));
        headers.push(("authorization".to_owned(), concat2("Bearer ", api_key)));
        let r = RevenueCatFdw {
            base_url,
            project_id,
            url: None,
            headers,
            object: String::new(),
            src_rows: Vec::new(),
            src_idx: 0,
            rowid_col: String::new(),
            item_lookup: false,
        };
        assert(headers_view(r.headers@) =~= seq![
            ("user-agent"@, "WordPuppi RevenueCat FDW"@),
            ("content-type"@, "application/json"@),
            ("authorization"@, "Bearer "@ + api_key@),
        ]);
        r
    }

    /// Whether the table's object has a single-record endpoint, so that
    /// `id = '...'` can be pushed down.
    pub fn can_pushdown_id(&self) -> (r: bool)
        ensures
            r == has_item_endpoint(self.object@),
    {
        has_item_endpoint_exec(self.object.as_str())
    }

    /// The first page of the list of `object`.
    pub fn list_url(&self, object: &str) -> (r: String)
        ensures
            r@ == list_url(self.base_url@, self.project_id@, object@),
    {
        let mut u = collection_url_of(self.base_url.as_str(), self.project_id.as_str(), object);
        u.append("?limit=100");
        u
    }

    /// The endpoint of record `id` of `object`.
    pub fn item_url(&self, object: &str, id: &str) -> (r: String)
        ensures
            r@ == item_url(self.base_url@, self.project_id@, object@, id@),
    {
        let mut u = collection_url_of(self.base_url.as_str(), self.project_id.as_str(), object);
        u.append("/");
        u.append(id);
        u
    }

    /// The URL of the next page or record to fetch for the scan, given the
    /// query's qualifiers; it records whether that request targets a single
    /// record.  Only `=` conditions are pushed down.
    pub fn plan_request(&mut self, quals: &Vec<Qual>) -> (r: Result<String, String>)
        ensures
            match old(self).next_request(quals@) {
                Ok((u, item)) => r matches Ok(s) && s@ == u && *final(self) == (RevenueCatFdw {
                    item_lookup: item,
                    ..*old(self)
                }),
                Err(m) => r matches Err(e) && e@ == m && *final(self) == *old(self),
            },
    {
        match &self.url {
            Some(cursor) => {
                let u = if starts_with(cursor.as_str(), "http") {
                    cursor.clone()
                } else {
                    concat2("https://api.revenuecat.com", cursor.as_str())
                };
                self.item_lookup = false;
                return Ok(u);
            },
            None => {},
        }
        let id = if self.can_pushdown_id() {
            eq_filter_of(quals, "id")
        } else {
            None
        };
        match id {
            Some(id) => {
                let u = self.item_url(self.object.as_str(), id.as_str());
                self.item_lookup = true;
                Ok(u)
            },
            None => {
                let scoped = str_eq(self.object.as_str(), "subscriptions") || str_eq(
                    self.object.as_str(),
                    "purchases",
                );
                if scoped {
                    match eq_filter_of(quals, "customer_id") {
                        Some(customer) => {
                            let mut u = customer_url_of(
                                self.base_url.as_str(),
                                self.project_id.as_str(),
                                customer.as_str(),
                            );
                            u.append("/");
                            u.append(self.object.as_str());
                            u.append("?limit=100");
                            self.item_lookup = false;
                            Ok(u)
                        },
                        None => Err(concat2(
                            self.object.as_str(),
                            " can only be read per customer: add a WHERE customer_id = '...' condition",
                        )),
                    }
                } else {
                    let u = self.list_url(self.object.as_str());
                    self.item_lookup = false;
                    Ok(u)
                }
            },
        }
    }

    /// Starts a scan of `object`: forgets any cursor and plans the first request.
    pub fn begin_scan(&mut self, object: String, quals: &Vec<Qual>) -> (r: Result<String, String>)
        ensures
            ({
                let started = RevenueCatFdw { object: object, url: None, ..*old(self) };
                match started.first_request(quals@) {
                    Ok((u, item)) => r matches Ok(s) && s@ == u && *final(self) == (
                    RevenueCatFdw { item_lookup: item, ..started }),
                    Err(m) => r matches Err(e) && e@ == m && *final(self) == started,
                }
            }),
    {
        self.object = object;
        self.url = None;
        self.plan_request(quals)
    }

    /// Restarts the scan from its first request.
    pub fn re_scan(&mut self, quals: &Vec<Qual>) -> (r: Result<String, String>)
        ensures
            ({
                let restarted = RevenueCatFdw { url: None, ..*old(self) };
                match restarted.first_request(quals@) {
                    Ok((u, item)) => r matches Ok(s) && s@ == u && *final(self) == (
                    RevenueCatFdw { item_lookup: item, ..restarted }),
                    Err(m) => r matches Err(e) && e@ == m && *final(self) == restarted,
                }
            }),
    {
        self.url = None;
        self.plan_request(quals)
    }
    /// Takes in the response to the scan's request: `status` and `body` as
    /// received, `parsed` the body read as JSON (or the reader's error), and
    /// `status_check` the host's verdict on the status.
    ///
    /// A body that is not JSON is an error.  A 404 "resource_missing" answer
    /// to a single-record request empties the scan (`Ok(false)`); any other
    /// error status is an error.  Otherwise the response becomes the current
    /// page (`Ok(true)`): the items of a list page with its `next_page` cursor,
    /// or the single record.
    pub fn apply_response(
        &mut self,
        status: u16,
        body: &str,
        parsed: Result<Json, String>,
        status_check: Result<(), String>,
    ) -> (r: Result<bool, String>)
        ensures
            match parsed {
                Err(e) => r == Err::<bool, String>(e) && *final(self) == *old(self),
                Ok(json) => if is_missing_record(old(self).item_lookup, status, json) {
                    &&& r == Ok::<bool, String>(false)
                    &&& final(self).src_rows@.len() == 0
                    &&& final(self).src_idx == 0
                    &&& final(self).url is None
                    &&& final(self).same_setup(*old(self))
                } else {
                    match status_check {
                        Err(err) => r matches Err(m) && m@ == status_error_message(err@, body@)
                            && *final(self) == *old(self),
                        Ok(()) => {
                            &&& r == Ok::<bool, String>(true)
                            &&& final(self).src_rows@ == page_rows(json)
                            &&& final(self).src_idx == 0
                            &&& opt_view(final(self).url) == page_cursor(json)
                            &&& final(self).same_setup(*old(self))
                        },
                    }
                },
            },
    {
        let json = match parsed {
            Err(e) => return Err(e),
            Ok(j) => j,
        };
        if status == 404 && self.item_lookup {
            let missing = match json.get_str("type") {
                Some(t) => str_eq(t.as_str(), "resource_missing"),
                None => false,
            };
            if missing {
                self.src_rows = Vec::new();
                self.src_idx = 0;
                self.url = None;
                return Ok(false);
            }
        }
        match check_status(status_check, body) {
            Err(m) => return Err(m),
            Ok(()) => {},
        }
        let is_list = match json.get_str("object") {
            Some(t) => str_eq(t.as_str(), "list"),
            None => false,
        };
        if is_list {
            let next = match json.get_str("next_page") {
                Some(s) => Some(s.clone()),
                None => None,
            };
            let rows = match json.into_member("items") {
                Some(items) => match items.node {
                    JsonNode::Array(a) => a,
                    _ => Vec::new(),
                },
                None => Vec::new(),
            };
            self.src_rows = rows;
            self.url = next;
        } else {
            let mut rows: Vec<Json> = Vec::new();
            rows.push(json);
            self.src_rows = rows;
            self.url = None;
        }
        self.src_idx = 0;
        Ok(true)
    }

    /// What the scan does next: hand out the next record of the page, or,
    /// when the page is used up, fetch the next page while there is a cursor
    /// (an empty page in between does not end the scan) and stop otherwise.
    pub fn iter_step(&self) -> (r: IterStep)
        ensures
            r == scan_step(self.src_rows@.len() as int, self.src_idx as int, self.url is Some),
    {
        if self.src_idx < self.src_rows.len() {
            IterStep::Emit
        } else if self.url.is_some() {
            IterStep::Fetch(self.src_rows.len())
        } else {
            IterStep::Done(self.src_rows.len())
        }
    }

    /// The record to hand out next.
    pub fn current_row(&self) -> (r: &Json)
        requires
            self.src_idx < self.src_rows@.len(),
        ensures
            *r == self.src_rows@[self.src_idx as int],
    {
        &self.src_rows[self.src_idx]
    }

    /// Moves past the record just handed out.
    pub fn finish_row(&mut self)
        requires
            old(self).src_idx < old(self).src_rows@.len(),
        ensures
            *final(self) == (RevenueCatFdw { src_idx: (old(self).src_idx + 1) as usize, ..*old(self) }),
    {
        let n = self.src_rows.len();
        assert(self.src_idx < n);
        self.src_idx = self.src_idx + 1;
    }

    /// Ends the scan: drops the page.  The cursor stays as it is.
    pub fn end_scan(&mut self)
        ensures
            final(self).src_rows@.len() == 0,
            final(self).src_idx == 0,
            final(self).url == old(self).url,
            final(self).same_setup(*old(self)),
    {
        self.src_rows.clear();
        self.src_idx = 0;
    }
    /// Prepares a write to `object`, whose rows are identified by `rowid_col`.
    pub fn begin_modify(&mut self, object: String, rowid_col: String)
        ensures
            *final(self) == (RevenueCatFdw { object: object, rowid_col: rowid_col, ..*old(self) }),
    {
        self.object = object;
        self.rowid_col = rowid_col;
    }

    /// The request that inserts the row with these columns and cells.
    pub fn plan_insert(&self, cols: &Vec<String>, cells: &Vec<Option<Cell>>) -> (r: Result<Request, String>)
        ensures
            match self.insert_request(cols@, cells@) {
                Ok(q) => r matches Ok(req) && req@ == q,
                Err(m) => r matches Err(e) && e@ == m,
            },
    {
        if is_plain_writable_exec(self.object.as_str()) {
            let body = row_to_body(cols, cells)?;
            let url = collection_url_of(self.base_url.as_str(), self.project_id.as_str(), self.object.as_str());
            return Ok(Request { method: Method::Post, url, body: Some(body) });
        }
        if !str_eq(self.object.as_str(), "granted_entitlements") {
            return Err(concat3("INSERT is not supported for object '", self.object.as_str(), "'"));
        }
        let customer = match named_text_of(cols, cells, "customer_id") {
            Some(c) => c,
            None => return Err("'customer_id' column is required for granted_entitlements INSERT".to_owned()),
        };
        let entitlement = match named_text_of(cols, cells, "entitlement_id") {
            Some(e) => e,
            None => return Err(
                "'entitlement_id' column is required for granted_entitlements INSERT".to_owned(),
            ),
        };
        let expiry: Option<i64> = match find_column(cols, cells, "expires_at") {
            Some(i) => match &cells[i] {
                Some(Cell::Timestamp(us)) => Some(*us / 1000),
                Some(Cell::Timestamptz(us)) => Some(*us / 1000),
                Some(Cell::I64(ms)) => Some(*ms),
                _ => None,
            },
            None => None,
        };
        let mut url = customer_url_of(self.base_url.as_str(), self.project_id.as_str(), customer.as_str());
        url.append("/actions/");
        url.append("grant_entitlement");
        let mut body: BodyEntries = Vec::new();
        body.push(("entitlement_id".to_owned(), BodyValue::Str(entitlement.clone())));
        match expiry {
            Some(ms) => body.push(("expires_at".to_owned(), BodyValue::Int(ms))),
            None => {},
        }
        assert(entries_view(body@) =~= grant_body(entitlement@, expiry));
        Ok(Request { method: Method::Post, url, body: Some(body) })
    }

    /// Updates are refused: RevenueCat's v2 API has no general update endpoint.
    pub fn update(&self) -> (r: Result<(), String>)
        ensures
            r matches Err(e) && e@
                == "UPDATE is not supported — RevenueCat API v2 has no general PATCH endpoints"@,
    {
        Err("UPDATE is not supported — RevenueCat API v2 has no general PATCH endpoints".to_owned())
    }

    /// The request that deletes the row with id `rowid`.
    pub fn plan_delete(&self, rowid: &Cell) -> (r: Result<Request, String>)
        ensures
            match self.delete_request(*rowid) {
                Ok(q) => r matches Ok(req) && req@ == q,
                Err(m) => r matches Err(e) && e@ == m,
            },
    {
        let id = match rowid {
            Cell::String(s) => s,
            _ => return Err("rowid must be a text column".to_owned()),
        };
        if is_plain_writable_exec(self.object.as_str()) {
            let mut url = collection_url_of(self.base_url.as_str(), self.project_id.as_str(), self.object.as_str());
            url.append("/");
            url.append(id.as_str());
            return Ok(Request { method: Method::Delete, url, body: None });
        }
        if !str_eq(self.object.as_str(), "granted_entitlements") {
            return Err(concat3("DELETE is not supported for object '", self.object.as_str(), "'"));
        }
        match split_once(id.as_str(), ':') {
            None => Err("granted_entitlements rowid must be 'customer_id:entitlement_id'".to_owned()),
            Some((customer, entitlement)) => {
                let mut url = customer_url_of(self.base_url.as_str(), self.project_id.as_str(), customer.as_str());
                url.append("/actions/");
                url.append("revoke_granted_entitlement");
                let ghost ent = entitlement@;
                let mut body: BodyEntries = Vec::new();
                body.push(("entitlement_id".to_owned(), BodyValue::Str(entitlement)));
                assert(entries_view(body@) =~= revoke_body(ent));
                Ok(Request { method: Method::Post, url, body: Some(body) })
            },
        }
    }

    /// Ends a write; nothing is left to do.
    pub fn end_modify(&self) -> (r: Result<(), String>)
        ensures
            r is Ok,
    {
        Ok(())
    }
}

} // verus!
