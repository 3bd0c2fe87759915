use revenuecat_fdw::body::{row_to_body, BodyValue};
use revenuecat_fdw::cell::{src_to_cell, Cell, CellStep, ColumnType, FloatKind};
use revenuecat_fdw::json::{Json, JsonNode};
use revenuecat_fdw::fdw::{check_status, Method, RevenueCatFdw};

fn fdw(object: &str) -> RevenueCatFdw {
    let mut f = RevenueCatFdw::init(None, "proj1".to_string(), "sk");
    f.begin_modify(object.to_string(), "id".to_string());
    f
}

fn names(v: &[&str]) -> Vec<String> {
    v.iter().map(|s| s.to_string()).collect()
}

fn text(s: &str) -> Option<Cell> {
    Some(Cell::String(s.to_string()))
}

fn show(v: &BodyValue) -> String {
    match v {
        BodyValue::Bool(b) => format!("bool {}", b),
        BodyValue::Int(i) => format!("int {}", i),
        BodyValue::Str(s) => format!("str {}", s),
        BodyValue::Json(t) => format!("json {}", t),
    }
}

fn shown(entries: &[(String, BodyValue)]) -> Vec<(String, String)> {
    entries.iter().map(|(k, v)| (k.clone(), show(v))).collect()
}

#[test]
fn row_body_keeps_non_null_cells() {
    let cols = names(&["id", "flag", "n8", "n16", "n32", "n64", "seen", "seen_tz", "meta", "gone"]);
    let cells = vec![
        text("c1"),
        Some(Cell::Bool(false)),
        Some(Cell::I8(-3)),
        Some(Cell::I16(7)),
        Some(Cell::I32(70000)),
        Some(Cell::I64(-9)),
        Some(Cell::Timestamp(1658399423658999)),
        Some(Cell::Timestamptz(-1500)),
        Some(Cell::Json(r#"{"k": [1, 2]}"#.to_string())),
        None,
    ];
    let body = row_to_body(&cols, &cells).unwrap();
    assert_eq!(
        shown(&body),
        vec![
            ("id".to_string(), "str c1".to_string()),
            ("flag".to_string(), "bool false".to_string()),
            ("n8".to_string(), "int -3".to_string()),
            ("n16".to_string(), "int 7".to_string()),
            ("n32".to_string(), "int 70000".to_string()),
            ("n64".to_string(), "int -9".to_string()),
            ("seen".to_string(), "int 1658399423658".to_string()),
            ("seen_tz".to_string(), "int -1".to_string()),
            ("meta".to_string(), r#"json {"k": [1, 2]}"#.to_string()),
        ]
    );
}

#[test]
fn row_body_pairs_columns_with_cells() {
    let body = row_to_body(&names(&["a", "b"]), &vec![text("x")]).unwrap();
    assert_eq!(shown(&body), vec![("a".to_string(), "str x".to_string())]);
}

#[test]
fn row_body_rejects_bad_json_with_serde_message() {
    let expected = serde_json::from_str::<serde_json::Value>("{bad").unwrap_err().to_string();
    let r = row_to_body(&names(&["meta", "price"]), &vec![
        Some(Cell::Json("{bad".to_string())),
        Some(Cell::Float(FloatKind::F64, "1.5".to_string())),
    ]);
    assert_eq!(r.unwrap_err(), expected);
}

#[test]
fn row_body_rejects_floats_and_dates() {
    let r = row_to_body(&names(&["price"]), &vec![Some(Cell::Float(FloatKind::F64, "1.5".to_string()))]);
    assert_eq!(r.unwrap_err(), "column 'price' type not supported for write");
    let r = row_to_body(&names(&["day"]), &vec![Some(Cell::Date(5))]);
    assert_eq!(r.unwrap_err(), "column 'day' type not supported for write");
}

#[test]
fn insert_customer_posts_to_collection() {
    let f = fdw("customers");
    let req = f.plan_insert(&names(&["id"]), &vec![text("wpp_new_customer")]).unwrap();
    assert_eq!(req.method, Method::Post);
    assert_eq!(req.url, "https://api.revenuecat.com/v2/projects/proj1/customers");
    assert_eq!(shown(req.body.as_ref().unwrap()), vec![("id".to_string(), "str wpp_new_customer".to_string())]);
}

#[test]
fn insert_entitlement_and_offering() {
    let f = fdw("entitlements");
    let req = f
        .plan_insert(&names(&["lookup_key", "display_name"]), &vec![text("pro"), text("Pro")])
        .unwrap();
    assert_eq!(req.url, "https://api.revenuecat.com/v2/projects/proj1/entitlements");
    let f = fdw("offerings");
    let req = f.plan_insert(&names(&["lookup_key"]), &vec![text("default")]).unwrap();
    assert_eq!(req.url, "https://api.revenuecat.com/v2/projects/proj1/offerings");
}

#[test]
fn insert_reports_body_errors() {
    let f = fdw("customers");
    let r = f.plan_insert(&names(&["x"]), &vec![Some(Cell::Date(1))]);
    assert_eq!(r.unwrap_err(), "column 'x' type not supported for write");
}

#[test]
fn grant_entitlement() {
    let f = fdw("granted_entitlements");
    let req = f
        .plan_insert(
            &names(&["customer_id", "entitlement_id", "expires_at"]),
            &vec![text("wpp_new_customer"), text("entla1b2c3d4e5"), Some(Cell::Timestamp(1798761600000000))],
        )
        .unwrap();
    assert_eq!(req.method, Method::Post);
    assert_eq!(
        req.url,
        "https://api.revenuecat.com/v2/projects/proj1/customers/wpp_new_customer/actions/grant_entitlement"
    );
    assert_eq!(
        shown(req.body.as_ref().unwrap()),
        vec![
            ("entitlement_id".to_string(), "str entla1b2c3d4e5".to_string()),
            ("expires_at".to_string(), "int 1798761600000".to_string()),
        ]
    );
}

#[test]
fn grant_expiry_forms() {
    let f = fdw("granted_entitlements");
    let cols = names(&["customer_id", "entitlement_id", "expires_at"]);
    let req = f.plan_insert(&cols, &vec![text("c"), text("e"), Some(Cell::I64(42))]).unwrap();
    assert_eq!(shown(req.body.as_ref().unwrap())[1], ("expires_at".to_string(), "int 42".to_string()));
    let req = f.plan_insert(&cols, &vec![text("c"), text("e"), Some(Cell::Timestamptz(42000))]).unwrap();
    assert_eq!(shown(req.body.as_ref().unwrap())[1], ("expires_at".to_string(), "int 42".to_string()));
    let req = f.plan_insert(&cols, &vec![text("c"), text("e"), text("soon")]).unwrap();
    assert_eq!(req.body.as_ref().unwrap().len(), 1);
    let req = f.plan_insert(&names(&["customer_id", "entitlement_id"]), &vec![text("c"), text("e")]).unwrap();
    assert_eq!(req.body.as_ref().unwrap().len(), 1);
}

#[test]
fn grant_needs_customer_and_entitlement() {
    let f = fdw("granted_entitlements");
    let r = f.plan_insert(&names(&["entitlement_id"]), &vec![text("e")]);
    assert_eq!(r.unwrap_err(), "'customer_id' column is required for granted_entitlements INSERT");
    let r = f.plan_insert(&names(&["customer_id", "entitlement_id"]), &vec![text("c"), None]);
    assert_eq!(r.unwrap_err(), "'entitlement_id' column is required for granted_entitlements INSERT");
    let r = f.plan_insert(&names(&["customer_id", "entitlement_id"]), &vec![Some(Cell::I64(1)), text("e")]);
    assert_eq!(r.unwrap_err(), "'customer_id' column is required for granted_entitlements INSERT");
}

#[test]
fn insert_into_read_only_object_fails() {
    let f = fdw("products");
    let r = f.plan_insert(&names(&["id"]), &vec![text("p")]);
    assert_eq!(r.unwrap_err(), "INSERT is not supported for object 'products'");
}

#[test]
fn delete_plain_records() {
    for object in ["customers", "entitlements", "offerings"] {
        let f = fdw(object);
        let req = f.plan_delete(&Cell::String("x1".to_string())).unwrap();
        assert_eq!(req.method, Method::Delete);
        assert_eq!(req.url, format!("https://api.revenuecat.com/v2/projects/proj1/{}/x1", object));
        assert!(req.body.is_none());
    }
}

#[test]
fn revoke_granted_entitlement() {
    let f = fdw("granted_entitlements");
    let req = f.plan_delete(&Cell::String("wpp_new_customer:entla1b2c3d4e5".to_string())).unwrap();
    assert_eq!(req.method, Method::Post);
    assert_eq!(
        req.url,
        "https://api.revenuecat.com/v2/projects/proj1/customers/wpp_new_customer/actions/revoke_granted_entitlement"
    );
    assert_eq!(
        shown(req.body.as_ref().unwrap()),
        vec![("entitlement_id".to_string(), "str entla1b2c3d4e5".to_string())]
    );
    let req = f.plan_delete(&Cell::String("c:e:f".to_string())).unwrap();
    assert_eq!(shown(req.body.as_ref().unwrap())[0].1, "str e:f");
}

#[test]
fn delete_errors() {
    let f = fdw("granted_entitlements");
    let r = f.plan_delete(&Cell::String("no_colon".to_string()));
    assert_eq!(r.unwrap_err(), "granted_entitlements rowid must be 'customer_id:entitlement_id'");
    let r = f.plan_delete(&Cell::I64(3));
    assert_eq!(r.unwrap_err(), "rowid must be a text column");
    let f = fdw("products");
    let r = f.plan_delete(&Cell::String("p".to_string()));
    assert_eq!(r.unwrap_err(), "DELETE is not supported for object 'products'");
    let r = f.plan_delete(&Cell::I64(3));
    assert_eq!(r.unwrap_err(), "rowid must be a text column");
}

#[test]
fn update_is_refused() {
    let f = fdw("customers");
    assert_eq!(
        f.update().unwrap_err(),
        "UPDATE is not supported — RevenueCat API v2 has no general PATCH endpoints"
    );
    assert!(f.end_modify().is_ok());
}

#[test]
fn status_errors_carry_the_body() {
    assert_eq!(check_status(Ok(()), "x"), Ok(()));
    assert_eq!(check_status(Err("HTTP 500".to_string()), "oops"), Err("HTTP 500: oops".to_string()));
}

#[test]
fn timestamp_read_then_written_round_trips() {
    let row = Json {
        text: r#"{"t":1658399423658}"#.to_string(),
        node: JsonNode::Object(vec![(
            "t".to_string(),
            Json { text: "1658399423658".to_string(), node: JsonNode::Number(Some(1658399423658)) },
        )]),
    };
    let cell = match src_to_cell(&row, "t", ColumnType::Timestamp) {
        CellStep::Ready(Some(c)) => c,
        other => panic!("{:?}", other),
    };
    let body = row_to_body(&names(&["t"]), &vec![Some(cell)]).unwrap();
    assert_eq!(shown(&body), vec![("t".to_string(), "int 1658399423658".to_string())]);
}

#[test]
fn grant_and_revoke_target_the_same_entitlement() {
    let f = fdw("granted_entitlements");
    let grant = f
        .plan_insert(&names(&["customer_id", "entitlement_id"]), &vec![text("cust"), text("ent")])
        .unwrap();
    let revoke = f.plan_delete(&Cell::String("cust:ent".to_string())).unwrap();
    assert_eq!(grant.url.replace("grant_entitlement", "revoke_granted_entitlement"), revoke.url);
    assert_eq!(shown(grant.body.as_ref().unwrap()), shown(revoke.body.as_ref().unwrap()));
}
