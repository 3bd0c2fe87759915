use revenuecat_fdw::fdw::{host_version_requirement, IterStep, Qual, QualValue, RevenueCatFdw};
use revenuecat_fdw::json::{Json, JsonNode};
use serde_json::Value;

fn model(v: Value) -> Json {
    let text = v.to_string();
    let node = match v {
        Value::Null => JsonNode::Null,
        Value::Bool(b) => JsonNode::Bool(b),
        Value::Number(n) => JsonNode::Number(n.as_i64()),
        Value::String(s) => JsonNode::Str(s),
        Value::Array(a) => JsonNode::Array(a.into_iter().map(model).collect()),
        Value::Object(m) => JsonNode::Object(m.into_iter().map(|(k, x)| (k, model(x))).collect()),
    };
    Json { text, node }
}

fn json(text: &str) -> Json {
    model(serde_json::from_str(text).unwrap())
}

fn qual(field: &str, op: &str, value: &str) -> Qual {
    Qual {
        field: field.to_string(),
        operator: op.to_string(),
        value: QualValue::Text(value.to_string()),
    }
}

fn fdw() -> RevenueCatFdw {
    RevenueCatFdw::init(None, "proj1".to_string(), "sk_test")
}

fn row_ids(f: &RevenueCatFdw) -> Vec<String> {
    f.src_rows
        .iter()
        .map(|r| match r.get_str("id") {
            Some(s) => s.clone(),
            None => String::new(),
        })
        .collect()
}

#[test]
fn host_version_is_0_1() {
    assert_eq!(host_version_requirement(), "^0.1.0");
}

#[test]
fn init_sets_default_api_and_headers() {
    let f = fdw();
    assert_eq!(f.base_url, "https://api.revenuecat.com/v2");
    assert_eq!(f.project_id, "proj1");
    assert_eq!(
        f.headers,
        vec![
            ("user-agent".to_string(), "WordPuppi RevenueCat FDW".to_string()),
            ("content-type".to_string(), "application/json".to_string()),
            ("authorization".to_string(), "Bearer sk_test".to_string()),
        ]
    );
    assert!(f.url.is_none());
    assert!(f.src_rows.is_empty());
}

#[test]
fn init_keeps_given_api_url() {
    let f = RevenueCatFdw::init(Some("http://localhost:8080/v2".to_string()), "p".to_string(), "k");
    assert_eq!(f.base_url, "http://localhost:8080/v2");
    assert_eq!(f.list_url("products"), "http://localhost:8080/v2/projects/p/products?limit=100");
}

#[test]
fn new_is_blank() {
    let f = RevenueCatFdw::new();
    assert_eq!(f.base_url, "");
    assert!(f.headers.is_empty());
    assert_eq!(f.src_idx, 0);
}

#[test]
fn list_and_item_urls() {
    let f = fdw();
    assert_eq!(f.list_url("customers"), "https://api.revenuecat.com/v2/projects/proj1/customers?limit=100");
    assert_eq!(
        f.item_url("customers", "user_12345"),
        "https://api.revenuecat.com/v2/projects/proj1/customers/user_12345"
    );
}

#[test]
fn id_equality_is_pushed_down() {
    let mut f = fdw();
    let url = f.begin_scan("customers".to_string(), &vec![qual("id", "=", "user_12345")]).unwrap();
    assert_eq!(url, "https://api.revenuecat.com/v2/projects/proj1/customers/user_12345");
    assert!(f.item_lookup);
    assert!(f.can_pushdown_id());
}

#[test]
fn other_operators_are_not_pushed_down() {
    let mut f = fdw();
    for op in ["!=", "<>", ">", "like"] {
        let url = f.begin_scan("products".to_string(), &vec![qual("id", op, "prod1")]).unwrap();
        assert_eq!(url, "https://api.revenuecat.com/v2/projects/proj1/products?limit=100");
        assert!(!f.item_lookup);
    }
}

#[test]
fn id_of_object_without_item_endpoint_lists() {
    let mut f = fdw();
    let url = f.begin_scan("granted_entitlements".to_string(), &vec![qual("id", "=", "a:b")]).unwrap();
    assert_eq!(url, "https://api.revenuecat.com/v2/projects/proj1/granted_entitlements?limit=100");
    assert!(!f.can_pushdown_id());
}

#[test]
fn non_text_id_lists() {
    let mut f = fdw();
    let q = Qual { field: "id".to_string(), operator: "=".to_string(), value: QualValue::Other };
    let url = f.begin_scan("customers".to_string(), &vec![q]).unwrap();
    assert_eq!(url, "https://api.revenuecat.com/v2/projects/proj1/customers?limit=100");
}

#[test]
fn subscriptions_are_read_per_customer() {
    let mut f = fdw();
    let url = f
        .begin_scan("subscriptions".to_string(), &vec![qual("customer_id", "=", "cust123")])
        .unwrap();
    assert_eq!(
        url,
        "https://api.revenuecat.com/v2/projects/proj1/customers/cust123/subscriptions?limit=100"
    );
    assert!(!f.item_lookup);
    let url = f.begin_scan("purchases".to_string(), &vec![qual("customer_id", "=", "c9")]).unwrap();
    assert_eq!(url, "https://api.revenuecat.com/v2/projects/proj1/customers/c9/purchases?limit=100");
}

#[test]
fn subscriptions_without_customer_filter_fail() {
    let mut f = fdw();
    let err = f.begin_scan("subscriptions".to_string(), &vec![qual("customer_id", "<>", "c")]).unwrap_err();
    assert_eq!(err, "subscriptions can only be read per customer: add a WHERE customer_id = '...' condition");
}

#[test]
fn subscription_by_id_uses_item_endpoint() {
    let mut f = fdw();
    let url = f.begin_scan("subscriptions".to_string(), &vec![qual("id", "=", "sub1")]).unwrap();
    assert_eq!(url, "https://api.revenuecat.com/v2/projects/proj1/subscriptions/sub1");
}

#[test]
fn cursor_urls() {
    let mut f = fdw();
    f.url = Some("/v2/projects/proj1/customers?starting_after=x".to_string());
    assert_eq!(
        f.plan_request(&vec![]).unwrap(),
        "https://api.revenuecat.com/v2/projects/proj1/customers?starting_after=x"
    );
    f.url = Some("https://example.com/next".to_string());
    assert_eq!(f.plan_request(&vec![qual("id", "=", "z")]).unwrap(), "https://example.com/next");
    assert!(!f.item_lookup);
}

#[test]
fn list_page_is_loaded_with_cursor() {
    let mut f = fdw();
    f.begin_scan("customers".to_string(), &vec![]).unwrap();
    let body = r#"{"object":"list","items":[{"id":"a"},{"id":"b"}],"next_page":"/v2/next"}"#;
    assert_eq!(f.apply_response(200, body, Ok(json(body)), Ok(())), Ok(true));
    assert_eq!(row_ids(&f), vec!["a", "b"]);
    assert_eq!(f.url.as_deref(), Some("/v2/next"));
    assert_eq!(f.src_idx, 0);
}

#[test]
fn single_record_is_one_row() {
    let mut f = fdw();
    f.begin_scan("customers".to_string(), &vec![qual("id", "=", "a")]).unwrap();
    let body = r#"{"object":"customer","id":"a"}"#;
    assert_eq!(f.apply_response(200, body, Ok(json(body)), Ok(())), Ok(true));
    assert_eq!(row_ids(&f), vec!["a"]);
    assert!(f.url.is_none());
}

#[test]
fn list_without_items_is_empty() {
    let mut f = fdw();
    f.begin_scan("products".to_string(), &vec![]).unwrap();
    let body = r#"{"object":"list","items":null}"#;
    assert_eq!(f.apply_response(200, body, Ok(json(body)), Ok(())), Ok(true));
    assert!(f.src_rows.is_empty());
    assert!(f.url.is_none());
}

#[test]
fn missing_record_is_an_empty_result() {
    let mut f = fdw();
    f.begin_scan("customers".to_string(), &vec![qual("id", "=", "nope")]).unwrap();
    let body = r#"{"object":"error","type":"resource_missing","message":"not found"}"#;
    let r = f.apply_response(404, body, Ok(json(body)), Err("HTTP status error (404)".to_string()));
    assert_eq!(r, Ok(false));
    assert!(f.src_rows.is_empty());
    assert!(f.url.is_none());
}

#[test]
fn missing_list_is_an_error() {
    let mut f = fdw();
    f.begin_scan("products".to_string(), &vec![]).unwrap();
    let body = r#"{"object":"error","type":"resource_missing"}"#;
    let r = f.apply_response(404, body, Ok(json(body)), Err("HTTP status error (404)".to_string()));
    assert_eq!(r, Err(format!("HTTP status error (404): {}", body)));
}

#[test]
fn unreadable_body_is_an_error() {
    let mut f = fdw();
    f.begin_scan("products".to_string(), &vec![]).unwrap();
    let r = f.apply_response(404, "<html>", Err("expected value at line 1 column 1".to_string()), Ok(()));
    assert_eq!(r, Err("expected value at line 1 column 1".to_string()));
}

#[test]
fn scan_walks_pages_and_skips_empty_ones() {
    let mut f = fdw();
    f.begin_scan("customers".to_string(), &vec![]).unwrap();
    let pages = [
        r#"{"object":"list","items":[{"id":"a"}],"next_page":"/p2"}"#,
        r#"{"object":"list","items":[],"next_page":"/p3"}"#,
        r#"{"object":"list","items":[{"id":"b"},{"id":"c"}]}"#,
    ];
    let mut next = 0;
    f.apply_response(200, pages[0], Ok(json(pages[0])), Ok(())).unwrap();
    next += 1;
    let mut seen = Vec::new();
    let mut fetch_counts = Vec::new();
    loop {
        match f.iter_step() {
            IterStep::Emit => {
                seen.push(f.current_row().get_str("id").unwrap().clone());
                f.finish_row();
            }
            IterStep::Fetch(n) => {
                fetch_counts.push(n);
                let url = f.plan_request(&vec![]).unwrap();
                assert!(url.starts_with("https://api.revenuecat.com/p"));
                f.apply_response(200, pages[next], Ok(json(pages[next])), Ok(())).unwrap();
                next += 1;
            }
            IterStep::Done(n) => {
                assert_eq!(n, 2);
                break;
            }
        }
    }
    assert_eq!(seen, vec!["a", "b", "c"]);
    assert_eq!(fetch_counts, vec![1, 0]);
}

#[test]
fn end_scan_drops_the_page() {
    let mut f = fdw();
    f.begin_scan("customers".to_string(), &vec![]).unwrap();
    let body = r#"{"object":"list","items":[{"id":"a"}],"next_page":"/p2"}"#;
    f.apply_response(200, body, Ok(json(body)), Ok(())).unwrap();
    f.end_scan();
    assert!(f.src_rows.is_empty());
    assert_eq!(f.src_idx, 0);
    assert_eq!(f.url.as_deref(), Some("/p2"));
}

#[test]
fn re_scan_starts_over() {
    let mut f = fdw();
    f.begin_scan("customers".to_string(), &vec![]).unwrap();
    f.url = Some("/p2".to_string());
    let url = f.re_scan(&vec![]).unwrap();
    assert_eq!(url, "https://api.revenuecat.com/v2/projects/proj1/customers?limit=100");
    assert!(f.url.is_none());
}
