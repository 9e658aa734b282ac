use client_catalogue_request::error::ApiError;
use client_catalogue_request::requests::{
    delete_outcome, demo_inbox, demo_ok, demo_request, new_demo_id, sample_inbox_request, sample_products,
    trimmed_contact, valid_request, RequestInput, RequestLine,
};
use client_catalogue_request::tokens::{new_demo_request_id, new_request_id, token};

fn line(id: &str, q: i64) -> RequestLine {
    RequestLine { product_id: id.to_string(), quantity: q }
}

fn input(lines: Vec<RequestLine>) -> RequestInput {
    RequestInput {
        client_name: " Maya Patel ".into(),
        company: "Juniper Corner".into(),
        email: "maya@example.test ".into(),
        po_number: "PO-1842".into(),
        note: "".into(),
        lines,
    }
}

#[test]
fn generated_tokens_are_long_and_distinct() {
    assert_eq!(token(28).len(), 28);
    assert_ne!(token(28), token(28));
}

#[test]
fn request_contact_is_checked_first() {
    let mut x = input(vec![line("p1", 1)]);
    assert_eq!(valid_request(&x), Ok(()));
    x.email = "maya.example.test".into();
    assert_eq!(valid_request(&x), Err(ApiError::InvalidContact));
    let mut x = input(vec![]);
    x.company = " J ".into();
    assert_eq!(valid_request(&x), Err(ApiError::InvalidContact));
    let mut x = input(vec![line("p1", 1)]);
    x.note = "n".repeat(2001);
    assert_eq!(valid_request(&x), Err(ApiError::InvalidContact));
    let mut x = input(vec![line("p1", 1)]);
    x.email = format!("{}@x", "e".repeat(252));
    assert_eq!(valid_request(&x), Ok(()));
    x.email = format!("{}@x", "e".repeat(253));
    assert_eq!(valid_request(&x), Err(ApiError::InvalidContact));
}

#[test]
fn request_lines_are_bounded() {
    assert_eq!(valid_request(&input(vec![])), Err(ApiError::InvalidLines));
    assert_eq!(valid_request(&input(vec![line("p1", 0)])), Err(ApiError::InvalidLines));
    assert_eq!(valid_request(&input(vec![line("p1", 10000)])), Err(ApiError::InvalidLines));
    assert_eq!(valid_request(&input(vec![line("p1", 9999)])), Ok(()));
    let many: Vec<RequestLine> = (0..101).map(|n| line(&format!("p{n}"), 1)).collect();
    assert_eq!(valid_request(&input(many)), Err(ApiError::InvalidLines));
    let hundred: Vec<RequestLine> = (0..100).map(|n| line(&format!("p{n}"), 1)).collect();
    assert_eq!(valid_request(&input(hundred)), Ok(()));
}

#[test]
fn each_product_appears_once() {
    let e = valid_request(&input(vec![line("p1", 1), line("p2", 2), line("p1", 3)])).unwrap_err();
    assert_eq!(e, ApiError::DuplicateProduct);
    assert_eq!(e.message(), "Each product can appear only once. Change its quantity instead.");
}

#[test]
fn contact_is_stored_trimmed() {
    let c = trimmed_contact(&input(vec![]));
    assert_eq!(c.client_name, "Maya Patel");
    assert_eq!(c.email, "maya@example.test");
}

#[test]
fn request_ids_are_short_uppercase_hex() {
    let id = new_request_id();
    assert_eq!(id.len(), 11);
    assert!(id.starts_with("RQ-"));
    assert!(id[3..].chars().all(|c| c.is_ascii_hexdigit() && !c.is_ascii_lowercase()));
    let demo = new_demo_request_id();
    assert_eq!(demo.len(), 12);
    assert!(demo.starts_with("RQ-DEMO-"));
    assert!(demo[8..].chars().all(|c| c.is_ascii_hexdigit() && !c.is_ascii_lowercase()));
}

#[test]
fn deleting_twice_is_refused() {
    assert_eq!(delete_outcome(1), Ok(()));
    let e = delete_outcome(0).unwrap_err();
    assert_eq!(e, ApiError::RequestAlreadyDeleted);
    assert_eq!(e.status(), 404);
}

#[test]
fn demo_is_stateless_across_backend_instances() {
    let id = new_demo_id();
    // Nothing is shared between creating the workspace and reading its inbox.
    let response = demo_inbox(&id).unwrap();
    assert_eq!(response.len(), 1);
    assert_eq!(response[0].id, "RQ-6C24A19E");
    assert_eq!(demo_inbox(&new_demo_id()).unwrap().len(), 1);
    assert_eq!(demo_inbox("not-a-workspace").unwrap_err(), ApiError::DemoUnavailable);
}

#[test]
fn demo_ids_are_checked() {
    assert_eq!(demo_ok(&"a".repeat(32)), Ok(()));
    assert_eq!(demo_ok(&"a".repeat(31)), Err(ApiError::DemoUnavailable));
    assert_eq!(demo_ok(&format!("{}-", "a".repeat(31))), Err(ApiError::DemoUnavailable));
    assert_eq!(demo_ok(&format!("{}é", "a".repeat(30))), Err(ApiError::DemoUnavailable));
}

#[test]
fn sample_requests_use_the_sample_catalogue() {
    let id = "A".repeat(32);
    let x = input(vec![line("p4", 12), line("p1", 24)]);
    let d = demo_request(&id, &x, "2026-08-28T09:14:00+00:00".to_string()).unwrap();
    assert!(d.id.starts_with("RQ-DEMO-"));
    assert_eq!(d.client_name, "Maya Patel");
    assert_eq!(d.status, "New");
    assert_eq!(d.created_at, "2026-08-28T09:14:00+00:00");
    assert_eq!(d.lines.len(), 2);
    assert_eq!(d.lines[0].sku, "PK-228");
    assert_eq!(d.lines[0].price_cents, None);
    assert_eq!(d.lines[0].quantity, 12);
    assert_eq!(d.lines[1].name, "Recycled counter notebook");
    assert_eq!(d.lines[1].price_cents, Some(850));
    let unknown = input(vec![line("p9", 1)]);
    assert_eq!(
        demo_request(&id, &unknown, String::new()).unwrap_err(),
        ApiError::DemoProductUnavailable
    );
    assert_eq!(demo_request("short", &x, String::new()).unwrap_err(), ApiError::DemoUnavailable);
    assert_eq!(
        demo_request(&id, &input(vec![]), String::new()).unwrap_err(),
        ApiError::InvalidLines
    );
    assert_eq!(sample_products().len(), 6);
}

#[test]
fn sample_inbox_holds_the_example_request() {
    let r = sample_inbox_request();
    assert_eq!(r.id, "RQ-6C24A19E");
    assert_eq!(r.lines.len(), 2);
    assert_eq!(r.lines[1].price_cents, None);
}
