use client_catalogue_request::error::ApiError;
use client_catalogue_request::license::{
    license_check_url, licensed_from_reply, LicenseReply, VERIFY_BASE,
};
use client_catalogue_request::rate::{
    client_ip, rate_step, request_limit, RateTable, Window, READ_LIMIT, WINDOW_NS, WRITE_LIMIT,
};

#[test]
fn writes_have_a_tighter_limit() {
    assert_eq!(request_limit("POST"), 12);
    assert_eq!(request_limit("PUT"), 12);
    assert_eq!(request_limit("DELETE"), 12);
    assert_eq!(request_limit("GET"), 40);
    assert_eq!(request_limit("post"), 40);
}

#[test]
fn thirteenth_write_in_a_second_is_refused() {
    let mut w = None;
    let mut admitted = 0;
    for k in 0..20u64 {
        let (next, ok) = rate_step(w, 1_000 + k * 10_000_000, WRITE_LIMIT);
        w = Some(next);
        if ok {
            admitted += 1;
        }
    }
    assert_eq!(admitted, 12);
    assert_eq!(w.unwrap().count, 20);
}

#[test]
fn window_resets_after_one_second() {
    let full = Window { started_ns: 5, count: 100 };
    assert_eq!(rate_step(Some(full), 5 + WINDOW_NS - 1, READ_LIMIT), (Window { started_ns: 5, count: 101 }, false));
    assert_eq!(
        rate_step(Some(full), 5 + WINDOW_NS, READ_LIMIT),
        (Window { started_ns: 5 + WINDOW_NS, count: 1 }, true)
    );
    // A window that started after `now` is still the current one.
    assert_eq!(rate_step(Some(full), 0, READ_LIMIT).0.count, 101);
    assert_eq!(rate_step(Some(Window { started_ns: 0, count: u32::MAX }), 1, 40).0.count, u32::MAX);
    assert_eq!(ApiError::TooManyRequests.status(), 429);
}

#[test]
fn callers_are_counted_by_first_forwarded_address() {
    assert_eq!(client_ip(Some(" 203.0.113.7 , 10.0.0.1"), "127.0.0.1"), "203.0.113.7");
    assert_eq!(client_ip(Some("198.51.100.2"), "127.0.0.1"), "198.51.100.2");
    assert_eq!(client_ip(Some(""), "127.0.0.1"), "");
    assert_eq!(client_ip(None, "127.0.0.1"), "127.0.0.1");
}

#[test]
fn license_urls_percent_encode_the_license() {
    assert_eq!(license_check_url(VERIFY_BASE, None), None);
    assert_eq!(license_check_url(VERIFY_BASE, Some("")), None);
    assert_eq!(
        license_check_url("https://x/verify?license=", Some("ab-C_9.~")),
        Some("https://x/verify?license=ab-C_9.~".to_string())
    );
    assert_eq!(
        license_check_url("b=", Some("a b/ü+")),
        Some("b=a%20b%2F%C3%BC%2B".to_string())
    );
}

#[test]
fn license_replies() {
    assert_eq!(licensed_from_reply(LicenseReply::Verdict(true)), Ok(true));
    assert_eq!(licensed_from_reply(LicenseReply::Verdict(false)), Ok(false));
    let e = licensed_from_reply(LicenseReply::Unreachable).unwrap_err();
    assert_eq!(e.status(), 503);
    assert_eq!(e.message(), "Could not check the license. Try again when connected.");
    assert_eq!(licensed_from_reply(LicenseReply::Refused), Err(ApiError::LicenseUnavailable));
    assert_eq!(licensed_from_reply(LicenseReply::Malformed), Err(ApiError::Internal));
}

#[test]
fn error_messages() {
    assert_eq!(
        ApiError::DuplicateSku("MUG-12".into()).message(),
        "SKU MUG-12 appears more than once."
    );
    assert_eq!(ApiError::InvalidProductRow(5000).message(), "Row 5000 needs a SKU, a short name, and a valid price or POA.");
    assert_eq!(ApiError::Unauthorized.status(), 401);
    assert_eq!(ApiError::Internal.status(), 500);
}

#[test]
fn callers_are_counted_apart() {
    let mut table = RateTable::new();
    for k in 0..12u64 {
        assert!(table.hit("203.0.113.7".to_string(), 100 + k, WRITE_LIMIT));
    }
    assert!(!table.hit("203.0.113.7".to_string(), 200, WRITE_LIMIT));
    // Another caller is unaffected by the first caller's refusals.
    assert!(table.hit("198.51.100.2".to_string(), 200, WRITE_LIMIT));
    assert_eq!(table.window("198.51.100.2"), Some(Window { started_ns: 200, count: 1 }));
    assert_eq!(table.window("203.0.113.7"), Some(Window { started_ns: 100, count: 13 }));
    assert_eq!(table.window("192.0.2.1"), None);
    // After a full window the first caller is admitted again.
    assert!(table.hit("203.0.113.7".to_string(), 100 + WINDOW_NS, WRITE_LIMIT));
    assert_eq!(table.window("203.0.113.7").unwrap().count, 1);
}
