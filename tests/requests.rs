use tcurse::text::decimal_string;
use tcurse::{ApiClient, ApiError, Method};

fn client() -> ApiClient {
    ApiClient::new("SECRET-REDACTED".to_string())
}

#[test]
fn decimal_of_integers() {
    assert_eq!(decimal_string(42), "42");
    assert_eq!(decimal_string(0), "0");
    assert_eq!(decimal_string(7), "7");
    assert_eq!(decimal_string(10), "10");
    assert_eq!(decimal_string(-7), "-7");
    assert_eq!(decimal_string(-120), "-120");
    assert_eq!(decimal_string(i64::MAX), "9223372036854775807");
    assert_eq!(decimal_string(i64::MIN), "-9223372036854775808");
}

#[test]
fn current_user_request_targets_profile() {
    let r = client().current_user_request();
    assert_eq!(r.method, Method::Get);
    assert_eq!(r.url, "https://www.recurse.com/api/v1/profiles/me");
    assert!(r.query.is_empty());
    assert_eq!(r.bearer, "SECRET-REDACTED");
    assert_eq!(r.body, None);
}

#[test]
fn visit_request_targets_person_and_date() {
    let r = client().visit_request(42, "2024-01-15");
    assert_eq!(r.method, Method::Get);
    assert_eq!(r.url, "https://www.recurse.com/api/v1/hub_visits/42/2024-01-15");
    assert!(r.query.is_empty());
    assert_eq!(r.bearer, "SECRET-REDACTED");
    assert_eq!(r.body, None);
}

#[test]
fn visits_request_carries_date_query() {
    let r = client().visits_request("2024-01-15");
    assert_eq!(r.method, Method::Get);
    assert_eq!(r.url, "https://www.recurse.com/api/v1/hub_visits");
    assert_eq!(r.query, vec![("date".to_string(), "2024-01-15".to_string())]);
    assert_eq!(r.body, None);
}

#[test]
fn create_or_update_without_notes_has_no_body() {
    let r = client().create_or_update_request(42, "2024-01-15", None);
    assert_eq!(r.method, Method::Patch);
    assert_eq!(r.url, "https://www.recurse.com/api/v1/hub_visits/42/2024-01-15");
    assert_eq!(r.body, None);
}

#[test]
fn create_or_update_with_notes_sends_exact_body() {
    let r = client().create_or_update_request(42, "2024-01-15", Some("x"));
    assert_eq!(r.method, Method::Patch);
    assert_eq!(r.body, Some("{\"notes\":\"x\"}".to_string()));
    let r = client().create_or_update_request(42, "2024-01-15", Some("working on X"));
    assert_eq!(r.body, Some("{\"notes\":\"working on X\"}".to_string()));
}

#[test]
fn create_or_update_escapes_notes() {
    let r = client().create_or_update_request(1, "2024-01-15", Some("say \"hi\"\n"));
    assert_eq!(r.body, Some("{\"notes\":\"say \\\"hi\\\"\\n\"}".to_string()));
    let r = client().create_or_update_request(1, "2024-01-15", Some(""));
    assert_eq!(r.body, Some("{\"notes\":\"\"}".to_string()));
    let r = client().create_or_update_request(1, "2024-01-15", Some("a\\b\tc\u{b}\u{1f}\u{8}\u{c}\r"));
    assert_eq!(r.body, Some("{\"notes\":\"a\\\\b\\tc\\u000b\\u001f\\b\\f\\r\"}".to_string()));
}

#[test]
fn checkin_with_notes_always_writes() {
    let c = client();
    let me = tcurse::Profile { id: 42, name: "Ada".to_string() };
    let expected = c.create_or_update_request(42, "2024-01-15", Some("x"));
    assert_eq!(
        c.checkin_after_lookup(&me, "2024-01-15", None, Some("x")),
        tcurse::CheckinNext::Write(expected)
    );
}

#[test]
fn create_or_update_twice_builds_same_request() {
    let c = client();
    let a = c.create_or_update_request(42, "2024-01-15", Some("a"));
    let b = c.create_or_update_request(42, "2024-01-15", Some("a"));
    assert_eq!(a, b);
    assert_eq!(a.body, Some("{\"notes\":\"a\"}".to_string()));
    let lookup = c.visit_request(42, "2024-01-15");
    let removal = c.delete_request(42, "2024-01-15");
    assert_eq!(a.url, lookup.url);
    assert_eq!(a.url, removal.url);
}

#[test]
fn delete_request_targets_visit() {
    let r = client().delete_request(-3, "2024-02-29");
    assert_eq!(r.method, Method::Delete);
    assert_eq!(r.url, "https://www.recurse.com/api/v1/hub_visits/-3/2024-02-29");
    assert_eq!(r.bearer, "SECRET-REDACTED");
    assert_eq!(r.body, None);
}

#[test]
fn every_request_carries_the_token() {
    let c = ApiClient::new("tok".to_string());
    assert_eq!(c.current_user_request().bearer, "tok");
    assert_eq!(c.visit_request(1, "2024-01-15").bearer, "tok");
    assert_eq!(c.visits_request("2024-01-15").bearer, "tok");
    assert_eq!(c.create_or_update_request(1, "2024-01-15", Some("n")).bearer, "tok");
    assert_eq!(c.delete_request(1, "2024-01-15").bearer, "tok");
}

#[test]
fn validation_error_is_a_distinct_kind() {
    let e = ApiError::Validation("bad".to_string());
    assert!(matches!(e, ApiError::Validation(_)));
}
