use openpanel_sdk::error::TrackerError;
use openpanel_sdk::tracker::Tracker;
use std::collections::HashMap;

fn tracker() -> Tracker {
    Tracker::new(
        "https://api.example.com/track".to_string(),
        "client-id-value".to_string(),
        "client-secret-value".to_string(),
    )
}

#[test]
fn can_set_default_headers() {
    let tracker = tracker().with_default_headers().unwrap();

    assert_eq!(tracker.header("Content-Type").unwrap(), "application/json");
    assert_eq!(tracker.header("openpanel-client-id").unwrap(), "client-id-value");
    assert_eq!(tracker.header("openpanel-client-secret").unwrap(), "client-secret-value");
}

#[test]
fn can_set_custom_header() {
    let tracker = tracker()
        .with_header("test".to_string(), "test".to_string())
        .unwrap();

    assert_eq!(tracker.header("test").unwrap(), "test");
}

#[test]
fn header_names_are_normalized() {
    let tracker = tracker().with_default_headers().unwrap();

    assert_eq!(tracker.headers().get("content-type").unwrap(), "application/json");
    assert!(tracker.headers().get("Content-Type").is_none());
    assert_eq!(tracker.header("CONTENT-TYPE").unwrap(), "application/json");
    assert_eq!(tracker.headers().to_pairs().len(), 3);
}

#[test]
fn later_header_overrides_earlier() {
    let tracker = tracker()
        .with_header("X-Test".to_string(), "first".to_string())
        .unwrap()
        .with_header("x-test".to_string(), "second".to_string())
        .unwrap();

    assert_eq!(tracker.header("X-Test").unwrap(), "second");
    assert_eq!(tracker.headers().to_pairs().len(), 1);
}

#[test]
fn header_order_does_not_matter() {
    let a = tracker()
        .with_header("user-agent".to_string(), "some".to_string())
        .unwrap()
        .with_default_headers()
        .unwrap();
    let b = tracker()
        .with_default_headers()
        .unwrap()
        .with_header("user-agent".to_string(), "some".to_string())
        .unwrap();

    let a: HashMap<String, String> = a.headers().to_pairs().into_iter().collect();
    let b: HashMap<String, String> = b.headers().to_pairs().into_iter().collect();
    assert_eq!(a, b);
    assert_eq!(a.len(), 4);
}

#[test]
fn invalid_header_name_is_refused() {
    let r = tracker().with_header("bad name".to_string(), "ok".to_string());
    assert!(matches!(r, Err(TrackerError::HeaderName(_))));

    let r = tracker().with_header(String::new(), "ok".to_string());
    assert!(matches!(r, Err(TrackerError::HeaderName(_))));
}

#[test]
fn invalid_header_value_is_refused() {
    let r = tracker().with_header("x-ok".to_string(), "line\nbreak".to_string());
    assert!(matches!(r, Err(TrackerError::HeaderValue(_))));

    let r = tracker().with_header("x-ok".to_string(), "tab\tand space".to_string());
    assert!(r.is_ok());
}

#[test]
fn bad_name_is_reported_before_bad_value() {
    let r = tracker().with_header("bad name".to_string(), "\n".to_string());
    assert!(matches!(r, Err(TrackerError::HeaderName(_))));
}

#[test]
fn default_headers_refuse_bad_secret() {
    let t = Tracker::new(
        "https://api.example.com".to_string(),
        "id".to_string(),
        "sec\u{7f}ret".to_string(),
    );
    assert!(matches!(t.with_default_headers(), Err(TrackerError::HeaderValue(_))));
}

#[test]
fn builders_keep_settings() {
    let t = tracker().disable();
    assert!(t.is_disabled());
    assert_eq!(t.api_url(), "https://api.example.com/track");
    assert!(!tracker().is_disabled());
}
