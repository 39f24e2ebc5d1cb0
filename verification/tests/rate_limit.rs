use reqwest::header::{HeaderMap, HeaderValue};
use sdui::prelude::{classify_status, RateLimit, StatusClass, LIMIT_HEADER, REMAINING_HEADER};

fn snapshot(limit: u64, remaining: u64) -> RateLimit {
    RateLimit { limit, remaining }
}

#[test]
fn join_takes_the_smaller_of_each_field() {
    assert_eq!(snapshot(60, 10).join(snapshot(30, 20)), snapshot(30, 10));
    assert_eq!(snapshot(30, 20).join(snapshot(60, 10)), snapshot(30, 10));
    assert_eq!(snapshot(0, u64::MAX).join(snapshot(u64::MAX, 0)), snapshot(0, 0));
}

#[test]
fn join_is_commutative_and_idempotent() {
    let samples = [snapshot(0, 0), snapshot(60, 59), snapshot(59, 60), snapshot(u64::MAX, 1)];
    for a in samples {
        assert_eq!(a.join(a), a);
        for b in samples {
            assert_eq!(a.join(b), b.join(a));
        }
    }
}

#[test]
fn header_texts_are_read_as_numbers() {
    assert_eq!(RateLimit::from_header_texts(Some("60"), Some("59")), snapshot(60, 59));
    assert_eq!(RateLimit::from_header_texts(Some("+60"), Some("059")), snapshot(60, 59));
    assert_eq!(RateLimit::from_header_texts(None, Some("59")), snapshot(0, 59));
    assert_eq!(RateLimit::from_header_texts(Some("60"), None), snapshot(60, 0));
    assert_eq!(RateLimit::from_header_texts(Some("many"), Some("")), snapshot(0, 0));
    assert_eq!(RateLimit::from_header_texts(Some("-1"), Some("1.5")), snapshot(0, 0));
    assert_eq!(
        RateLimit::from_header_texts(Some("18446744073709551616"), Some("18446744073709551615")),
        snapshot(0, u64::MAX)
    );
}

#[test]
fn headers_are_read_by_their_names() {
    let mut headers = HeaderMap::new();
    headers.insert("x-ratelimit-limit", HeaderValue::from_static("60"));
    headers.insert("x-ratelimit-remaining", HeaderValue::from_static("41"));
    headers.insert("content-type", HeaderValue::from_static("application/json"));
    assert_eq!(RateLimit::from_headers(&headers), snapshot(60, 41));
    assert_eq!(LIMIT_HEADER, "x-ratelimit-limit");
    assert_eq!(REMAINING_HEADER, "x-ratelimit-remaining");
}

#[test]
fn missing_or_unreadable_headers_count_as_zero() {
    assert_eq!(RateLimit::from_headers(&HeaderMap::new()), snapshot(0, 0));

    let mut headers = HeaderMap::new();
    headers.insert("x-ratelimit-limit", HeaderValue::from_bytes(b"6\xff0").unwrap());
    headers.insert("x-ratelimit-remaining", HeaderValue::from_static("12 "));
    assert_eq!(RateLimit::from_headers(&headers), snapshot(0, 0));

    let mut headers = HeaderMap::new();
    headers.insert("X-RateLimit-Limit", HeaderValue::from_static("7"));
    assert_eq!(RateLimit::from_headers(&headers), snapshot(7, 0));

    let mut headers = HeaderMap::new();
    headers.insert("x-ratelimit-limit", HeaderValue::from_bytes(b"6\t").unwrap());
    headers.insert("x-ratelimit-remaining", HeaderValue::from_bytes(b"\xe2\x91\xa0").unwrap());
    assert_eq!(RateLimit::from_headers(&headers), snapshot(0, 0));
}

#[test]
fn the_first_of_several_header_values_counts() {
    let mut headers = HeaderMap::new();
    headers.append("x-ratelimit-limit", HeaderValue::from_static("60"));
    headers.append("x-ratelimit-limit", HeaderValue::from_static("10"));
    headers.append("x-ratelimit-remaining", HeaderValue::from_static("3"));
    assert_eq!(RateLimit::from_headers(&headers), snapshot(60, 3));
}

#[test]
fn status_codes_are_classified() {
    assert_eq!(classify_status(200), StatusClass::Success);
    assert_eq!(classify_status(204), StatusClass::Success);
    assert_eq!(classify_status(299), StatusClass::Success);
    assert_eq!(classify_status(401), StatusClass::Unauthorized);
    assert_eq!(classify_status(199), StatusClass::Failure);
    assert_eq!(classify_status(300), StatusClass::Failure);
    assert_eq!(classify_status(403), StatusClass::Failure);
    assert_eq!(classify_status(404), StatusClass::Failure);
    assert_eq!(classify_status(500), StatusClass::Failure);
}
