use kvserve::router::{route, Method, Route};

#[test]
fn root_routes_to_health_on_get_only() {
    assert!(matches!(route(&Method::Get, "/"), Some(Route::Health)));
    assert!(route(&Method::Post, "/").is_none());
}

#[test]
fn store_path_extracts_key() {
    match route(&Method::Post, "/store/some-key") {
        Some(Route::StoreValue { key }) => assert_eq!(key, "some-key"),
        _ => panic!("expected the write route"),
    }
}

#[test]
fn fetch_path_extracts_key() {
    match route(&Method::Get, "/get/k1") {
        Some(Route::FetchValue { key }) => assert_eq!(key, "k1"),
        _ => panic!("expected the read route"),
    }
}

#[test]
fn key_is_a_single_nonempty_segment() {
    assert!(route(&Method::Post, "/store/").is_none());
    assert!(route(&Method::Post, "/store/a/b").is_none());
    assert!(route(&Method::Get, "/get/").is_none());
    assert!(route(&Method::Get, "/get/a/b").is_none());
}

#[test]
fn method_must_match_the_endpoint() {
    assert!(route(&Method::Get, "/store/k").is_none());
    assert!(route(&Method::Post, "/get/k").is_none());
}

#[test]
fn unknown_paths_match_nothing() {
    assert!(route(&Method::Get, "").is_none());
    assert!(route(&Method::Get, "/health").is_none());
    assert!(route(&Method::Get, "/stor/k").is_none());
    assert!(route(&Method::Post, "/storeextra/k").is_none());
}

#[test]
fn keys_may_hold_any_non_slash_characters() {
    match route(&Method::Get, "/get/caf\u{00e9}%20x") {
        Some(Route::FetchValue { key }) => assert_eq!(key, "caf\u{00e9}%20x"),
        _ => panic!("expected the read route"),
    }
}
