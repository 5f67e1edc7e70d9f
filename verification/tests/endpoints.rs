use kvserve::handler::{fetch_response, handle_request, health_response, store_response};
use kvserve::router::Method;
use kvserve::store::KvStore;

#[test]
fn health_probe_fixed_greeting() {
    let mut kv = KvStore::with_capacity(4);
    let r = handle_request(&mut kv, &Method::Get, "/", String::new());
    assert_eq!(r.status, 200);
    assert_eq!(r.body, "Hello, World!");
}

#[test]
fn store_then_fetch_returns_value() {
    let mut kv = KvStore::with_capacity(4);
    let r = handle_request(&mut kv, &Method::Post, "/store/alpha", String::from("one"));
    assert_eq!(r.status, 200);
    assert_eq!(r.body, "");
    let r = handle_request(&mut kv, &Method::Get, "/get/alpha", String::new());
    assert_eq!(r.status, 200);
    assert_eq!(r.body, "one");
}

#[test]
fn last_write_wins() {
    let mut kv = KvStore::with_capacity(4);
    handle_request(&mut kv, &Method::Post, "/store/k", String::from("v1"));
    handle_request(&mut kv, &Method::Post, "/store/k", String::from("v2"));
    let r = handle_request(&mut kv, &Method::Get, "/get/k", String::new());
    assert_eq!(r.status, 200);
    assert_eq!(r.body, "v2");
}

#[test]
fn never_written_key_is_not_found() {
    let mut kv = KvStore::with_capacity(4);
    handle_request(&mut kv, &Method::Post, "/store/present", String::from("x"));
    let r = handle_request(&mut kv, &Method::Get, "/get/absent", String::new());
    assert_eq!(r.status, 404);
    assert_eq!(r.body, "No value found for key");
}

#[test]
fn scenario_store_fetch_missing_health() {
    let mut kv = KvStore::with_capacity(4);
    let r = handle_request(&mut kv, &Method::Post, "/store/foo", String::from("bar"));
    assert_eq!(r.status, 200);
    let r = handle_request(&mut kv, &Method::Get, "/get/foo", String::new());
    assert_eq!(r.status, 200);
    assert_eq!(r.body, "bar");
    let r = handle_request(&mut kv, &Method::Get, "/get/missing", String::new());
    assert_eq!(r.status, 404);
    assert_eq!(r.body, "No value found for key");
    let r = handle_request(&mut kv, &Method::Get, "/", String::new());
    assert_eq!(r.status, 200);
    assert_eq!(r.body, "Hello, World!");
}

#[test]
fn value_stored_verbatim() {
    let mut kv = KvStore::with_capacity(4);
    let body = String::from("{\"not\": \"parsed\"}\n\ttabs and \u{00e9}");
    handle_request(&mut kv, &Method::Post, "/store/raw", body.clone());
    let r = handle_request(&mut kv, &Method::Get, "/get/raw", String::new());
    assert_eq!(r.body, body);
}

#[test]
fn distinct_keys_do_not_disturb_each_other() {
    let mut kv = KvStore::with_capacity(4);
    handle_request(&mut kv, &Method::Post, "/store/a", String::from("1"));
    handle_request(&mut kv, &Method::Post, "/store/b", String::from("2"));
    let r = handle_request(&mut kv, &Method::Get, "/get/a", String::new());
    assert_eq!(r.body, "1");
    let r = handle_request(&mut kv, &Method::Get, "/get/b", String::new());
    assert_eq!(r.body, "2");
}

#[test]
fn unmatched_routes_are_not_found() {
    let mut kv = KvStore::with_capacity(4);
    // A write path with a GET, a read path with a POST, a nested segment,
    // an empty key, and an unknown path: none dispatches to a handler.
    let r = handle_request(&mut kv, &Method::Get, "/store/k", String::new());
    assert_eq!(r.status, 404);
    let r = handle_request(&mut kv, &Method::Post, "/get/k", String::from("v"));
    assert_eq!(r.status, 404);
    let r = handle_request(&mut kv, &Method::Post, "/store/a/b", String::from("v"));
    assert_eq!(r.status, 404);
    let r = handle_request(&mut kv, &Method::Post, "/store/", String::from("v"));
    assert_eq!(r.status, 404);
    let r = handle_request(&mut kv, &Method::Get, "/other", String::new());
    assert_eq!(r.status, 404);
    assert_eq!(r.body, "");
    // Nothing above wrote anything observable.
    let r = handle_request(&mut kv, &Method::Get, "/get/k", String::new());
    assert_eq!(r.status, 404);
}

#[test]
fn racing_writes_land_in_one_order_or_the_other() {
    // A racing pair of writes to one key serializes in some order; in either
    // order the key afterwards holds one of the two values in full.
    for order in 0..2 {
        let mut kv = KvStore::with_capacity(4);
        let (first, second) = if order == 0 { ("v1", "v2") } else { ("v2", "v1") };
        handle_request(&mut kv, &Method::Post, "/store/k", String::from(first));
        handle_request(&mut kv, &Method::Post, "/store/k", String::from(second));
        let r = handle_request(&mut kv, &Method::Get, "/get/k", String::new());
        assert_eq!(r.status, 200);
        assert!(r.body == "v1" || r.body == "v2");
        assert_eq!(r.body, second);
    }
}

#[test]
fn fetch_response_reflects_lookup() {
    let r = fetch_response(Some(String::from("payload")));
    assert_eq!(r.status, 200);
    assert_eq!(r.body, "payload");
    let r = fetch_response(None);
    assert_eq!(r.status, 404);
    assert_eq!(r.body, "No value found for key");
}

#[test]
fn fixed_responses() {
    let h = health_response();
    assert_eq!(h.status, 200);
    assert_eq!(h.body, "Hello, World!");
    let s = store_response();
    assert_eq!(s.status, 200);
    assert_eq!(s.body, "");
}
