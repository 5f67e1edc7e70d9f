//! The three endpoint handlers and the request entry point.
//!
//! Every response is plain text: a status code and a body. The health probe
//! answers with a fixed greeting; a write stores the raw request body under
//! the key and answers with an empty success; a read answers with the stored
//! value, or with a fixed not-found diagnostic when the key is absent.

use vstd::prelude::*;
use crate::router::{
    route, routes_to_fetch, routes_to_health, routes_to_store, tail_from, Method, Route,
};
use crate::store::KvStore;

verus! {

/// An HTTP response: a status code and a plain-text body.
pub struct Response {
    pub status: u16,
    pub body: String,
}

/// The body of the health probe's answer.
pub open spec fn health_body() -> Seq<char> {
    "Hello, World!"@
}

/// The diagnostic body of a read whose key is absent.
pub open spec fn not_found_body() -> Seq<char> {
    "No value found for key"@
}

/// The health probe: a fixed success with a fixed greeting, no side effects.
pub fn health_response() -> (r: Response)
    ensures
        r.status == 200,
        r.body@ == health_body(),
{
    Response { status: 200, body: "Hello, World!".to_owned() }
}

/// The answer to a completed write: success with an empty body.
pub fn store_response() -> (r: Response)
    ensures
        r.status == 200,
        r.body@ == Seq::<char>::empty(),
{
    Response { status: 200, body: String::new() }
}

/// The answer to a read, given what the store returned for the key: the
/// stored value on success, the fixed not-found diagnostic otherwise.
pub fn fetch_response(found: Option<String>) -> (r: Response)
    ensures
        match found {
            Some(v) => r.status == 200 && r.body@ == v@,
            None => r.status == 404 && r.body@ == not_found_body(),
        },
{
    match found {
        Some(v) => Response { status: 200, body: v },
        None => Response { status: 404, body: "No value found for key".to_owned() },
    }
}

/// The answer to a request that matches no route.
pub fn no_route_response() -> (r: Response)
    ensures
        r.status == 404,
        r.body@ == Seq::<char>::empty(),
{
    Response { status: 404, body: String::new() }
}

/// Serve one request against the store: dispatch by method and path, run the
/// matched handler, and return its response. Exactly a matched write changes
/// the store, and it changes it to the prior contents with the request body
/// stored under the key from the path.
pub fn handle_request(kv: &mut KvStore, method: &Method, path: &str, body: String) -> (r:
    Response)
    ensures
        (if routes_to_store(*method, path@) {
            final (kv).contents() == old(kv).contents().insert(tail_from(path@, 7), body@)
        } else {
            final (kv).contents() == old(kv).contents()
        }),
        routes_to_health(*method, path@) ==> r.status == 200 && r.body@ == health_body(),
        routes_to_store(*method, path@) ==> r.status == 200 && r.body@.len() == 0,
        routes_to_fetch(*method, path@) ==> (if old(kv).contents().contains_key(
            tail_from(path@, 5),
        ) {
            r.status == 200 && r.body@ == old(kv).contents()[tail_from(path@, 5)]
        } else {
            r.status == 404 && r.body@ == not_found_body()
        }),
        (!routes_to_health(*method, path@) && !routes_to_store(*method, path@)
            && !routes_to_fetch(*method, path@)) ==> r.status == 404 && r.body@.len() == 0,
{
    match route(method, path) {
        Some(Route::Health) => health_response(),
        Some(Route::StoreValue { key }) => {
            kv.insert(key, body);
            store_response()
        },
        Some(Route::FetchValue { key }) => {
            let found = kv.get(&key);
            fetch_response(found)
        },
        None => no_route_response(),
    }
}

} // verus!
