//! The request router: dispatches a request by method and path to one of the
//! three endpoints — the health probe at `GET /`, a write at
//! `POST /store/{key}`, and a read at `GET /get/{key}` — and extracts the key
//! from the path. A `{key}` segment matches exactly one non-empty path
//! segment, so it never contains a slash. Anything else matches no route.

use vstd::prelude::*;
use vstd::string::StrSliceExecFns;

verus! {

/// The only two request methods the router distinguishes.
#[derive(Clone, Copy, PartialEq, Eq, Structural, Debug)]
pub enum Method {
    Get,
    Post,
}

/// Where a request was dispatched, with the key taken from the path.
pub enum Route {
    Health,
    StoreValue { key: String },
    FetchValue { key: String },
}

/// The health-probe path, `/`.
pub open spec fn root_path() -> Seq<char> {
    seq!['/']
}

/// The path prefix of a write, `/store/`.
pub open spec fn store_prefix() -> Seq<char> {
    seq!['/', 's', 't', 'o', 'r', 'e', '/']
}

/// The path prefix of a read, `/get/`.
pub open spec fn fetch_prefix() -> Seq<char> {
    seq!['/', 'g', 'e', 't', '/']
}

/// The characters of `p` from `from` to the end: the `{key}` segment.
pub open spec fn tail_from(p: Seq<char>, from: int) -> Seq<char> {
    p.subrange(from, p.len() as int)
}

/// No slash from position `from` on: the tail is a single path segment.
pub open spec fn single_segment_from(p: Seq<char>, from: int) -> bool {
    forall|j: int| from <= j < p.len() ==> p[j] != '/'
}

/// The request matches the health probe.
pub open spec fn routes_to_health(m: Method, p: Seq<char>) -> bool {
    m == Method::Get && p == root_path()
}

/// The request matches the write endpoint; the key is `tail_from(p, 7)`.
pub open spec fn routes_to_store(m: Method, p: Seq<char>) -> bool {
    &&& m == Method::Post
    &&& p.len() > 7
    &&& p.subrange(0, 7) == store_prefix()
    &&& single_segment_from(p, 7)
}

/// The request matches the read endpoint; the key is `tail_from(p, 5)`.
pub open spec fn routes_to_fetch(m: Method, p: Seq<char>) -> bool {
    &&& m == Method::Get
    &&& p.len() > 5
    &&& p.subrange(0, 5) == fetch_prefix()
    &&& single_segment_from(p, 5)
}

/// True exactly when no character from `from` to the end of `path` is a slash.
fn no_slash_from(path: &str, from: usize) -> (r: bool)
    requires
        from <= path@.len(),
    ensures
        r == single_segment_from(path@, from as int),
{
    let n = path.unicode_len();
    let mut i: usize = from;
    while i < n
        invariant
            from <= i <= n,
            n == path@.len(),
            forall|j: int| from <= j < i ==> path@[j] != '/',
        decreases n - i,
    {
        if path.get_char(i) == '/' {
            assert(path@[i as int] == '/');
            return false;
        }
        i = i + 1;
    }
    true
}

/// True exactly when `path` starts with the seven characters of `/store/`.
fn has_store_prefix(path: &str) -> (r: bool)
    requires
        path@.len() >= 7,
    ensures
        r == (path@.subrange(0, 7) == store_prefix()),
{
    let r = path.get_char(0) == '/' && path.get_char(1) == 's' && path.get_char(2) == 't'
        && path.get_char(3) == 'o' && path.get_char(4) == 'r' && path.get_char(5) == 'e'
        && path.get_char(6) == '/';
    proof {
        if r {
            assert(path@.subrange(0, 7) =~= store_prefix());
        } else {
            if path@.subrange(0, 7) == store_prefix() {
                assert(forall|j: int|
                    0 <= j < 7 ==> path@[j] == #[trigger] path@.subrange(0, 7)[j]);
            }
        }
    }
    r
}

/// True exactly when `path` starts with the five characters of `/get/`.
fn has_fetch_prefix(path: &str) -> (r: bool)
    requires
        path@.len() >= 5,
    ensures
        r == (path@.subrange(0, 5) == fetch_prefix()),
{
    let r = path.get_char(0) == '/' && path.get_char(1) == 'g' && path.get_char(2) == 'e'
        && path.get_char(3) == 't' && path.get_char(4) == '/';
    proof {
        if r {
            assert(path@.subrange(0, 5) =~= fetch_prefix());
        } else {
            if path@.subrange(0, 5) == fetch_prefix() {
                assert(forall|j: int|
                    0 <= j < 5 ==> path@[j] == #[trigger] path@.subrange(0, 5)[j]);
            }
        }
    }
    r
}

/// Dispatch a request: the result names the matched endpoint and carries the
/// key extracted from the path, or is `None` when no route matches.
pub fn route(method: &Method, path: &str) -> (r: Option<Route>)
    ensures
        match r {
            Some(Route::Health) => routes_to_health(*method, path@),
            Some(Route::StoreValue { key }) => routes_to_store(*method, path@) && key@
                == tail_from(path@, 7),
            Some(Route::FetchValue { key }) => routes_to_fetch(*method, path@) && key@
                == tail_from(path@, 5),
            None => !routes_to_health(*method, path@) && !routes_to_store(*method, path@)
                && !routes_to_fetch(*method, path@),
        },
{
    let n = path.unicode_len();
    match method {
        Method::Get => {
            if n == 1 && path.get_char(0) == '/' {
                proof {
                    assert(path@ =~= root_path());
                }
                Some(Route::Health)
            } else if n > 5 && has_fetch_prefix(path) && no_slash_from(path, 5) {
                let key = path.substring_char(5, n).to_owned();
                Some(Route::FetchValue { key })
            } else {
                proof {
                    if *method == Method::Get && path@ == root_path() {
                        assert(path@[0] == '/');
                    }
                }
                None
            }
        },
        Method::Post => {
            if n > 7 && has_store_prefix(path) && no_slash_from(path, 7) {
                let key = path.substring_char(7, n).to_owned();
                Some(Route::StoreValue { key })
            } else {
                None
            }
        },
    }
}

} // verus!
