use vstd::prelude::*;

verus! {

/// Where an inbound request goes.
#[derive(Debug, Clone, Copy, PartialEq, Eq, Structural)]
pub enum Route {
    HealthCheck,
    Multiplex,
    NotFound,
}

/// The route for a method and a path.
pub open spec fn route_of(method: Seq<char>, path: Seq<char>) -> Route {
    if method == "GET"@ && (path == "/"@ || path == "/healthz"@) {
        Route::HealthCheck
    } else if method == "POST"@ && path == "/multiplex"@ {
        Route::Multiplex
    } else {
        Route::NotFound
    }
}

/// Whether two texts are the same.
pub fn same_text(a: &str, b: &str) -> (r: bool)
    ensures
        r == (a@ == b@),
{
    let n = a.unicode_len();
    if n != b.unicode_len() {
        return false;
    }
    let mut i: usize = 0;
    while i < n
        invariant
            n == a@.len(),
            n == b@.len(),
            0 <= i <= n,
            forall|k: int| 0 <= k < i ==> a@[k] == b@[k],
        decreases n - i,
    {
        if a.get_char(i) != b.get_char(i) {
            return false;
        }
        i = i + 1;
    }
    assert(a@ =~= b@);
    true
}

/// Picks the route: the health check on `GET /` and `GET /healthz`, the multiplexer on
/// `POST /multiplex`, and nothing else.
pub fn route(method: &str, path: &str) -> (r: Route)
    ensures
        r == route_of(method@, path@),
{
    if same_text(method, "GET") && (same_text(path, "/") || same_text(path, "/healthz")) {
        Route::HealthCheck
    } else if same_text(method, "POST") && same_text(path, "/multiplex") {
        Route::Multiplex
    } else {
        Route::NotFound
    }
}

} // verus!
