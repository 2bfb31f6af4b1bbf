use vstd::prelude::*;

verus! {

/// The request methods that the routes tell apart.
#[derive(Clone, Copy, Debug, PartialEq, Eq, Structural)]
pub enum Method {
    Get,
    Post,
    Other,
}

/// Where a request goes: one of the three handlers, or the static files.
#[derive(Clone, Copy, Debug, PartialEq, Eq, Structural)]
pub enum Route {
    Health,
    ListUsers,
    CreateUser,
    Static,
}

/// The status of a successful response.
pub const OK: u16 = 200;

/// The status of a request whose body is absent or has the wrong shape.
pub const BAD_REQUEST: u16 = 400;

/// The status of a request for which there is neither a handler nor a file.
pub const NOT_FOUND: u16 = 404;

/// The status of a request that the store could not serve.
pub const INTERNAL_ERROR: u16 = 500;

/// A response: its status code and its body text.
#[derive(Debug)]
pub struct Response {
    pub status: u16,
    pub body: String,
}

/// The path of the health check.
pub open spec fn health_path() -> Seq<char> {
    "/health"@
}

/// The path of the user collection.
pub open spec fn users_path() -> Seq<char> {
    "/api/users"@
}

/// Dispatch by exact match of method and path; everything else falls to
/// the static files.
pub open spec fn route_of(method: Method, path: Seq<char>) -> Route {
    if method == Method::Get && path == health_path() {
        Route::Health
    } else if method == Method::Get && path == users_path() {
        Route::ListUsers
    } else if method == Method::Post && path == users_path() {
        Route::CreateUser
    } else {
        Route::Static
    }
}

/// Whether two texts hold the same characters.
fn same_text(a: &str, b: &str) -> (r: bool)
    ensures
        r == (a@ == b@),
{
    let n = a.unicode_len();
    if n != b.unicode_len() {
        return false;
    }
    let mut i: usize = 0;
    while i < n
        invariant
            n == a@.len() == b@.len(),
            0 <= i <= n,
            a@.take(i as int) == b@.take(i as int),
        decreases n - i,
    {
        if a.get_char(i) != b.get_char(i) {
            return false;
        }
        assert(a@.take(i as int + 1) =~= a@.take(i as int).push(a@[i as int]));
        assert(b@.take(i as int + 1) =~= b@.take(i as int).push(b@[i as int]));
        i = i + 1;
    }
    assert(a@ =~= a@.take(n as int));
    assert(b@ =~= b@.take(n as int));
    true
}

/// The route of a request with `method` to `path`.
pub fn route(method: Method, path: &str) -> (r: Route)
    ensures
        r == route_of(method, path@),
{
    let is_health = same_text(path, "/health");
    let is_users = same_text(path, "/api/users");
    match method {
        Method::Get => {
            if is_health {
                Route::Health
            } else if is_users {
                Route::ListUsers
            } else {
                Route::Static
            }
        },
        Method::Post => {
            if is_users {
                Route::CreateUser
            } else {
                Route::Static
            }
        },
        Method::Other => Route::Static,
    }
}

} // verus!
