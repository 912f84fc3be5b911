use vstd::prelude::*;
use vstd::string::StrSliceExecFns;

verus! {

/// Where a request lands: the HTTP surface has a greeting at the root and
/// the message collection at its one API path.
#[derive(Clone, Copy, Debug, PartialEq, Eq, Structural)]
pub enum Route {
    /// The greeting at the root path.
    Hello,
    /// Post a message.
    CreateMessage,
    /// Read the stored messages back.
    ListMessage,
    /// The path exists, but not for this method.
    MethodNotAllowed,
    /// No such path.
    NotFound,
}

/// The route table: the root path answers a GET with the greeting, the
/// message path answers a POST with a create and a GET with a list, any
/// other method on a known path is turned away as not allowed, and any
/// other path is not found.
pub open spec fn route_spec(method: Seq<char>, path: Seq<char>) -> Route {
    if path == "/"@ {
        if method == "GET"@ {
            Route::Hello
        } else {
            Route::MethodNotAllowed
        }
    } else if path == "/api/message"@ {
        if method == "POST"@ {
            Route::CreateMessage
        } else if method == "GET"@ {
            Route::ListMessage
        } else {
            Route::MethodNotAllowed
        }
    } else {
        Route::NotFound
    }
}

/// Character-for-character equality of two texts.
fn str_eq(a: &str, b: &str) -> (r: bool)
    ensures
        r == (a@ == b@),
{
    let a_len = a.unicode_len();
    let b_len = b.unicode_len();
    if a_len != b_len {
        return false;
    }
    let mut i: usize = 0;
    while i < a_len
        invariant
            a_len == a@.len(),
            a_len == b@.len(),
            i <= a_len,
            forall|j: int| 0 <= j < i ==> a@[j] == b@[j],
        decreases a_len - i,
    {
        if a.get_char(i) != b.get_char(i) {
            assert(a@[i as int] != b@[i as int]);
            return false;
        }
        i += 1;
    }
    proof {
        assert(a@ =~= b@);
    }
    true
}

/// Decides where a request with this method and path lands, exactly as the
/// route table says.
pub fn route(method: &str, path: &str) -> (r: Route)
    ensures
        r == route_spec(method@, path@),
{
    if str_eq(path, "/") {
        if str_eq(method, "GET") {
            Route::Hello
        } else {
            Route::MethodNotAllowed
        }
    } else if str_eq(path, "/api/message") {
        if str_eq(method, "POST") {
            Route::CreateMessage
        } else if str_eq(method, "GET") {
            Route::ListMessage
        } else {
            Route::MethodNotAllowed
        }
    } else {
        Route::NotFound
    }
}

/// The greeting at the root path, exactly thirteen characters.
pub fn hello() -> (r: &'static str)
    ensures
        r@ == "Hello, World!"@,
        r@.len() == 13,
{
    proof {
        reveal_strlit("Hello, World!");
    }
    "Hello, World!"
}

} // verus!
