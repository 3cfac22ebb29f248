//! Which handler answers a request.

use vstd::prelude::*;
use crate::text::same_text;

verus! {

/// The handlers of the service.
#[derive(PartialEq, Eq, Debug, Clone, Copy, Structural)]
pub enum Route {
    /// `GET /health`: the service answers that it is up.
    Health,
    /// `POST /log`: a client posts a log record.
    PostLog,
    /// `GET /rotate`: the log store is archived and started afresh.
    Rotate,
    /// Anything else: answered with "not found".
    NotFound,
}

/// The handler for a request with the given method and path.
pub open spec fn route_of(method: Seq<char>, path: Seq<char>) -> Route {
    if method == "GET"@ && path == "/health"@ {
        Route::Health
    } else if method == "POST"@ && path == "/log"@ {
        Route::PostLog
    } else if method == "GET"@ && path == "/rotate"@ {
        Route::Rotate
    } else {
        Route::NotFound
    }
}


/// Chooses the handler for a request by its method and path.
pub fn router(method: &str, path: &str) -> (res: Route)
    ensures
        res == route_of(method@, path@),
{
    if same_text(method, "GET") && same_text(path, "/health") {
        Route::Health
    } else if same_text(method, "POST") && same_text(path, "/log") {
        Route::PostLog
    } else if same_text(method, "GET") && same_text(path, "/rotate") {
        Route::Rotate
    } else {
        Route::NotFound
    }
}

/// Each handler answers one fixed method on one fixed path, and only that:
/// `GET /health`, `POST /log` and `GET /rotate`; every other request, such as
/// `POST /rotate` or `GET /log`, is not found.
pub proof fn lemma_route_fixed_method_and_path(method: Seq<char>, path: Seq<char>)
    ensures
        route_of(method, path) == Route::Health <==> (method == "GET"@ && path == "/health"@),
        route_of(method, path) == Route::PostLog <==> (method == "POST"@ && path == "/log"@),
        route_of(method, path) == Route::Rotate <==> (method == "GET"@ && path == "/rotate"@),
        route_of(method, path) == Route::NotFound <==> !(
            (method == "GET"@ && path == "/health"@)
            || (method == "POST"@ && path == "/log"@)
            || (method == "GET"@ && path == "/rotate"@)
        ),
{
    reveal_strlit("GET");
    reveal_strlit("POST");
    reveal_strlit("/health");
    reveal_strlit("/log");
    reveal_strlit("/rotate");
    assert("GET"@.len() != "POST"@.len());
    assert("GET"@ != "POST"@);
    assert("/health"@[1] != "/rotate"@[1]);
    assert("/health"@ != "/rotate"@);
}

} // verus!
