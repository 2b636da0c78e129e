use vstd::prelude::*;

verus! {

/// Where a requested path leads: the home page with the todo list, or the
/// not-found fallback.
#[derive(PartialEq, Eq, Structural, Clone, Copy, Debug)]
pub enum Route {
    Home,
    NotFound,
}

/// The HTTP status code attached to the first server-rendered response of the
/// not-found fallback.
pub const NOT_FOUND_STATUS: u16 = 404;

/// A path names the home page exactly when it is empty or the bare slash.
pub open spec fn is_root_path(p: Seq<char>) -> bool {
    p.len() == 0 || (p.len() == 1 && p[0] == '/')
}

/// Route matching: the root path renders the home page; every other path
/// falls through to the not-found fallback.
pub fn match_route(path: &str) -> (r: Route)
    ensures
        (r == Route::Home) <==> is_root_path(path@),
{
    let n = path.unicode_len();
    if n == 0 {
        Route::Home
    } else if n == 1 && path.get_char(0) == '/' {
        Route::Home
    } else {
        Route::NotFound
    }
}

/// The heading rendered for a route: the welcome banner on the home page,
/// the not-found fragment everywhere else.
pub fn route_heading(route: Route) -> (h: &'static str)
    ensures
        route == Route::Home ==> h@ == "Welcome to Lepto<Do>s!"@,
        route == Route::NotFound ==> h@ == "Not Found"@,
{
    match route {
        Route::Home => "Welcome to Lepto<Do>s!",
        Route::NotFound => "Not Found",
    }
}

/// The status code a response must carry: 404 exactly when the not-found
/// fallback is rendered as the very first server response. Later in-page
/// navigation sends no new response, so no code is attached.
pub fn response_status(route: Route, initial_server_response: bool) -> (s: Option<u16>)
    ensures
        s == (if route == Route::NotFound && initial_server_response {
            Some(NOT_FOUND_STATUS)
        } else {
            None::<u16>
        }),
{
    if initial_server_response {
        match route {
            Route::Home => None,
            Route::NotFound => Some(NOT_FOUND_STATUS),
        }
    } else {
        None
    }
}

} // verus!
