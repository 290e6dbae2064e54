use vstd::prelude::*;
use crate::auth::{auth, authorized, has_prefix, opt_view, starts_with, str_equal};
use crate::models::Config;

verus! {

/// The HTTP methods that the route table distinguishes.
#[derive(PartialEq, Eq, Structural, Clone, Copy)]
pub enum Method {
    Get,
    Post,
    Delete,
    Other,
}

/// A matched route, with the identifier segment where the pattern has one.
pub enum Route {
    Health,
    ListUsers,
    RetrieveUser(String),
    CreateUser,
    DeleteUser(String),
    Download,
    Upload,
}

pub enum RouteView {
    Health,
    ListUsers,
    RetrieveUser(Seq<char>),
    CreateUser,
    DeleteUser(Seq<char>),
    Download,
    Upload,
}

impl View for Route {
    type V = RouteView;

    open spec fn view(&self) -> RouteView {
        match self {
            Route::Health => RouteView::Health,
            Route::ListUsers => RouteView::ListUsers,
            Route::RetrieveUser(id) => RouteView::RetrieveUser(id@),
            Route::CreateUser => RouteView::CreateUser,
            Route::DeleteUser(id) => RouteView::DeleteUser(id@),
            Route::Download => RouteView::Download,
            Route::Upload => RouteView::Upload,
        }
    }
}

/// What the dispatcher decided for one request.
pub enum Dispatch {
    /// No route has this method and path.
    NoRoute,
    /// The route is gated and the request did not carry the configured token;
    /// its handler is not run.
    Unauthorized,
    /// Run the handler of this route.
    Handle(Route),
}

pub enum DispatchView {
    NoRoute,
    Unauthorized,
    Handle(RouteView),
}

impl View for Dispatch {
    type V = DispatchView;

    open spec fn view(&self) -> DispatchView {
        match self {
            Dispatch::NoRoute => DispatchView::NoRoute,
            Dispatch::Unauthorized => DispatchView::Unauthorized,
            Dispatch::Handle(r) => DispatchView::Handle(r@),
        }
    }
}

pub const HEALTH_PATH: &'static str = "/health";
pub const USERS_PATH: &'static str = "/users";
pub const USER_PREFIX: &'static str = "/users/";
pub const DOWNLOAD_PATH: &'static str = "/download";
pub const UPLOAD_PATH: &'static str = "/upload";

/// The trailing identifier of a `/users/{id}` path: one nonempty segment.
pub open spec fn user_segment(path: Seq<char>) -> Option<Seq<char>> {
    if has_prefix(path, USER_PREFIX@) {
        let seg = path.subrange(USER_PREFIX@.len() as int, path.len() as int);
        if seg.len() > 0 && !seg.contains('/') {
            Some(seg)
        } else {
            None
        }
    } else {
        None
    }
}

/// The route table: which route, if any, a method and path select.
pub open spec fn route_of(method: Method, path: Seq<char>) -> Option<RouteView> {
    if path == HEALTH_PATH@ {
        if method == Method::Get { Some(RouteView::Health) } else { None }
    } else if path == USERS_PATH@ {
        if method == Method::Get {
            Some(RouteView::ListUsers)
        } else if method == Method::Post {
            Some(RouteView::CreateUser)
        } else {
            None
        }
    } else if path == DOWNLOAD_PATH@ {
        if method == Method::Get { Some(RouteView::Download) } else { None }
    } else if path == UPLOAD_PATH@ {
        if method == Method::Post { Some(RouteView::Upload) } else { None }
    } else {
        match user_segment(path) {
            Some(id) => if method == Method::Get {
                Some(RouteView::RetrieveUser(id))
            } else if method == Method::Delete {
                Some(RouteView::DeleteUser(id))
            } else {
                None
            },
            None => None,
        }
    }
}

/// Which routes carry the authorization filter, fixed at registration.
pub open spec fn gated(route: RouteView) -> bool {
    match route {
        RouteView::CreateUser => true,
        RouteView::DeleteUser(_) => true,
        RouteView::Upload => true,
        _ => false,
    }
}

/// What the dispatcher decides for a request.
pub open spec fn dispatch_of(
    method: Method,
    path: Seq<char>,
    header: Option<Seq<char>>,
    secret: Seq<char>,
) -> DispatchView {
    match route_of(method, path) {
        None => DispatchView::NoRoute,
        Some(r) => if gated(r) && !authorized(header, secret) {
            DispatchView::Unauthorized
        } else {
            DispatchView::Handle(r)
        },
    }
}

/// Whether `s` contains the character `c`.
fn contains_char(s: &str, c: char) -> (r: bool)
    ensures
        r == s@.contains(c),
{
    let n = s.unicode_len();
    let mut i: usize = 0;
    while i < n
        invariant
            n == s@.len(),
            i <= n,
            forall|j: int| 0 <= j < i ==> s@[j] != c,
        decreases n - i,
    {
        if s.get_char(i) == c {
            assert(s@[i as int] == c);
            return true;
        }
        i = i + 1;
    }
    false
}

/// The identifier segment of a `/users/{id}` path.
fn parse_user_segment<'a>(path: &'a str) -> (r: Option<&'a str>)
    ensures
        opt_view(r) == user_segment(path@),
{
    if !starts_with(path, USER_PREFIX) {
        return None;
    }
    let n = USER_PREFIX.unicode_len();
    let len = path.unicode_len();
    let seg = path.substring_char(n, len);
    if seg.unicode_len() > 0 && !contains_char(seg, '/') {
        Some(seg)
    } else {
        None
    }
}

/// Whether the route carries the authorization filter.
pub fn requires_auth(route: &Route) -> (r: bool)
    ensures
        r == gated(route@),
{
    match route {
        Route::CreateUser => true,
        Route::DeleteUser(_) => true,
        Route::Upload => true,
        _ => false,
    }
}

/// Selects the route of a method and path.
pub fn match_route(method: Method, path: &str) -> (r: Option<Route>)
    ensures
        match r {
            Some(route) => route_of(method, path@) == Some(route@),
            None => route_of(method, path@) is None,
        },
{
    if str_equal(path, HEALTH_PATH) {
        if method == Method::Get { Some(Route::Health) } else { None }
    } else if str_equal(path, USERS_PATH) {
        if method == Method::Get {
            Some(Route::ListUsers)
        } else if method == Method::Post {
            Some(Route::CreateUser)
        } else {
            None
        }
    } else if str_equal(path, DOWNLOAD_PATH) {
        if method == Method::Get { Some(Route::Download) } else { None }
    } else if str_equal(path, UPLOAD_PATH) {
        if method == Method::Post { Some(Route::Upload) } else { None }
    } else {
        match parse_user_segment(path) {
            Some(id) => if method == Method::Get {
                Some(Route::RetrieveUser(id.to_string()))
            } else if method == Method::Delete {
                Some(Route::DeleteUser(id.to_string()))
            } else {
                None
            },
            None => None,
        }
    }
}

/// Matches the request to a route and, where the route is gated, runs the
/// authorization filter before its handler may run.
pub fn dispatch(method: Method, path: &str, header: Option<&str>, config: &Config) -> (r: Dispatch)
    ensures
        r@ == dispatch_of(method, path@, opt_view(header), config.auth_token@),
{
    match match_route(method, path) {
        None => Dispatch::NoRoute,
        Some(route) => {
            if requires_auth(&route) {
                match auth(header, config) {
                    Ok(()) => Dispatch::Handle(route),
                    Err(_) => Dispatch::Unauthorized,
                }
            } else {
                Dispatch::Handle(route)
            }
        },
    }
}

} // verus!
