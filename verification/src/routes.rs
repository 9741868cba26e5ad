//! The static route table of the API: it maps an HTTP method and a request
//! path, under the versioned prefix `/api/v1`, to the handler that serves it,
//! and dispatches a matched request.

use vstd::prelude::*;
use crate::handlers;
use crate::handlers::Response;
use crate::handlers::STATUS_OK;
use crate::numbers::dec_value;
use crate::numbers::is_digit_seq;
use crate::numbers::parse_u64;
use crate::pagination::PaginationRequest;
use crate::pagination::resolved_of;

verus! {

/// The HTTP methods the route table distinguishes.
#[derive(Clone, Copy, Debug, PartialEq, Eq)]
pub enum Method {
    Get,
    Post,
    Put,
    Delete,
}

/// The operations of the API, one per handler; those on a single resource
/// instance carry its identifier.
#[derive(Clone, Copy, Debug, PartialEq, Eq)]
pub enum Route {
    List,
    Create,
    GetById(u64),
    UpdateById(u64),
    RemoveById(u64),
}

/// The collection path of the resource.
pub open spec fn collection_path() -> Seq<char> {
    "/api/v1/things"@
}

/// The prefix of the path of a single resource instance; an identifier
/// follows it.
pub open spec fn item_prefix() -> Seq<char> {
    "/api/v1/things/"@
}

/// Whether a path names a single resource instance, and which: it must extend
/// the item prefix with a non-empty run of digits whose value fits in a
/// `u64`.
pub open spec fn item_id_of(path: Seq<char>) -> Option<u64> {
    if path.len() > item_prefix().len() && path.subrange(0, item_prefix().len() as int)
        == item_prefix() {
        let tail = path.subrange(item_prefix().len() as int, path.len() as int);
        if is_digit_seq(tail) && dec_value(tail) <= u64::MAX {
            Some(dec_value(tail) as u64)
        } else {
            None
        }
    } else {
        None
    }
}

/// The route table: which operation, if any, serves a method and path.
pub open spec fn route_of(method: Method, path: Seq<char>) -> Option<Route> {
    if path == collection_path() {
        match method {
            Method::Get => Some(Route::List),
            Method::Post => Some(Route::Create),
            _ => None,
        }
    } else {
        match item_id_of(path) {
            Some(id) => match method {
                Method::Get => Some(Route::GetById(id)),
                Method::Put => Some(Route::UpdateById(id)),
                Method::Delete => Some(Route::RemoveById(id)),
                _ => None,
            },
            None => None,
        }
    }
}

/// Whether two string slices hold the same characters.
fn str_eq(a: &str, b: &str) -> (r: bool)
    ensures
        r == (a@ == b@),
{
    let an = a.unicode_len();
    let bn = b.unicode_len();
    if an != bn {
        return false;
    }
    let mut i: usize = 0;
    while i < an
        invariant
            0 <= i <= an,
            an as nat == a@.len(),
            an as nat == b@.len(),
            forall|j: int| 0 <= j < i ==> a@[j] == b@[j],
        decreases an - i,
    {
        if a.get_char(i) != b.get_char(i) {
            return false;
        }
        i = i + 1;
    }
    proof {
        assert(a@ =~= b@);
    }
    true
}

/// Whether `p` is a prefix of the characters of `s`.
fn str_has_prefix(s: &str, p: &str) -> (r: bool)
    ensures
        r == (s@.len() >= p@.len() && s@.subrange(0, p@.len() as int) == p@),
{
    let sn = s.unicode_len();
    let pn = p.unicode_len();
    if sn < pn {
        return false;
    }
    let mut i: usize = 0;
    while i < pn
        invariant
            0 <= i <= pn,
            sn as nat == s@.len(),
            pn as nat == p@.len(),
            pn <= sn,
            forall|j: int| 0 <= j < i ==> s@[j] == p@[j],
        decreases pn - i,
    {
        if s.get_char(i) != p.get_char(i) {
            proof {
                assert(s@.subrange(0, p@.len() as int)[i as int] != p@[i as int]);
            }
            return false;
        }
        i = i + 1;
    }
    proof {
        assert(s@.subrange(0, p@.len() as int) =~= p@);
    }
    true
}

/// Match a method and path against the route table.
pub fn match_route(method: Method, path: &str) -> (r: Option<Route>)
    ensures
        r == route_of(method, path@),
{
    if str_eq(path, "/api/v1/things") {
        match method {
            Method::Get => Some(Route::List),
            Method::Post => Some(Route::Create),
            _ => None,
        }
    } else if str_has_prefix(path, "/api/v1/things/") {
        proof {
            reveal_strlit("/api/v1/things/");
        }
        let n = path.unicode_len();
        let tail = path.substring_char(15, n);
        match parse_u64(tail) {
            Some(id) => match method {
                Method::Get => Some(Route::GetById(id)),
                Method::Put => Some(Route::UpdateById(id)),
                Method::Delete => Some(Route::RemoveById(id)),
                _ => None,
            },
            None => None,
        }
    } else {
        None
    }
}

/// The body that serves a matched route, given the caller's pagination
/// parameters (they matter only to the listing).
pub open spec fn body_of(route: Route, pagination: PaginationRequest) -> Seq<char> {
    match route {
        Route::List => handlers::list_body(resolved_of(pagination)),
        Route::Create => "Add a thing."@,
        Route::GetById(id) => handlers::get_body(id),
        Route::UpdateById(id) => handlers::update_body(id),
        Route::RemoveById(id) => handlers::remove_body(id),
    }
}

/// Serve one request: match it against the route table and run the handler.
/// An unmatched request gets no response here; what to answer then is the
/// hosting layer's affair.
pub fn handle_request(method: Method, path: &str, pagination: &PaginationRequest) -> (r: Option<
    Response,
>)
    ensures
        r is Some <==> route_of(method, path@) is Some,
        r is Some ==> r->0.status == STATUS_OK,
        r is Some ==> r->0.body@ == body_of(route_of(method, path@)->0, *pagination),
{
    match match_route(method, path) {
        Some(Route::List) => Some(handlers::index(pagination)),
        Some(Route::Create) => Some(handlers::create()),
        Some(Route::GetById(id)) => Some(handlers::get_by_id(id)),
        Some(Route::UpdateById(id)) => Some(handlers::update_by_id(id)),
        Some(Route::RemoveById(id)) => Some(handlers::remove_by_id(id)),
        None => None,
    }
}

} // verus!
