//! The resource handlers of the "things" API: each maps one request to one
//! response, statelessly and without side effects. No store is consulted, so
//! every handler is total and answers with status 200 and a descriptive body.

use vstd::prelude::*;
use crate::numbers::dec_rep;
use crate::numbers::u64_to_string;
use crate::pagination::PaginationRequest;
use crate::pagination::PaginationResolved;
use crate::pagination::resolved_of;

verus! {

/// The status code every handler answers with.
pub const STATUS_OK: u16 = 200;

/// A response: a status code and a human-readable body.
pub struct Response {
    pub status: u16,
    pub body: String,
}

/// The body of a listing response, naming the resolved pagination.
pub open spec fn list_body(p: PaginationResolved) -> Seq<char> {
    "List things: page "@ + dec_rep(p.page as nat) + ", per_page "@ + dec_rep(p.per_page as nat)
        + "."@
}

/// The body of a get-by-id response.
pub open spec fn get_body(id: u64) -> Seq<char> {
    "Get thing "@ + dec_rep(id as nat) + "."@
}

/// The body of an update-by-id response.
pub open spec fn update_body(id: u64) -> Seq<char> {
    "Update thing "@ + dec_rep(id as nat) + "."@
}

/// The body of a delete-by-id response.
pub open spec fn remove_body(id: u64) -> Seq<char> {
    "Delete thing "@ + dec_rep(id as nat) + "."@
}

/// List the resource, after resolving the caller's pagination parameters.
pub fn index(req: &PaginationRequest) -> (r: Response)
    ensures
        r.status == STATUS_OK,
        r.body@ == list_body(resolved_of(*req)),
{
    let p = req.resolve();
    let mut body = String::new();
    body.append("List things: page ");
    let page_text = u64_to_string(p.page);
    body.append(page_text.as_str());
    body.append(", per_page ");
    let per_page_text = u64_to_string(p.per_page);
    body.append(per_page_text.as_str());
    body.append(".");
    proof {
        assert(body@ =~= list_body(resolved_of(*req)));
    }
    Response { status: STATUS_OK, body }
}

/// Answer for one resource instance. No lookup is performed.
pub fn get_by_id(id: u64) -> (r: Response)
    ensures
        r.status == STATUS_OK,
        r.body@ == get_body(id),
{
    let mut body = String::new();
    body.append("Get thing ");
    let id_text = u64_to_string(id);
    body.append(id_text.as_str());
    body.append(".");
    proof {
        assert(body@ =~= get_body(id));
    }
    Response { status: STATUS_OK, body }
}

/// Acknowledge a creation request. No resource is actually created.
pub fn create() -> (r: Response)
    ensures
        r.status == STATUS_OK,
        r.body@ == "Add a thing."@,
{
    let mut body = String::new();
    body.append("Add a thing.");
    proof {
        assert(body@ =~= "Add a thing."@);
    }
    Response { status: STATUS_OK, body }
}

/// Acknowledge an update request. No mutation is performed.
pub fn update_by_id(id: u64) -> (r: Response)
    ensures
        r.status == STATUS_OK,
        r.body@ == update_body(id),
{
    let mut body = String::new();
    body.append("Update thing ");
    let id_text = u64_to_string(id);
    body.append(id_text.as_str());
    body.append(".");
    proof {
        assert(body@ =~= update_body(id));
    }
    Response { status: STATUS_OK, body }
}

/// Acknowledge a deletion request. No deletion is performed.
pub fn remove_by_id(id: u64) -> (r: Response)
    ensures
        r.status == STATUS_OK,
        r.body@ == remove_body(id),
{
    let mut body = String::new();
    body.append("Delete thing ");
    let id_text = u64_to_string(id);
    body.append(id_text.as_str());
    body.append(".");
    proof {
        assert(body@ =~= remove_body(id));
    }
    Response { status: STATUS_OK, body }
}

} // verus!
