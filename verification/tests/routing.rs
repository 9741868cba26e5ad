use things_api::handlers;
use things_api::pagination::PaginationRequest;
use things_api::routes::handle_request;
use things_api::routes::match_route;
use things_api::routes::Method;
use things_api::routes::Route;

fn no_pagination() -> PaginationRequest {
    PaginationRequest {
        page: None,
        per_page: None,
    }
}

#[test]
fn collection_routes() {
    assert_eq!(match_route(Method::Get, "/api/v1/things"), Some(Route::List));
    assert_eq!(match_route(Method::Post, "/api/v1/things"), Some(Route::Create));
    assert_eq!(match_route(Method::Put, "/api/v1/things"), None);
    assert_eq!(match_route(Method::Delete, "/api/v1/things"), None);
}

#[test]
fn item_routes() {
    assert_eq!(match_route(Method::Get, "/api/v1/things/42"), Some(Route::GetById(42)));
    assert_eq!(match_route(Method::Put, "/api/v1/things/42"), Some(Route::UpdateById(42)));
    assert_eq!(match_route(Method::Delete, "/api/v1/things/42"), Some(Route::RemoveById(42)));
    assert_eq!(match_route(Method::Post, "/api/v1/things/42"), None);
}

#[test]
fn unknown_paths_do_not_match() {
    assert_eq!(match_route(Method::Get, ""), None);
    assert_eq!(match_route(Method::Get, "/"), None);
    assert_eq!(match_route(Method::Get, "/api/v1"), None);
    assert_eq!(match_route(Method::Get, "/api/v1/widgets"), None);
    assert_eq!(match_route(Method::Get, "/api/v2/things"), None);
    assert_eq!(match_route(Method::Get, "/api/v1/thingss"), None);
}

#[test]
fn item_path_needs_a_numeric_id() {
    assert_eq!(match_route(Method::Get, "/api/v1/things/"), None);
    assert_eq!(match_route(Method::Get, "/api/v1/things/abc"), None);
    assert_eq!(match_route(Method::Get, "/api/v1/things/4x2"), None);
    assert_eq!(match_route(Method::Get, "/api/v1/things/42/extra"), None);
    assert_eq!(match_route(Method::Get, "/api/v1/things/18446744073709551616"), None);
}

#[test]
fn item_id_with_leading_zeros() {
    assert_eq!(match_route(Method::Get, "/api/v1/things/007"), Some(Route::GetById(7)));
}

#[test]
fn list_with_no_query_references_defaults() {
    let r = handle_request(Method::Get, "/api/v1/things", &no_pagination()).unwrap();
    assert_eq!(r.status, 200);
    assert_eq!(r.body, "List things: page 1, per_page 10.");
}

#[test]
fn list_with_supplied_pagination() {
    let pagination = PaginationRequest {
        page: Some(45),
        per_page: Some(54),
    };
    let r = handle_request(Method::Get, "/api/v1/things", &pagination).unwrap();
    assert_eq!(r.status, 200);
    assert_eq!(r.body, "List things: page 45, per_page 54.");
}

#[test]
fn get_thing_42() {
    let r = handle_request(Method::Get, "/api/v1/things/42", &no_pagination()).unwrap();
    assert_eq!(r.status, 200);
    assert_eq!(r.body, "Get thing 42.");
}

#[test]
fn create_update_delete_bodies() {
    let r = handle_request(Method::Post, "/api/v1/things", &no_pagination()).unwrap();
    assert_eq!((r.status, r.body.as_str()), (200, "Add a thing."));
    let r = handle_request(Method::Put, "/api/v1/things/42", &no_pagination()).unwrap();
    assert_eq!((r.status, r.body.as_str()), (200, "Update thing 42."));
    let r = handle_request(Method::Delete, "/api/v1/things/42", &no_pagination()).unwrap();
    assert_eq!((r.status, r.body.as_str()), (200, "Delete thing 42."));
}

#[test]
fn unmatched_request_gets_no_response() {
    assert!(handle_request(Method::Get, "/api/v1/widgets", &no_pagination()).is_none());
}

#[test]
fn handlers_answer_directly() {
    let r = handlers::get_by_id(7);
    assert_eq!((r.status, r.body.as_str()), (200, "Get thing 7."));
    let r = handlers::update_by_id(0);
    assert_eq!((r.status, r.body.as_str()), (200, "Update thing 0."));
    let r = handlers::remove_by_id(u64::MAX);
    assert_eq!(
        (r.status, r.body.as_str()),
        (200, "Delete thing 18446744073709551615.")
    );
    let r = handlers::index(&PaginationRequest {
        page: Some(2),
        per_page: None,
    });
    assert_eq!((r.status, r.body.as_str()), (200, "List things: page 2, per_page 10."));
}
