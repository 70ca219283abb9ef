use hermes::router::{Admission, RequestSignature, Response, Route, Routed, Router};

#[test]
fn anchor_adds_missing_anchors() {
    assert_eq!(Route::anchor("/api/feeds"), "^/api/feeds$");
    assert_eq!(Route::anchor("^/x$"), "^/x$");
    assert_eq!(Route::anchor("^/x"), "^/x$");
    assert_eq!(Route::anchor("/x$"), "^/x$");
    assert_eq!(Route::anchor(""), "^$");
    assert_eq!(Route::anchor("^"), "^$");
    assert_eq!(Route::anchor("$"), "^$");
}

#[test]
fn anchoring_twice_changes_nothing() {
    for p in ["", "a", "^a", "a$", "^a$", "/item/\\d+"] {
        let once = Route::anchor(p);
        assert_eq!(Route::anchor(&once), once);
    }
}

#[test]
fn route_matches_whole_path_only() {
    let r = Route::new("GET", "/api/item/\\d+", RequestSignature::Open(0));
    assert!(r.matches("/api/item/42"));
    assert!(!r.matches("/api/item/42/x"));
    assert!(!r.matches("/x/api/item/42"));
}

#[test]
fn try_new_refuses_a_bad_pattern() {
    assert!(Route::try_new("GET", "/(", RequestSignature::Open(0)).is_none());
    assert!(Route::try_new("GET", "/ok", RequestSignature::Open(0)).is_some());
}

#[test]
fn first_matching_route_wins() {
    let mut router = Router::build();
    router.auth_handler(9);
    router.open_route("GET", "/feeds", 1);
    router.closed_route("GET", "/feeds", 2);
    router.closed_route("POST", "/feeds", 3);
    router.open_route("GET", "/item/\\d+", 4);
    assert_eq!(router.parse("GET", "/feeds"), Routed::Open(1));
    assert_eq!(router.parse("POST", "/feeds"), Routed::Closed(3));
    assert_eq!(router.parse("GET", "/item/12"), Routed::Open(4));
    assert_eq!(router.parse("DELETE", "/feeds"), Routed::Answer(not_found()));
    assert_eq!(router.parse("GET", "/nothing"), Routed::Answer(not_found()));
    assert_eq!(router.auth_handler, Some(9));
}

#[test]
fn try_route_leaves_table_alone_on_bad_pattern() {
    let mut router = Router::build();
    assert!(!router.try_route("GET", "[", RequestSignature::Open(1)));
    assert_eq!(router.routes.len(), 0);
    assert!(router.try_route("GET", "/a", RequestSignature::Closed(1)));
    router.auth_handler(0);
    assert_eq!(router.parse("GET", "/a"), Routed::Closed(1));
}

#[test]
fn authorize_needs_a_user() {
    assert_eq!(Router::authorize(3, Some("bob".to_string())), Admission::Call(3, "bob".to_string()));
    assert_eq!(Router::authorize(3, None), Admission::Refused(empty(401)));
}

fn empty(status: u16) -> Response {
    Response {
        status,
        headers: vec![("Access-Control-Allow-Origin".to_string(), "*".to_string())],
        body: vec![],
    }
}

fn not_found() -> Response {
    empty(404)
}

#[test]
fn empty_table_answers_404() {
    let router = Router::build();
    match router.parse("GET", "/api/feeds") {
        Routed::Answer(r) => {
            assert_eq!(r.status, 404);
            assert!(r.body.is_empty());
            assert_eq!(r.headers, vec![("Access-Control-Allow-Origin".to_string(), "*".to_string())]);
        }
        other => panic!("expected an answer, got {:?}", other),
    }
}

#[test]
fn responses_carry_the_cors_header() {
    let r = Router::response(b"hello".to_vec(), 200);
    assert_eq!(r.status, 200);
    assert_eq!(r.body, b"hello".to_vec());
    assert_eq!(r.headers, vec![("Access-Control-Allow-Origin".to_string(), "*".to_string())]);
    assert_eq!(Router::throw_code(401), empty(401));
}

#[test]
fn closed_route_needs_an_auth_handler() {
    let mut router = Router::build();
    router.open_route("GET", "/open", 1);
    router.closed_route("GET", "/closed", 2);
    assert_eq!(router.try_parse("GET", "/closed"), None);
    assert_eq!(router.try_parse("GET", "/open"), Some(Routed::Open(1)));
    assert_eq!(router.try_parse("GET", "/none"), Some(Routed::Answer(not_found())));
    router.auth_handler(5);
    assert_eq!(router.try_parse("GET", "/closed"), Some(Routed::Closed(2)));
}
