use zkscan_api::cache::AlwaysCacheMiddleware;
use zkscan_api::cache::CacheWorld;
use zkscan_api::cache::LookupStep;
use zkscan_api::cache::RequestLine;
use zkscan_api::cache::Response;
use zkscan_api::cache::StoreLookup;
use zkscan_api::cache::status_is_error;
use zkscan_api::store::StoreModel;

fn route(cache_ttl: u32, with_query: bool) -> AlwaysCacheMiddleware {
    AlwaysCacheMiddleware { cache_ttl, with_query }
}

fn request(method: &str, path: &str, query: Option<&str>) -> RequestLine {
    RequestLine {
        method: method.to_string(),
        path: path.to_string(),
        query: query.map(|q| q.to_string()),
    }
}

fn world() -> CacheWorld {
    CacheWorld { store: StoreModel::new(), handler_calls: 0 }
}

fn ok_response(body: &[u8]) -> Response {
    Response { status: 200, body: body.to_vec() }
}

#[test]
fn key_includes_method() {
    let m = route(10, false);
    let k = m.cache_key(&request("GET", "/api/v1/block/1/2", None));
    assert_eq!(k, "/api/v1/block/1/2:GET");
}

#[test]
fn key_with_query_appends_query() {
    let m = route(10, true);
    let k = m.cache_key(&request("GET", "/x", Some("a=1")));
    assert_eq!(k, "/x?a=1:GET");
}

#[test]
fn distinct_queries_make_distinct_keys_when_included() {
    let m = route(10, true);
    let k1 = m.cache_key(&request("GET", "/x", Some("a=1")));
    let k2 = m.cache_key(&request("GET", "/x", Some("a=2")));
    assert_ne!(k1, k2);
}

#[test]
fn distinct_queries_share_key_when_excluded() {
    let m = route(10, false);
    let k1 = m.cache_key(&request("GET", "/x", Some("a=1")));
    let k2 = m.cache_key(&request("GET", "/x", Some("a=2")));
    assert_eq!(k1, k2);
    assert_eq!(k1, "/x:GET");
}

#[test]
fn lookup_hit_short_circuits() {
    let m = route(10, false);
    match m.on_lookup(StoreLookup::Hit(vec![1, 2, 3])) {
        LookupStep::Respond(r) => {
            assert_eq!(r.status, 200);
            assert_eq!(r.body, vec![1, 2, 3]);
        }
        LookupStep::InvokeHandler => panic!("a hit must not invoke the handler"),
    }
}

#[test]
fn lookup_miss_and_outage_invoke_handler() {
    let m = route(10, false);
    assert!(matches!(m.on_lookup(StoreLookup::Miss), LookupStep::InvokeHandler));
    assert!(matches!(m.on_lookup(StoreLookup::Unavailable), LookupStep::InvokeHandler));
}

#[test]
fn error_statuses_are_recognized() {
    assert!(!status_is_error(200));
    assert!(!status_is_error(304));
    assert!(status_is_error(400));
    assert!(status_is_error(404));
    assert!(status_is_error(500));
    assert!(status_is_error(599));
    assert!(!status_is_error(600));
}

#[test]
fn success_response_owes_a_write() {
    let m = route(7, false);
    let key = "/x:GET".to_string();
    let (resp, write) = m.on_handler_response(key, ok_response(b"payload"));
    assert_eq!(resp.status, 200);
    assert_eq!(resp.body, b"payload".to_vec());
    let w = write.expect("a successful response must be written through");
    assert_eq!(w.key, "/x:GET");
    assert_eq!(w.payload, b"payload".to_vec());
    assert_eq!(w.ttl_seconds, 7);
}

#[test]
fn error_response_owes_no_write() {
    let m = route(7, false);
    let (resp, write) = m.on_handler_response(
        "/x:GET".to_string(),
        Response { status: 404, body: b"missing".to_vec() },
    );
    assert_eq!(resp.status, 404);
    assert_eq!(resp.body, b"missing".to_vec());
    assert!(write.is_none());
}

#[test]
fn repeat_request_within_ttl_invokes_handler_once() {
    let m = route(10, true);
    let mut w = world();
    let req = request("GET", "/blocks", Some("a=1"));
    let r1 = w_intercept(&m, &mut w, 100, &req, ok_response(b"body-1"), true);
    assert_eq!(w.handler_calls, 1);
    // The second handler answer differs; it must never be consulted.
    let r2 = w_intercept(&m, &mut w, 105, &req, ok_response(b"body-2"), true);
    assert_eq!(w.handler_calls, 1);
    assert_eq!(r1.body, b"body-1".to_vec());
    assert_eq!(r2.body, r1.body);
}

#[test]
fn repeat_request_after_ttl_invokes_handler_again() {
    let m = route(10, false);
    let mut w = world();
    let req = request("GET", "/blocks", None);
    w_intercept(&m, &mut w, 100, &req, ok_response(b"old"), true);
    assert_eq!(w.handler_calls, 1);
    let r = w_intercept(&m, &mut w, 110, &req, ok_response(b"new"), true);
    assert_eq!(w.handler_calls, 2);
    assert_eq!(r.body, b"new".to_vec());
}

#[test]
fn failing_requests_are_never_cached() {
    let m = route(3600, false);
    let mut w = world();
    let req = request("GET", "/broken", None);
    for n in 1..=5u64 {
        let r = w_intercept(
            &m,
            &mut w,
            100 + n,
            &req,
            Response { status: 500, body: b"boom".to_vec() },
            true,
        );
        assert_eq!(r.status, 500);
        assert_eq!(w.handler_calls, n);
    }
}

#[test]
fn store_outage_degrades_to_pass_through() {
    let m = route(10, false);
    let mut w = world();
    let req = request("GET", "/x", None);
    let r1 = w_intercept(&m, &mut w, 100, &req, ok_response(b"first"), false);
    let r2 = w_intercept(&m, &mut w, 101, &req, ok_response(b"second"), false);
    assert_eq!(r1.body, b"first".to_vec());
    assert_eq!(r2.body, b"second".to_vec());
    assert_eq!(w.handler_calls, 2);
}

#[test]
fn keys_separate_routes_with_query_included() {
    let m = route(10, true);
    let mut w = world();
    let r1 = w_intercept(&m, &mut w, 100, &request("GET", "/x", Some("a=1")), ok_response(b"one"), true);
    let r2 = w_intercept(&m, &mut w, 101, &request("GET", "/x", Some("a=2")), ok_response(b"two"), true);
    assert_eq!(w.handler_calls, 2);
    assert_eq!(r1.body, b"one".to_vec());
    assert_eq!(r2.body, b"two".to_vec());
}

#[test]
fn keys_shared_without_query_hit_across_queries() {
    let m = route(10, false);
    let mut w = world();
    let r1 = w_intercept(&m, &mut w, 100, &request("GET", "/x", Some("a=1")), ok_response(b"one"), true);
    let r2 = w_intercept(&m, &mut w, 101, &request("GET", "/x", Some("a=2")), ok_response(b"never"), true);
    assert_eq!(w.handler_calls, 1);
    assert_eq!(r2.body, r1.body);
}

fn w_intercept(
    m: &AlwaysCacheMiddleware,
    w: &mut CacheWorld,
    now: u64,
    req: &RequestLine,
    handler_response: Response,
    store_online: bool,
) -> Response {
    m.intercept(w, now, req, handler_response, store_online)
}
