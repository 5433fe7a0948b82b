//! Response-caching interceptor: computes a deterministic cache key from
//! the request line, short-circuits on a cache hit, and writes successful
//! responses through with a time-to-live. Error responses are never cached,
//! and a store outage degrades every request to a pass-through.

use vstd::prelude::*;

use crate::bytes::copy_bytes;
use crate::store::EntryModel;
use crate::store::StoreModel;
use crate::store::spec_get;

verus! {

/// The request data the interceptor reads: method, path, and the query
/// string, if the request carried one.
pub struct RequestLine {
    pub method: String,
    pub path: String,
    pub query: Option<String>,
}

/// Abstract counterpart of `RequestLine`.
pub struct RequestModel {
    pub method: Seq<char>,
    pub path: Seq<char>,
    pub query: Option<Seq<char>>,
}

impl View for RequestLine {
    type V = RequestModel;

    open spec fn view(&self) -> RequestModel {
        RequestModel {
            method: self.method@,
            path: self.path@,
            query: match self.query {
                Some(q) => Some(q@),
                None => None,
            },
        }
    }
}

/// A buffered response: its status code and its full body.
pub struct Response {
    pub status: u16,
    pub body: Vec<u8>,
}

/// Abstract counterpart of `Response`.
pub struct ResponseModel {
    pub status: u16,
    pub body: Seq<u8>,
}

impl View for Response {
    type V = ResponseModel;

    open spec fn view(&self) -> ResponseModel {
        ResponseModel { status: self.status, body: self.body@ }
    }
}

/// A client or server error: such a response is returned unmodified and
/// never cached.
pub open spec fn is_error_status(status: u16) -> bool {
    400 <= status < 600
}

/// Runtime check for `is_error_status`.
pub fn status_is_error(status: u16) -> (r: bool)
    ensures
        r == is_error_status(status),
{
    400 <= status && status < 600
}

/// The full path of a request: the path, then `?` and the query string if
/// the request carried one.
pub open spec fn spec_full_path(r: RequestModel) -> Seq<char> {
    match r.query {
        Some(q) => r.path + seq!['?'] + q,
        None => r.path,
    }
}

/// The cache key of a request: the full path with query if the route is
/// configured to include it, the bare path otherwise, then `:` and the
/// method.
pub open spec fn spec_key(with_query: bool, r: RequestModel) -> Seq<char> {
    (if with_query {
        spec_full_path(r)
    } else {
        r.path
    }) + seq![':'] + r.method
}

/// Caches every successful response of the routes it wraps, keyed by path
/// (and query, when so configured) and method, for a fixed time-to-live.
#[derive(Clone, Copy)]
pub struct AlwaysCacheMiddleware {
    pub cache_ttl: u32,
    pub with_query: bool,
}

/// What the interceptor decides after asking the store about a key.
pub enum LookupStep {
    /// Cache hit: return this response at once; the handler never runs.
    Respond(Response),
    /// Cache miss, or the store was unreachable: run the wrapped handler.
    InvokeHandler,
}

/// What the store answered for a key, as the caller saw it.
pub enum StoreLookup {
    /// The key was present and unexpired, with this payload.
    Hit(Vec<u8>),
    /// The key was absent or expired.
    Miss,
    /// The store could not be reached; treated exactly like a miss.
    Unavailable,
}

/// A write-through the caller owes the store after a cacheable response.
pub struct CacheWrite {
    pub key: String,
    pub payload: Vec<u8>,
    pub ttl_seconds: u64,
}

impl AlwaysCacheMiddleware {
    /// The cache key for a request under this route's configuration.
    pub fn cache_key(&self, req: &RequestLine) -> (k: String)
        ensures
            k@ == spec_key(self.with_query, req@),
    {
        let mut k = String::new();
        k.append(req.path.as_str());
        if self.with_query {
            if let Some(q) = &req.query {
                k.append("?");
                k.append(q.as_str());
            }
        }
        k.append(":");
        k.append(req.method.as_str());
        proof {
            reveal_strlit("?");
            reveal_strlit(":");
            assert(k@ =~= spec_key(self.with_query, req@));
        }
        k
    }

    /// The short-circuit decision: a hit is returned as a successful
    /// response without invoking the handler; a miss and an unreachable
    /// store both fall through to the handler.
    pub fn on_lookup(&self, lookup: StoreLookup) -> (step: LookupStep)
        ensures
            match lookup {
                StoreLookup::Hit(p) => (step matches LookupStep::Respond(r) && r@.status == 200
                    && r@.body == p@),
                StoreLookup::Miss => step is InvokeHandler,
                StoreLookup::Unavailable => step is InvokeHandler,
            },
    {
        match lookup {
            StoreLookup::Hit(p) => LookupStep::Respond(Response { status: 200, body: p }),
            StoreLookup::Miss => LookupStep::InvokeHandler,
            StoreLookup::Unavailable => LookupStep::InvokeHandler,
        }
    }

    /// After the handler ran: an error response passes through uncached;
    /// any other response passes through unchanged and owes the store a
    /// write of its body under this key, with this route's time-to-live.
    pub fn on_handler_response(&self, key: String, response: Response) -> (r: (
        Response,
        Option<CacheWrite>,
    ))
        ensures
            r.0@ == response@,
            is_error_status(response@.status) ==> r.1 is None,
            !is_error_status(response@.status) ==> (r.1 matches Some(w) && w.key@ == key@
                && w.payload@ == response@.body && w.ttl_seconds == self.cache_ttl as u64),
    {
        if status_is_error(response.status) {
            (response, None)
        } else {
            let payload = copy_bytes(&response.body);
            (response, Some(CacheWrite { key, payload, ttl_seconds: self.cache_ttl as u64 }))
        }
    }
}

/// Everything one interceptor acts on: the store it reads and writes, and a
/// count of how many times the wrapped handler was invoked.
pub struct CacheWorld {
    pub store: StoreModel,
    pub handler_calls: u64,
}

/// Abstract counterpart of `CacheWorld`.
pub struct WorldModel {
    pub store: Map<Seq<char>, EntryModel>,
    pub handler_calls: nat,
}

impl View for CacheWorld {
    type V = WorldModel;

    open spec fn view(&self) -> WorldModel {
        WorldModel { store: self.store@, handler_calls: self.handler_calls as nat }
    }
}

/// One intercepted request, from lookup to response: a hit answers the
/// cached payload without invoking the handler; otherwise the handler runs,
/// an error response passes through uncached, and any other response is
/// written through with this route's time-to-live. When the store is
/// offline the request degrades to a pass-through and nothing is written.
pub open spec fn spec_intercept(
    m: AlwaysCacheMiddleware,
    w: WorldModel,
    now: int,
    req: RequestModel,
    handler: ResponseModel,
    store_online: bool,
) -> (WorldModel, ResponseModel) {
    let k = spec_key(m.with_query, req);
    let cached = if store_online {
        spec_get(w.store, k, now)
    } else {
        None
    };
    if cached is Some {
        (w, ResponseModel { status: 200, body: cached.unwrap() })
    } else if is_error_status(handler.status) || !store_online {
        (WorldModel { store: w.store, handler_calls: w.handler_calls + 1 }, handler)
    } else {
        (
            WorldModel {
                store: w.store.insert(
                    k,
                    EntryModel { payload: handler.body, expires_at: now + m.cache_ttl as int },
                ),
                handler_calls: w.handler_calls + 1,
            },
            handler,
        )
    }
}

impl AlwaysCacheMiddleware {
    /// Intercept one request against an in-process store. The caller hands
    /// in what the wrapped handler would answer; the handler-invocation
    /// count goes up exactly when the cache does not short-circuit.
    pub fn intercept(
        &self,
        world: &mut CacheWorld,
        now: u64,
        req: &RequestLine,
        handler_response: Response,
        store_online: bool,
    ) -> (r: Response)
        requires
            old(world).store.well_formed(),
            old(world)@.handler_calls < u64::MAX,
            now + self.cache_ttl <= u64::MAX,
        ensures
            final(world).store.well_formed(),
            final(world)@ == spec_intercept(
                *self,
                old(world)@,
                now as int,
                req@,
                handler_response@,
                store_online,
            ).0,
            r@ == spec_intercept(
                *self,
                old(world)@,
                now as int,
                req@,
                handler_response@,
                store_online,
            ).1,
    {
        let key = self.cache_key(req);
        let lookup: StoreLookup = if store_online {
            match world.store.get(&key, now) {
                Some(p) => StoreLookup::Hit(p),
                None => StoreLookup::Miss,
            }
        } else {
            StoreLookup::Unavailable
        };
        match self.on_lookup(lookup) {
            LookupStep::Respond(resp) => resp,
            LookupStep::InvokeHandler => {
                world.handler_calls = world.handler_calls + 1;
                let (resp, write) = self.on_handler_response(key, handler_response);
                if store_online {
                    if let Some(w) = write {
                        let expires_at = now + w.ttl_seconds;
                        world.store.set(w.key, w.payload, expires_at);
                    }
                }
                resp
            },
        }
    }
}

/// Law: on a cacheable route with the store reachable, two identical
/// requests within the time-to-live window return byte-identical bodies,
/// and the wrapped handler runs exactly once, not twice.
pub proof fn lemma_repeat_request_hits(
    m: AlwaysCacheMiddleware,
    w0: WorldModel,
    now1: int,
    now2: int,
    req: RequestModel,
    h1: ResponseModel,
    h2: ResponseModel,
)
    requires
        !is_error_status(h1.status),
        spec_get(w0.store, spec_key(m.with_query, req), now1) is None,
        now1 <= now2 < now1 + m.cache_ttl as int,
    ensures
        ({
            let (w1, r1) = spec_intercept(m, w0, now1, req, h1, true);
            let (w2, r2) = spec_intercept(m, w1, now2, req, h2, true);
            &&& r1.body == h1.body
            &&& r2.body == r1.body
            &&& w2.handler_calls == w0.handler_calls + 1
        }),
{
}

/// Law: once the time-to-live has elapsed, a repeat of the same request
/// misses and runs the wrapped handler exactly once more.
pub proof fn lemma_repeat_request_after_ttl(
    m: AlwaysCacheMiddleware,
    w0: WorldModel,
    now1: int,
    now3: int,
    req: RequestModel,
    h1: ResponseModel,
    h3: ResponseModel,
)
    requires
        !is_error_status(h1.status),
        spec_get(w0.store, spec_key(m.with_query, req), now1) is None,
        now1 + m.cache_ttl as int <= now3,
    ensures
        ({
            let (w1, r1) = spec_intercept(m, w0, now1, req, h1, true);
            let (w3, r3) = spec_intercept(m, w1, now3, req, h3, true);
            &&& r3 == h3
            &&& w3.handler_calls == w0.handler_calls + 2
        }),
{
}

/// The world after a run of identical requests, all answered by the handler
/// with the same response, at the given instants.
pub open spec fn spec_repeat_requests(
    m: AlwaysCacheMiddleware,
    w: WorldModel,
    times: Seq<int>,
    req: RequestModel,
    handler: ResponseModel,
) -> WorldModel
    decreases times.len(),
{
    if times.len() == 0 {
        w
    } else {
        spec_repeat_requests(
            m,
            spec_intercept(m, w, times[0], req, handler, true).0,
            times.drop_first(),
            req,
            handler,
        )
    }
}

/// Law: an error response is never cached — every one of a run of repeated
/// failing requests invokes the wrapped handler again, and the store is
/// left exactly as it was.
pub proof fn lemma_errors_never_cached(
    m: AlwaysCacheMiddleware,
    w0: WorldModel,
    times: Seq<int>,
    req: RequestModel,
    handler: ResponseModel,
)
    requires
        is_error_status(handler.status),
        forall|i: int|
            0 <= i < times.len() ==> spec_get(
                w0.store,
                spec_key(m.with_query, req),
                #[trigger] times[i],
            ) is None,
    ensures
        spec_repeat_requests(m, w0, times, req, handler).store == w0.store,
        spec_repeat_requests(m, w0, times, req, handler).handler_calls == w0.handler_calls
            + times.len(),
    decreases times.len(),
{
    if times.len() > 0 {
        let w1 = spec_intercept(m, w0, times[0], req, handler, true).0;
        assert(w1.store == w0.store);
        assert(forall|i: int|
            0 <= i < times.drop_first().len() ==> spec_get(
                w1.store,
                spec_key(m.with_query, req),
                #[trigger] times.drop_first()[i],
            ) is None);
        lemma_errors_never_cached(m, w1, times.drop_first(), req, handler);
    }
}

/// Law: with query inclusion on, two requests with the same path and method
/// but different query strings map to distinct cache keys.
pub proof fn lemma_keys_distinct_by_query(r1: RequestModel, r2: RequestModel)
    requires
        r1.path == r2.path,
        r1.method == r2.method,
        r1.query is Some,
        r2.query is Some,
        r1.query != r2.query,
    ensures
        spec_key(true, r1) != spec_key(true, r2),
{
    let q1 = r1.query.unwrap();
    let q2 = r2.query.unwrap();
    let k1 = spec_key(true, r1);
    let k2 = spec_key(true, r2);
    if k1 == k2 {
        assert(k1.len() == r1.path.len() + 1 + q1.len() + 1 + r1.method.len());
        assert(k2.len() == r2.path.len() + 1 + q2.len() + 1 + r2.method.len());
        let p = r1.path.len() as int + 1;
        assert forall|i: int| 0 <= i < q1.len() implies q1[i] == q2[i] by {
            assert(k1[p + i] == q1[i]);
            assert(k2[p + i] == q2[i]);
        }
        assert(q1 =~= q2);
    }
}

/// Law: with query inclusion off, the cache key depends on the path and
/// method alone — requests differing only in the query share one key.
pub proof fn lemma_key_ignores_query(r1: RequestModel, r2: RequestModel)
    requires
        r1.path == r2.path,
        r1.method == r2.method,
    ensures
        spec_key(false, r1) == spec_key(false, r2),
{
}

} // verus!
