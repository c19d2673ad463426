use vstd::prelude::*;
use crate::handler::Handler;
use crate::message::{Request, Response};
use crate::router::{dispatched, valid_key, RouteError};

verus! {

/// After a handler is registered under a valid key, dispatching a request
/// for that key succeeds and gives a response that this handler gives.
pub proof fn lemma_registered_route_dispatches<H: Handler>(
    table: Map<Seq<char>, H>,
    key: Seq<char>,
    h: H,
    req: Request,
    out: Result<Response, RouteError>,
)
    requires
        valid_key(key),
        req.url@ == key,
        dispatched(table.insert(key, h), req, out),
    ensures
        match out {
            Ok(resp) => h.answers(req, resp),
            Err(_) => false,
        },
{
}

/// Dispatching a request whose URL has no route gives `NotFound`, so no
/// handler runs.
pub proof fn lemma_unknown_route_not_found<H: Handler>(
    table: Map<Seq<char>, H>,
    req: Request,
    out: Result<Response, RouteError>,
)
    requires
        !table.contains_key(req.url@),
        dispatched(table, req, out),
    ensures
        out == Err::<Response, RouteError>(RouteError::NotFound),
{
}

/// Two dispatches of one request on one table reach the same handler: both
/// succeed or both give `NotFound`, both responses come from the handler
/// stored for the URL, and when that handler has one answer for the request
/// the two outcomes are equal. The router adds no nondeterminism of its own.
pub proof fn lemma_dispatch_same_handler<H: Handler>(
    table: Map<Seq<char>, H>,
    req: Request,
    out1: Result<Response, RouteError>,
    out2: Result<Response, RouteError>,
)
    requires
        dispatched(table, req, out1),
        dispatched(table, req, out2),
    ensures
        out1 is Ok <==> out2 is Ok,
        match (out1, out2) {
            (Ok(r1), Ok(r2)) => table[req.url@].answers(req, r1) && table[req.url@].answers(req, r2),
            (Err(e1), Err(e2)) => e1 == RouteError::NotFound && e2 == RouteError::NotFound,
            _ => false,
        },
        (forall|a: Response, b: Response|
            #[trigger] table[req.url@].answers(req, a) && #[trigger] table[req.url@].answers(req, b)
                ==> a == b) ==> out1 == out2,
{
}

/// Registering a key twice keeps the second handler: a dispatch for that key
/// is answered by `h2`, which is what the table holds for the key.
pub proof fn lemma_last_write_wins<H: Handler>(
    table: Map<Seq<char>, H>,
    key: Seq<char>,
    h1: H,
    h2: H,
    req: Request,
    out: Result<Response, RouteError>,
)
    requires
        valid_key(key),
        req.url@ == key,
        dispatched(table.insert(key, h1).insert(key, h2), req, out),
    ensures
        table.insert(key, h1).insert(key, h2)[key] == h2,
        match out {
            Ok(resp) => h2.answers(req, resp),
            Err(_) => false,
        },
{
}

/// Two handlers registered under two different valid keys both stay
/// reachable: each key dispatches to its own handler. With
/// `H = Box<dyn Handler>` (the table of `Router`) the two handlers may be of
/// different shapes, each with its own captured state.
pub proof fn lemma_distinct_routes<H: Handler>(
    table: Map<Seq<char>, H>,
    key1: Seq<char>,
    h1: H,
    key2: Seq<char>,
    h2: H,
    req1: Request,
    req2: Request,
    out1: Result<Response, RouteError>,
    out2: Result<Response, RouteError>,
)
    requires
        valid_key(key1),
        valid_key(key2),
        key1 != key2,
        req1.url@ == key1,
        req2.url@ == key2,
        dispatched(table.insert(key1, h1).insert(key2, h2), req1, out1),
        dispatched(table.insert(key1, h1).insert(key2, h2), req2, out2),
    ensures
        match out1 {
            Ok(resp) => h1.answers(req1, resp),
            Err(_) => false,
        },
        match out2 {
            Ok(resp) => h2.answers(req2, resp),
            Err(_) => false,
        },
{
}

} // verus!
