use vstd::prelude::*;
use vstd::hash_map::StringHashMap;
use crate::handler::Handler;
use crate::message::{Request, Response};

verus! {

/// Why a registration or a dispatch did not succeed.
#[derive(Debug, Clone, Copy, PartialEq, Eq, Structural)]
pub enum RouteError {
    /// `register` was given an empty key.
    InvalidKey,
    /// `dispatch` found no handler for the request's URL.
    NotFound,
}

/// A route key is accepted when it is non-empty.
pub open spec fn valid_key(key: Seq<char>) -> bool {
    key.len() > 0
}

/// What `dispatch` owes for `req` on the route table `table`: on a hit, a
/// response that the handler stored under the request's URL may give; on a
/// miss, `NotFound`.
pub open spec fn dispatched<H: Handler>(
    table: Map<Seq<char>, H>,
    req: Request,
    out: Result<Response, RouteError>,
) -> bool {
    match out {
        Ok(resp) => table.contains_key(req.url@) && table[req.url@].answers(req, resp),
        Err(e) => !table.contains_key(req.url@) && e == RouteError::NotFound,
    }
}

/// A router over one handler type `H`: every route is served by a value of
/// that same type. With `H = Box<dyn Handler>` (see `Router`) each route may
/// be backed by a differently shaped handler.
///
/// Keys are unique: registering a key again replaces its handler (last
/// write wins).
#[verifier::reject_recursive_types(H)]
pub struct BasicRouter<H: Handler> {
    routes: StringHashMap<H>,
}

/// The heterogeneous router: each route holds its own kind of handler.
pub type Router = BasicRouter<Box<dyn Handler>>;

impl<H: Handler> View for BasicRouter<H> {
    type V = Map<Seq<char>, H>;

    closed spec fn view(&self) -> Map<Seq<char>, H> {
        self.routes@
    }
}

impl<H: Handler> BasicRouter<H> {
    /// Every key in the table is a valid key.
    pub open spec fn wf(&self) -> bool {
        forall|k: Seq<char>| #[trigger] self@.contains_key(k) ==> valid_key(k)
    }

    /// An empty router.
    pub fn new() -> (r: Self)
        ensures
            r@ == Map::<Seq<char>, H>::empty(),
            r.wf(),
    {
        BasicRouter { routes: StringHashMap::new() }
    }

    /// Stores `handler` under `key`, replacing any handler the key had.
    /// An empty key is refused with `InvalidKey` and leaves the table as it was.
    pub fn register(&mut self, key: String, handler: H) -> (r: Result<(), RouteError>)
        ensures
            old(self).wf() ==> final(self).wf(),
            match r {
                Ok(()) => valid_key(key@) && final(self)@ == old(self)@.insert(key@, handler),
                Err(e) => !valid_key(key@) && e == RouteError::InvalidKey && final(self)@ == old(
                    self,
                )@,
            },
    {
        if key.as_str().is_empty() {
            return Err(RouteError::InvalidKey);
        }
        let ghost before = self@;
        let ghost k = key@;
        self.routes.insert(key, handler);
        assert forall|j: Seq<char>| #[trigger] self@.contains_key(j) implies (before.contains_key(j)
            || j == k) by {}
        Ok(())
    }

    /// Whether a handler is stored under `key`.
    pub fn contains_route(&self, key: &str) -> (r: bool)
        ensures
            r == self@.contains_key(key@),
    {
        self.routes.contains_key(key)
    }

    /// The number of routes in the table.
    pub fn len(&self) -> (r: usize)
        ensures
            r == self@.len(),
    {
        self.routes.len()
    }

    /// Looks `req.url` up by exact string equality and, on a hit, invokes the
    /// stored handler once with `req` and returns its response unchanged.
    /// On a miss no handler runs and the result is `NotFound`.
    pub fn dispatch(&self, req: &Request) -> (r: Result<Response, RouteError>)
        ensures
            dispatched(self@, *req, r),
    {
        match self.routes.get(req.url.as_str()) {
            Some(h) => Ok(h.invoke(req)),
            None => Err(RouteError::NotFound),
        }
    }
}

} // verus!
