use vstd::prelude::*;
use crate::message::{Request, Response};

verus! {

/// A unit of behaviour that answers a request, callable any number of times.
///
/// `answers(req, resp)` says which responses this handler may give for `req`;
/// a stateful handler may allow several, a pure one exactly one.
///
/// Handlers are `Send + Sync`, so a filled router can be shared between
/// threads that dispatch concurrently; a handler with shared mutable state
/// synchronises it itself.
pub trait Handler: Send + Sync {
    spec fn answers(&self, req: Request, resp: Response) -> bool;

    fn invoke(&self, req: &Request) -> (resp: Response)
        ensures
            self.answers(*req, resp),
    ;
}

/// A handler made from a closure that accepts every request.
pub struct FnHandler<F: Fn(&Request) -> Response + Send + Sync> {
    f: F,
}

impl<F: Fn(&Request) -> Response + Send + Sync> FnHandler<F> {
    #[verifier::type_invariant]
    spec fn callable(&self) -> bool {
        forall|req: &Request| call_requires(self.f, (req,))
    }

    /// The closure this handler calls.
    pub closed spec fn func(&self) -> F {
        self.f
    }

    pub fn new(f: F) -> (h: Self)
        requires
            forall|req: &Request| call_requires(f, (req,)),
        ensures
            h.func() == f,
            forall|req: Request, resp: Response| #[trigger] h.answers(req, resp) <==> call_ensures(
                f,
                (&req,),
                resp,
            ),
    {
        FnHandler { f }
    }
}

impl<F: Fn(&Request) -> Response + Send + Sync> Handler for FnHandler<F> {
    open spec fn answers(&self, req: Request, resp: Response) -> bool {
        call_ensures(self.func(), (&req,), resp)
    }

    fn invoke(&self, req: &Request) -> (resp: Response) {
        proof {
            use_type_invariant(self);
        }
        (self.f)(req)
    }
}

impl Handler for Box<dyn Handler> {
    open spec fn answers(&self, req: Request, resp: Response) -> bool {
        (**self).answers(req, resp)
    }

    fn invoke(&self, req: &Request) -> (resp: Response) {
        (**self).invoke(req)
    }
}

} // verus!
