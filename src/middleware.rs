use std::sync::Arc;
use vstd::prelude::*;

use crate::service::Service;

verus! {

/// A decorator: turns a handler into a new handler, possibly with other
/// request, response and error types.
///
/// `wrapped` is the handler that `wrap` builds; wrapping is a pure
/// transformation of the values handed in.
pub trait Middleware<S: Service>: Sized {
    type WrappedService: Service;

    /// The handler that `wrap(service)` builds.
    spec fn wrapped(self, service: S) -> Self::WrappedService;

    fn wrap(self, service: S) -> (r: Self::WrappedService)
        ensures
            r == self.wrapped(service),
    ;

}

/// Two decorators applied in order: `inner_middleware` wraps the handler,
/// `outer_middleware` wraps the result.
pub struct MiddlewareChain<M1, M2> {
    pub inner_middleware: M1,
    pub outer_middleware: M2,
}

impl<M1, M2> MiddlewareChain<M1, M2> {
    /// Compose `inner` with an outer decorator: the chain wraps with `inner`
    /// first, then with `outer`.
    pub fn chain(inner: M1, outer: M2) -> (r: Self)
        ensures
            r.inner_middleware == inner,
            r.outer_middleware == outer,
    {
        MiddlewareChain { inner_middleware: inner, outer_middleware: outer }
    }
}

impl<S, M1, M2> Middleware<S> for MiddlewareChain<M1, M2> where
    S: Service,
    M1: Middleware<S>,
    M2: Middleware<<M1 as Middleware<S>>::WrappedService>,
 {
    type WrappedService = M2::WrappedService;

    open spec fn wrapped(self, service: S) -> M2::WrappedService {
        self.outer_middleware.wrapped(self.inner_middleware.wrapped(service))
    }

    fn wrap(self, service: S) -> (r: M2::WrappedService) {
        self.outer_middleware.wrap(self.inner_middleware.wrap(service))
    }
}

/// A full-wrap decorator: it is given the wrapped handler and the request,
/// and decides alone whether and how to delegate.
pub trait Around<S: Service> {
    type Request;
    type Response;
    type Error;

    /// What `around(service, req)` resolves to.
    spec fn around_outcome(&self, service: &S, req: Self::Request) -> Result<
        Self::Response,
        Self::Error,
    >;

    fn around(&self, service: &S, req: Self::Request) -> (r: Result<Self::Response, Self::Error>)
        ensures
            r == self.around_outcome(service, req),
    ;
}

/// The handler that a full-wrap decorator builds around `service`.
pub struct AroundService<A, S> {
    pub middleware: A,
    pub service: S,
}

impl<A: Around<S>, S: Service> Service for AroundService<A, S> {
    type Request = A::Request;
    type Response = A::Response;
    type Error = A::Error;

    open spec fn outcome(&self, req: A::Request) -> Result<A::Response, A::Error> {
        self.middleware.around_outcome(&self.service, req)
    }

    fn call(&self, req: A::Request) -> (r: Result<A::Response, A::Error>) {
        self.middleware.around(&self.service, req)
    }
}

/// Uses a full-wrap decorator as a `Middleware`.
pub struct AroundMiddleware<A>(pub A);

impl<A: Around<S>, S: Service> Middleware<S> for AroundMiddleware<A> {
    type WrappedService = AroundService<A, S>;

    open spec fn wrapped(self, service: S) -> AroundService<A, S> {
        AroundService { middleware: self.0, service }
    }

    fn wrap(self, service: S) -> (r: AroundService<A, S>) {
        AroundService { middleware: self.0, service }
    }
}

/// A pre-processing decorator: it translates the outer request into the
/// wrapped handler's request, or fails with an error of its own that
/// converts into the wrapped handler's error.
pub trait Before<S: Service> {
    type Request;
    type Error;

    /// What `before(req)` resolves to.
    spec fn before_outcome(&self, req: Self::Request) -> Result<S::Request, Self::Error>;

    fn before(&self, req: Self::Request) -> (r: Result<S::Request, Self::Error>)
        ensures
            r == self.before_outcome(req),
    ;

    /// The wrapped handler's error that an error of `before` becomes.
    spec fn error_into(e: Self::Error) -> S::Error;

    fn into_service_error(e: Self::Error) -> (r: S::Error)
        ensures
            r == Self::error_into(e),
    ;
}

/// The handler that a pre-processing decorator builds around `service`.
/// The wrapped handler is shared, so that calls still in their `before` step
/// can overlap with calls already delegated.
pub struct BeforeService<B, S> {
    pub middleware: B,
    pub service: Arc<S>,
}

impl<B: Before<S>, S: Service> Service for BeforeService<B, S> {
    type Request = B::Request;
    type Response = S::Response;
    type Error = S::Error;

    open spec fn outcome(&self, req: B::Request) -> Result<S::Response, S::Error> {
        match self.middleware.before_outcome(req) {
            Ok(inner) => self.service.outcome(inner),
            Err(e) => Err(B::error_into(e)),
        }
    }

    fn call(&self, req: B::Request) -> (r: Result<S::Response, S::Error>) {
        match self.middleware.before(req) {
            Ok(inner) => self.service.call(inner),
            Err(e) => Err(B::into_service_error(e)),
        }
    }
}

/// Uses a pre-processing decorator as a `Middleware`.
pub struct BeforeMiddleware<B>(pub B);

impl<B: Before<S>, S: Service> Middleware<S> for BeforeMiddleware<B> {
    type WrappedService = BeforeService<B, S>;

    open spec fn wrapped(self, service: S) -> BeforeService<B, S> {
        BeforeService { middleware: self.0, service: Arc::new(service) }
    }

    fn wrap(self, service: S) -> (r: BeforeService<B, S>) {
        BeforeService { middleware: self.0, service: Arc::new(service) }
    }
}

/// A post-processing decorator: it translates the wrapped handler's
/// response, or fails with an error of its own that converts into the
/// wrapped handler's error.
pub trait After<S: Service> {
    type Response;
    type Error;

    /// What `after(resp)` resolves to.
    spec fn after_outcome(&self, resp: S::Response) -> Result<Self::Response, Self::Error>;

    fn after(&self, resp: S::Response) -> (r: Result<Self::Response, Self::Error>)
        ensures
            r == self.after_outcome(resp),
    ;

    /// The wrapped handler's error that an error of `after` becomes.
    spec fn error_into(e: Self::Error) -> S::Error;

    fn into_service_error(e: Self::Error) -> (r: S::Error)
        ensures
            r == Self::error_into(e),
    ;
}

/// The handler that a post-processing decorator builds around `service`.
pub struct AfterService<A, S> {
    pub middleware: Arc<A>,
    pub service: S,
}

impl<A: After<S>, S: Service> Service for AfterService<A, S> {
    type Request = S::Request;
    type Response = A::Response;
    type Error = S::Error;

    open spec fn outcome(&self, req: S::Request) -> Result<A::Response, S::Error> {
        match self.service.outcome(req) {
            Ok(resp) => match self.middleware.after_outcome(resp) {
                Ok(out) => Ok(out),
                Err(e) => Err(A::error_into(e)),
            },
            Err(e) => Err(e),
        }
    }

    fn call(&self, req: S::Request) -> (r: Result<A::Response, S::Error>) {
        match self.service.call(req) {
            Ok(resp) => match self.middleware.after(resp) {
                Ok(out) => Ok(out),
                Err(e) => Err(A::into_service_error(e)),
            },
            Err(e) => Err(e),
        }
    }
}

/// Uses a post-processing decorator as a `Middleware`.
pub struct AfterMiddleware<A>(pub A);

impl<A: After<S>, S: Service> Middleware<S> for AfterMiddleware<A> {
    type WrappedService = AfterService<A, S>;

    open spec fn wrapped(self, service: S) -> AfterService<A, S> {
        AfterService { middleware: Arc::new(self.0), service }
    }

    fn wrap(self, service: S) -> (r: AfterService<A, S>) {
        AfterService { middleware: Arc::new(self.0), service }
    }
}

/// A handler built by a full-wrap decorator resolves every request exactly as
/// the decorator's `around` step does on the wrapped handler.
pub proof fn lemma_around_law<A: Around<S>, S: Service>(d: A, service: S, req: A::Request)
    ensures
        AroundMiddleware(d).wrapped(service).outcome(req) == d.around_outcome(&service, req),
{
}

/// A handler built by a pre-processing decorator first runs `before`: its
/// failure becomes the wrapped handler's error without a call, its success
/// is handed to the wrapped handler.
pub proof fn lemma_before_law<B: Before<S>, S: Service>(b: B, service: S, req: B::Request)
    ensures
        BeforeMiddleware(b).wrapped(service).outcome(req) == (match b.before_outcome(req) {
            Ok(inner) => service.outcome(inner),
            Err(e) => Err(B::error_into(e)),
        }),
{
}

/// A handler built by a post-processing decorator first calls the wrapped
/// handler: its failure passes unchanged, its response goes through `after`,
/// whose failure becomes the wrapped handler's error.
pub proof fn lemma_after_law<A: After<S>, S: Service>(a: A, service: S, req: S::Request)
    ensures
        AfterMiddleware(a).wrapped(service).outcome(req) == (match service.outcome(req) {
            Ok(resp) => match a.after_outcome(resp) {
                Ok(out) => Ok(out),
                Err(e) => Err(A::error_into(e)),
            },
            Err(e) => Err(e),
        }),
{
}

/// A chain builds exactly the handler that wrapping with the inner decorator
/// and then with the outer one builds.
pub proof fn lemma_chain_law<S, M1, M2>(inner: M1, outer: M2, service: S)
    where
        S: Service,
        M1: Middleware<S>,
        M2: Middleware<<M1 as Middleware<S>>::WrappedService>,
    ensures
        (MiddlewareChain { inner_middleware: inner, outer_middleware: outer }).wrapped(service)
            == outer.wrapped(inner.wrapped(service)),
{
}

/// Chaining is associative: grouping three decorators either way builds the
/// same handler.
pub proof fn lemma_chain_associative<S, M1, M2, M3>(a: M1, b: M2, c: M3, service: S)
    where
        S: Service,
        M1: Middleware<S>,
        M2: Middleware<<M1 as Middleware<S>>::WrappedService>,
        M3: Middleware<<M2 as Middleware<<M1 as Middleware<S>>::WrappedService>>::WrappedService>,
    ensures
        (MiddlewareChain {
            inner_middleware: MiddlewareChain { inner_middleware: a, outer_middleware: b },
            outer_middleware: c,
        }).wrapped(service) == (MiddlewareChain {
            inner_middleware: a,
            outer_middleware: MiddlewareChain { inner_middleware: b, outer_middleware: c },
        }).wrapped(service),
{
}

/// In a chain of two pre-processing decorators the outer `before` sees the
/// request first, the inner `before` sees what the outer one produced, and
/// the base handler sees what the inner one produced.
pub proof fn lemma_chain_before_order<S, B1, B2>(
    inner: B1,
    outer: B2,
    service: S,
    req: B2::Request,
)
    where
        S: Service,
        B1: Before<S>,
        B2: Before<BeforeService<B1, S>>,
    ensures
        (MiddlewareChain {
            inner_middleware: BeforeMiddleware(inner),
            outer_middleware: BeforeMiddleware(outer),
        }).wrapped(service).outcome(req) == (match outer.before_outcome(req) {
            Ok(mid) => match inner.before_outcome(mid) {
                Ok(base) => service.outcome(base),
                Err(e) => Err(B1::error_into(e)),
            },
            Err(e) => Err(B2::error_into(e)),
        }),
{
}

/// In a chain of two post-processing decorators the base handler's response
/// goes through the inner `after` first and then through the outer `after`.
pub proof fn lemma_chain_after_order<S, A1, A2>(
    inner: A1,
    outer: A2,
    service: S,
    req: S::Request,
)
    where
        S: Service,
        A1: After<S>,
        A2: After<AfterService<A1, S>>,
    ensures
        (MiddlewareChain {
            inner_middleware: AfterMiddleware(inner),
            outer_middleware: AfterMiddleware(outer),
        }).wrapped(service).outcome(req) == (match service.outcome(req) {
            Ok(resp) => match inner.after_outcome(resp) {
                Ok(mid) => match outer.after_outcome(mid) {
                    Ok(out) => Ok(out),
                    Err(e) => Err(A2::error_into(e)),
                },
                Err(e) => Err(A1::error_into(e)),
            },
            Err(e) => Err(e),
        }),
{
}

} // verus!
