use vstd::prelude::*;

use crate::middleware::Middleware;
use crate::poll::Async;
use crate::service::Service;

verus! {

/// A lazy sequence of items, finite or not, that ends either normally or
/// with one error. A scheduler calls `poll_next` until it returns `None`
/// (the end) or an error.
pub trait Stream {
    type Item;
    type Error;

    /// Advance the sequence by one step: `Some(item)` for the next item,
    /// `None` at its end.
    fn poll_next(&mut self) -> Result<Async<Option<Self::Item>>, Self::Error>;
}

/// A multi-response handler: each call yields a fresh sequence of responses.
pub trait StreamService {
    type Request;
    type Response;
    type Error;
    type Stream: Stream<Item = Self::Response, Error = Self::Error>;

    /// The sequence that `call(req)` yields.
    spec fn responses(&self, req: Self::Request) -> Self::Stream;

    /// Start processing the request.
    fn call(&self, req: Self::Request) -> (r: Self::Stream)
        ensures
            r == self.responses(req),
    ;
}

/// A boxed handler serves as the handler it holds.
impl<S: StreamService> StreamService for Box<S> {
    type Request = S::Request;
    type Response = S::Response;
    type Error = S::Error;
    type Stream = S::Stream;

    open spec fn responses(&self, req: S::Request) -> S::Stream {
        (**self).responses(req)
    }

    fn call(&self, req: S::Request) -> (r: S::Stream) {
        (**self).call(req)
    }
}

/// A shared handler serves as the handler it holds.
impl<S: StreamService> StreamService for std::rc::Rc<S> {
    type Request = S::Request;
    type Response = S::Response;
    type Error = S::Error;
    type Stream = S::Stream;

    open spec fn responses(&self, req: S::Request) -> S::Stream {
        (**self).responses(req)
    }

    fn call(&self, req: S::Request) -> (r: S::Stream) {
        (**self).call(req)
    }
}

/// A shared handler serves as the handler it holds.
impl<S: StreamService> StreamService for std::sync::Arc<S> {
    type Request = S::Request;
    type Response = S::Response;
    type Error = S::Error;
    type Stream = S::Stream;

    open spec fn responses(&self, req: S::Request) -> S::Stream {
        (**self).responses(req)
    }

    fn call(&self, req: S::Request) -> (r: S::Stream) {
        (**self).call(req)
    }
}

/// A decorator of multi-response handlers.
pub trait StreamMiddleware<S: StreamService>: Sized {
    type WrappedService: StreamService;

    /// The handler that `wrap(service)` builds.
    spec fn wrapped(self, service: S) -> Self::WrappedService;

    fn wrap(self, service: S) -> (r: Self::WrappedService)
        ensures
            r == self.wrapped(service),
    ;
}

/// Two decorators of multi-response handlers applied in order:
/// `inner_middleware` first, then `outer_middleware`.
pub struct StreamMiddlewareChain<M1, M2> {
    pub inner_middleware: M1,
    pub outer_middleware: M2,
}

impl<M1, M2> StreamMiddlewareChain<M1, M2> {
    /// Chain `inner` with the outer decorator `outer`.
    pub fn chain(inner: M1, outer: M2) -> (r: Self)
        ensures
            r.inner_middleware == inner,
            r.outer_middleware == outer,
    {
        StreamMiddlewareChain { inner_middleware: inner, outer_middleware: outer }
    }
}

impl<S, M1, M2> StreamMiddleware<S> for StreamMiddlewareChain<M1, M2> where
    S: StreamService,
    M1: StreamMiddleware<S>,
    M2: StreamMiddleware<<M1 as StreamMiddleware<S>>::WrappedService>,
 {
    type WrappedService = M2::WrappedService;

    open spec fn wrapped(self, service: S) -> M2::WrappedService {
        self.outer_middleware.wrapped(self.inner_middleware.wrapped(service))
    }

    fn wrap(self, service: S) -> (r: M2::WrappedService) {
        self.outer_middleware.wrap(self.inner_middleware.wrap(service))
    }
}

/// A reducer: turns a multi-response handler into a single-response one. How
/// the responses become one is the reducer's own affair.
pub trait StreamReduce<S: StreamService>: Sized {
    type ReducedService: Service;

    /// The handler that `reduce(service)` builds.
    spec fn reduced(self, service: S) -> Self::ReducedService;

    fn reduce(self, service: S) -> (r: Self::ReducedService)
        ensures
            r == self.reduced(service),
    ;
}

/// A reducer followed by a decorator of the reduced handler.
pub struct StreamReduceMiddlewareChain<R, M> {
    pub reducer: R,
    pub middleware: M,
}

impl<R, M> StreamReduceMiddlewareChain<R, M> {
    /// Reduce with `reducer`, then decorate with `middleware`.
    pub fn chain(reducer: R, middleware: M) -> (r: Self)
        ensures
            r.reducer == reducer,
            r.middleware == middleware,
    {
        StreamReduceMiddlewareChain { reducer, middleware }
    }
}

impl<S, R, M> StreamReduce<S> for StreamReduceMiddlewareChain<R, M> where
    S: StreamService,
    R: StreamReduce<S>,
    M: Middleware<<R as StreamReduce<S>>::ReducedService>,
 {
    type ReducedService = M::WrappedService;

    open spec fn reduced(self, service: S) -> M::WrappedService {
        self.middleware.wrapped(self.reducer.reduced(service))
    }

    fn reduce(self, service: S) -> (r: M::WrappedService) {
        self.middleware.wrap(self.reducer.reduce(service))
    }
}

/// A decorator of multi-response handlers followed by a reducer.
pub struct StreamMiddlewareReduceChain<M, R> {
    pub middleware: M,
    pub reducer: R,
}

impl<M, R> StreamMiddlewareReduceChain<M, R> {
    /// Decorate with `middleware`, then reduce with `reducer`.
    pub fn chain(middleware: M, reducer: R) -> (r: Self)
        ensures
            r.middleware == middleware,
            r.reducer == reducer,
    {
        StreamMiddlewareReduceChain { middleware, reducer }
    }
}

impl<S, M, R> StreamReduce<S> for StreamMiddlewareReduceChain<M, R> where
    S: StreamService,
    M: StreamMiddleware<S>,
    R: StreamReduce<<M as StreamMiddleware<S>>::WrappedService>,
 {
    type ReducedService = R::ReducedService;

    open spec fn reduced(self, service: S) -> R::ReducedService {
        self.reducer.reduced(self.middleware.wrapped(service))
    }

    fn reduce(self, service: S) -> (r: R::ReducedService) {
        self.reducer.reduce(self.middleware.wrap(service))
    }
}

/// Reducing and then decorating through a chain builds exactly the handler
/// that decorating the reduced handler builds: same type, same outcome for
/// every request.
pub proof fn lemma_reduce_then_wrap<S, R, M>(
    reducer: R,
    middleware: M,
    service: S,
)
    where
        S: StreamService,
        R: StreamReduce<S>,
        M: Middleware<<R as StreamReduce<S>>::ReducedService>,
    ensures
        (StreamReduceMiddlewareChain { reducer, middleware }).reduced(service) == middleware.wrapped(
            reducer.reduced(service),
        ),
{
}

/// A chain of two stream decorators builds exactly what wrapping with the
/// inner one and then the outer one builds.
pub proof fn lemma_stream_chain_law<S, M1, M2>(inner: M1, outer: M2, service: S)
    where
        S: StreamService,
        M1: StreamMiddleware<S>,
        M2: StreamMiddleware<<M1 as StreamMiddleware<S>>::WrappedService>,
    ensures
        (StreamMiddlewareChain { inner_middleware: inner, outer_middleware: outer }).wrapped(
            service,
        ) == outer.wrapped(inner.wrapped(service)),
{
}

/// Decorating and then reducing through a chain builds exactly the handler
/// that reducing the decorated handler builds.
pub proof fn lemma_wrap_then_reduce<S, M, R>(middleware: M, reducer: R, service: S)
    where
        S: StreamService,
        M: StreamMiddleware<S>,
        R: StreamReduce<<M as StreamMiddleware<S>>::WrappedService>,
    ensures
        (StreamMiddlewareReduceChain { middleware, reducer }).reduced(service) == reducer.reduced(
            middleware.wrapped(service),
        ),
{
}

} // verus!
