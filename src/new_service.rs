use vstd::prelude::*;

use crate::join::{join_step, map_ready, Join};
use crate::middleware::{Middleware, MiddlewareChain};
use crate::poll::{Async, Construction, Poll};
use crate::service::Service;

verus! {

/// An asynchronous factory of handlers: given a context value (`handle`), it
/// starts a construction that ends with a handler or a `ConstructionError`.
pub trait NewService<H> {
    type Instance: Service;
    type Future: Construction<Item = Self::Instance>;

    /// Start building a handler.
    fn new_service(&self, handle: &H) -> Self::Future;
}

/// A shared factory builds what the factory it holds builds.
impl<H, N: NewService<H>> NewService<H> for std::rc::Rc<N> {
    type Instance = N::Instance;
    type Future = N::Future;

    fn new_service(&self, handle: &H) -> N::Future {
        (**self).new_service(handle)
    }
}

/// A shared factory builds what the factory it holds builds.
impl<H, N: NewService<H>> NewService<H> for std::sync::Arc<N> {
    type Instance = N::Instance;
    type Future = N::Future;

    fn new_service(&self, handle: &H) -> N::Future {
        (**self).new_service(handle)
    }
}

/// An asynchronous factory of decorators for handlers of type `S`.
pub trait NewMiddleware<S: Service, H> {
    type Instance: Middleware<S>;
    type Future: Construction<Item = Self::Instance>;

    /// Start building a decorator.
    fn new_middleware(&self, handle: &H) -> Self::Future;
}

/// A factory of handlers whose instances are the instances of `service`
/// wrapped by the instances of `middleware`.
pub struct NewServiceWrapper<M, N> {
    pub service: N,
    pub middleware: M,
}

impl<M, N> NewServiceWrapper<M, N> {
    /// Wrap the factory `service` with the decorator factory `middleware`.
    pub fn new(middleware: M, service: N) -> (r: Self)
        ensures
            r.service == service,
            r.middleware == middleware,
    {
        NewServiceWrapper { service, middleware }
    }
}

impl<H, M, N> NewService<H> for NewServiceWrapper<M, N> where
    N: NewService<H>,
    M: NewMiddleware<N::Instance, H>,
 {
    type Instance = <M::Instance as Middleware<N::Instance>>::WrappedService;
    type Future = WrappedServiceFuture<N::Future, M::Future>;

    /// Start both constructions at once.
    fn new_service(&self, handle: &H) -> (r: WrappedServiceFuture<N::Future, M::Future>)
        ensures
            r.join.state is BothPending,
    {
        let service = self.service.new_service(handle);
        let middleware = self.middleware.new_middleware(handle);
        WrappedServiceFuture { join: Join::new(service, middleware) }
    }
}

/// The construction of a wrapped handler: the join of the handler's and the
/// decorator's constructions, then the decorator applied to the handler.
pub struct WrappedServiceFuture<SF: Construction, MF: Construction> {
    pub join: Join<SF, MF>,
}

impl<SF, MF> Construction for WrappedServiceFuture<SF, MF> where
    SF: Construction,
    MF: Construction,
    SF::Item: Service,
    MF::Item: Middleware<SF::Item>,
 {
    type Item = <MF::Item as Middleware<SF::Item>>::WrappedService;

    fn poll(&mut self) -> (r: Poll<<MF::Item as Middleware<SF::Item>>::WrappedService>)
        ensures
            exists|lp: Poll<SF::Item>, rp: Poll<MF::Item>|
                {
                    let (state, out) = #[trigger] join_step(old(self).join.state, lp, rp);
                    final(self).join.state == state && r == map_ready(out, |p: (SF::Item, MF::Item)| p.1.wrapped(p.0))
                },
            !old(self).join.state.wants_left() ==> final(self).join.left == old(self).join.left,
            !old(self).join.state.wants_right() ==> final(self).join.right
                == old(self).join.right,
    {
        let out = self.join.poll();
        let ghost o = out;
        let r = match out {
            Ok(Async::Ready((s, m))) => Ok(Async::Ready(m.wrap(s))),
            Ok(Async::NotReady) => Ok(Async::NotReady),
            Err(e) => Err(e),
        };
        assert(r == map_ready(o, |p: (SF::Item, MF::Item)| p.1.wrapped(p.0)));
        r
    }
}

/// A factory of decorators whose instances chain an instance of
/// `inner_middleware` (applied first) with one of `outer_middleware`.
pub struct NewMiddlewareChain<M1, M2> {
    pub inner_middleware: M1,
    pub outer_middleware: M2,
}

impl<M1, M2> NewMiddlewareChain<M1, M2> {
    /// Chain the decorator factory `inner` with the outer factory `outer`.
    pub fn chain(inner: M1, outer: M2) -> (r: Self)
        ensures
            r.inner_middleware == inner,
            r.outer_middleware == outer,
    {
        NewMiddlewareChain { inner_middleware: inner, outer_middleware: outer }
    }
}

impl<S, H, M1, M2> NewMiddleware<S, H> for NewMiddlewareChain<M1, M2> where
    S: Service,
    M1: NewMiddleware<S, H>,
    M2: NewMiddleware<<M1::Instance as Middleware<S>>::WrappedService, H>,
 {
    type Instance = MiddlewareChain<M1::Instance, M2::Instance>;
    type Future = ChainedMiddlewareFuture<M1::Future, M2::Future>;

    /// Start both constructions at once.
    fn new_middleware(&self, handle: &H) -> (r: ChainedMiddlewareFuture<M1::Future, M2::Future>)
        ensures
            r.join.state is BothPending,
    {
        let inner = self.inner_middleware.new_middleware(handle);
        let outer = self.outer_middleware.new_middleware(handle);
        ChainedMiddlewareFuture { join: Join::new(inner, outer) }
    }
}

/// The construction of a chain of two decorators: the join of their
/// constructions, then the chain of the two.
pub struct ChainedMiddlewareFuture<F1: Construction, F2: Construction> {
    pub join: Join<F1, F2>,
}

impl<F1: Construction, F2: Construction> Construction for ChainedMiddlewareFuture<F1, F2> {
    type Item = MiddlewareChain<F1::Item, F2::Item>;

    fn poll(&mut self) -> (r: Poll<MiddlewareChain<F1::Item, F2::Item>>)
        ensures
            exists|lp: Poll<F1::Item>, rp: Poll<F2::Item>|
                {
                    let (state, out) = #[trigger] join_step(old(self).join.state, lp, rp);
                    final(self).join.state == state && r == map_ready(
                        out,
                        |p: (F1::Item, F2::Item)|
                            MiddlewareChain { inner_middleware: p.0, outer_middleware: p.1 },
                    )
                },
            !old(self).join.state.wants_left() ==> final(self).join.left == old(self).join.left,
            !old(self).join.state.wants_right() ==> final(self).join.right
                == old(self).join.right,
    {
        let out = self.join.poll();
        let ghost o = out;
        let r = match out {
            Ok(Async::Ready((i, o))) => Ok(Async::Ready(MiddlewareChain::chain(i, o))),
            Ok(Async::NotReady) => Ok(Async::NotReady),
            Err(e) => Err(e),
        };
        assert(r == map_ready(
            o,
            |p: (F1::Item, F2::Item)|
                MiddlewareChain { inner_middleware: p.0, outer_middleware: p.1 },
        ));
        r
    }
}

} // verus!
