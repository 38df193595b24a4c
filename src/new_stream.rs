use vstd::prelude::*;

use crate::join::{join_step, map_ready, Join};
use crate::new_service::{NewMiddleware, NewService};
use crate::poll::{Async, Construction, Poll};
use crate::stream::{
    StreamMiddleware, StreamMiddlewareChain, StreamMiddlewareReduceChain, StreamReduce,
    StreamReduceMiddlewareChain, StreamService,
};

verus! {

/// An asynchronous factory of multi-response handlers.
pub trait NewStreamService<H> {
    type Instance: StreamService;
    type Future: Construction<Item = Self::Instance>;

    /// Start building a handler.
    fn new_service(&self, handle: &H) -> Self::Future;
}

/// A shared factory builds what the factory it holds builds.
impl<H, N: NewStreamService<H>> NewStreamService<H> for std::rc::Rc<N> {
    type Instance = N::Instance;
    type Future = N::Future;

    fn new_service(&self, handle: &H) -> N::Future {
        (**self).new_service(handle)
    }
}

/// A shared factory builds what the factory it holds builds.
impl<H, N: NewStreamService<H>> NewStreamService<H> for std::sync::Arc<N> {
    type Instance = N::Instance;
    type Future = N::Future;

    fn new_service(&self, handle: &H) -> N::Future {
        (**self).new_service(handle)
    }
}

/// An asynchronous factory of decorators for multi-response handlers of
/// type `S`.
pub trait NewStreamMiddleware<S: StreamService, H> {
    type Instance: StreamMiddleware<S>;
    type Future: Construction<Item = Self::Instance>;

    /// Start building a decorator.
    fn new_middleware(&self, handle: &H) -> Self::Future;
}

/// An asynchronous factory of reducers for multi-response handlers of type
/// `S`.
pub trait NewStreamReduce<S: StreamService, H> {
    type Instance: StreamReduce<S>;
    type Future: Construction<Item = Self::Instance>;

    /// Start building a reducer.
    fn new_reducer(&self, handle: &H) -> Self::Future;
}

/// A factory of multi-response handlers whose instances are the instances
/// of `service` wrapped by the instances of `middleware`.
pub struct NewStreamServiceWrapper<M, N> {
    pub service: N,
    pub middleware: M,
}

impl<M, N> NewStreamServiceWrapper<M, N> {
    /// Wrap the factory `service` with the decorator factory `middleware`.
    pub fn new(middleware: M, service: N) -> (r: Self)
        ensures
            r.service == service,
            r.middleware == middleware,
    {
        NewStreamServiceWrapper { service, middleware }
    }
}

impl<H, M, N> NewStreamService<H> for NewStreamServiceWrapper<M, N> where
    N: NewStreamService<H>,
    M: NewStreamMiddleware<N::Instance, H>,
 {
    type Instance = <M::Instance as StreamMiddleware<N::Instance>>::WrappedService;
    type Future = WrappedStreamServiceFuture<N::Future, M::Future>;

    /// Start both constructions at once.
    fn new_service(&self, handle: &H) -> (r: WrappedStreamServiceFuture<N::Future, M::Future>)
        ensures
            r.join.state is BothPending,
    {
        let service = self.service.new_service(handle);
        let middleware = self.middleware.new_middleware(handle);
        WrappedStreamServiceFuture { join: Join::new(service, middleware) }
    }
}

/// The construction of a wrapped multi-response handler: the join of the
/// handler's and the decorator's constructions, then the decorator applied.
pub struct WrappedStreamServiceFuture<SF: Construction, MF: Construction> {
    pub join: Join<SF, MF>,
}

impl<SF, MF> Construction for WrappedStreamServiceFuture<SF, MF> where
    SF: Construction,
    MF: Construction,
    SF::Item: StreamService,
    MF::Item: StreamMiddleware<SF::Item>,
 {
    type Item = <MF::Item as StreamMiddleware<SF::Item>>::WrappedService;

    fn poll(&mut self) -> (r: Poll<<MF::Item as StreamMiddleware<SF::Item>>::WrappedService>)
        ensures
            exists|lp: Poll<SF::Item>, rp: Poll<MF::Item>|
                {
                    let (state, out) = #[trigger] join_step(old(self).join.state, lp, rp);
                    final(self).join.state == state && r == map_ready(
                        out,
                        |p: (SF::Item, MF::Item)| p.1.wrapped(p.0),
                    )
                },
            !old(self).join.state.wants_left() ==> final(self).join.left == old(self).join.left,
            !old(self).join.state.wants_right() ==> final(self).join.right
                == old(self).join.right,
    {
        let out = self.join.poll();
        let ghost o = out;
        let r = match out {
            Ok(Async::Ready((s, m))) => Ok(Async::Ready(m.wrap(s))),
            Ok(Async::NotReady) => Ok(Async::NotReady),
            Err(e) => Err(e),
        };
        assert(r == map_ready(o, |p: (SF::Item, MF::Item)| p.1.wrapped(p.0)));
        r
    }
}

/// A factory of stream decorators whose instances chain an instance of
/// `inner_middleware` (applied first) with one of `outer_middleware`.
pub struct NewStreamMiddlewareChain<M1, M2> {
    pub inner_middleware: M1,
    pub outer_middleware: M2,
}

impl<M1, M2> NewStreamMiddlewareChain<M1, M2> {
    /// Chain the decorator factory `inner` with the outer factory `outer`.
    pub fn chain(inner: M1, outer: M2) -> (r: Self)
        ensures
            r.inner_middleware == inner,
            r.outer_middleware == outer,
    {
        NewStreamMiddlewareChain { inner_middleware: inner, outer_middleware: outer }
    }
}

impl<S, H, M1, M2> NewStreamMiddleware<S, H> for NewStreamMiddlewareChain<M1, M2> where
    S: StreamService,
    M1: NewStreamMiddleware<S, H>,
    M2: NewStreamMiddleware<<M1::Instance as StreamMiddleware<S>>::WrappedService, H>,
 {
    type Instance = StreamMiddlewareChain<M1::Instance, M2::Instance>;
    type Future = ChainedStreamMiddlewareFuture<M1::Future, M2::Future>;

    /// Start both constructions at once.
    fn new_middleware(&self, handle: &H) -> (r: ChainedStreamMiddlewareFuture<
        M1::Future,
        M2::Future,
    >)
        ensures
            r.join.state is BothPending,
    {
        let inner = self.inner_middleware.new_middleware(handle);
        let outer = self.outer_middleware.new_middleware(handle);
        ChainedStreamMiddlewareFuture { join: Join::new(inner, outer) }
    }
}

/// The construction of a chain of two stream decorators.
pub struct ChainedStreamMiddlewareFuture<F1: Construction, F2: Construction> {
    pub join: Join<F1, F2>,
}

impl<F1: Construction, F2: Construction> Construction for ChainedStreamMiddlewareFuture<F1, F2> {
    type Item = StreamMiddlewareChain<F1::Item, F2::Item>;

    fn poll(&mut self) -> (r: Poll<StreamMiddlewareChain<F1::Item, F2::Item>>)
        ensures
            exists|lp: Poll<F1::Item>, rp: Poll<F2::Item>|
                {
                    let (state, out) = #[trigger] join_step(old(self).join.state, lp, rp);
                    final(self).join.state == state && r == map_ready(
                        out,
                        |p: (F1::Item, F2::Item)|
                            StreamMiddlewareChain { inner_middleware: p.0, outer_middleware: p.1 },
                    )
                },
            !old(self).join.state.wants_left() ==> final(self).join.left == old(self).join.left,
            !old(self).join.state.wants_right() ==> final(self).join.right
                == old(self).join.right,
    {
        let out = self.join.poll();
        let ghost o = out;
        let r = match out {
            Ok(Async::Ready((i, o))) => Ok(Async::Ready(StreamMiddlewareChain::chain(i, o))),
            Ok(Async::NotReady) => Ok(Async::NotReady),
            Err(e) => Err(e),
        };
        assert(r == map_ready(
            o,
            |p: (F1::Item, F2::Item)|
                StreamMiddlewareChain { inner_middleware: p.0, outer_middleware: p.1 },
        ));
        r
    }
}

/// A factory of reducers whose instances decorate with an instance of
/// `middleware` and then reduce with one of `reducer`.
pub struct NewStreamMiddlewareReduceChain<M, R> {
    pub middleware: M,
    pub reducer: R,
}

impl<M, R> NewStreamMiddlewareReduceChain<M, R> {
    /// Decorate with instances of `middleware`, then reduce with instances
    /// of `reducer`.
    pub fn chain(middleware: M, reducer: R) -> (r: Self)
        ensures
            r.middleware == middleware,
            r.reducer == reducer,
    {
        NewStreamMiddlewareReduceChain { middleware, reducer }
    }
}

impl<S, H, M, R> NewStreamReduce<S, H> for NewStreamMiddlewareReduceChain<M, R> where
    S: StreamService,
    M: NewStreamMiddleware<S, H>,
    R: NewStreamReduce<<M::Instance as StreamMiddleware<S>>::WrappedService, H>,
 {
    type Instance = StreamMiddlewareReduceChain<M::Instance, R::Instance>;
    type Future = ReducedStreamMiddlewareFuture<M::Future, R::Future>;

    /// Start both constructions at once.
    fn new_reducer(&self, handle: &H) -> (r: ReducedStreamMiddlewareFuture<M::Future, R::Future>)
        ensures
            r.join.state is BothPending,
    {
        let middleware = self.middleware.new_middleware(handle);
        let reducer = self.reducer.new_reducer(handle);
        ReducedStreamMiddlewareFuture { join: Join::new(middleware, reducer) }
    }
}

/// The construction of a stream decorator followed by a reducer.
pub struct ReducedStreamMiddlewareFuture<MF: Construction, RF: Construction> {
    pub join: Join<MF, RF>,
}

impl<MF: Construction, RF: Construction> Construction for ReducedStreamMiddlewareFuture<MF, RF> {
    type Item = StreamMiddlewareReduceChain<MF::Item, RF::Item>;

    fn poll(&mut self) -> (r: Poll<StreamMiddlewareReduceChain<MF::Item, RF::Item>>)
        ensures
            exists|lp: Poll<MF::Item>, rp: Poll<RF::Item>|
                {
                    let (state, out) = #[trigger] join_step(old(self).join.state, lp, rp);
                    final(self).join.state == state && r == map_ready(
                        out,
                        |p: (MF::Item, RF::Item)|
                            StreamMiddlewareReduceChain { middleware: p.0, reducer: p.1 },
                    )
                },
            !old(self).join.state.wants_left() ==> final(self).join.left == old(self).join.left,
            !old(self).join.state.wants_right() ==> final(self).join.right
                == old(self).join.right,
    {
        let out = self.join.poll();
        let ghost o = out;
        let r = match out {
            Ok(Async::Ready((m, red))) => Ok(
                Async::Ready(StreamMiddlewareReduceChain::chain(m, red)),
            ),
            Ok(Async::NotReady) => Ok(Async::NotReady),
            Err(e) => Err(e),
        };
        assert(r == map_ready(
            o,
            |p: (MF::Item, RF::Item)| StreamMiddlewareReduceChain { middleware: p.0, reducer: p.1 },
        ));
        r
    }
}

/// A factory of single-response handlers whose instances are the instances
/// of the multi-response factory `service` reduced by instances of
/// `reducer`.
pub struct NewStreamServiceReducer<R, N> {
    pub service: N,
    pub reducer: R,
}

impl<R, N> NewStreamServiceReducer<R, N> {
    /// Reduce the instances of `service` with the instances of `reducer`.
    pub fn new(reducer: R, service: N) -> (r: Self)
        ensures
            r.service == service,
            r.reducer == reducer,
    {
        NewStreamServiceReducer { service, reducer }
    }
}

impl<H, R, N> NewService<H> for NewStreamServiceReducer<R, N> where
    N: NewStreamService<H>,
    R: NewStreamReduce<N::Instance, H>,
 {
    type Instance = <R::Instance as StreamReduce<N::Instance>>::ReducedService;
    type Future = ReducedStreamServiceFuture<N::Future, R::Future>;

    /// Start both constructions at once.
    fn new_service(&self, handle: &H) -> (r: ReducedStreamServiceFuture<N::Future, R::Future>)
        ensures
            r.join.state is BothPending,
    {
        let service = self.service.new_service(handle);
        let reducer = self.reducer.new_reducer(handle);
        ReducedStreamServiceFuture { join: Join::new(service, reducer) }
    }
}

/// The construction of a reduced handler: the join of the multi-response
/// handler's and the reducer's constructions, then the reduction.
pub struct ReducedStreamServiceFuture<SF: Construction, RF: Construction> {
    pub join: Join<SF, RF>,
}

impl<SF, RF> Construction for ReducedStreamServiceFuture<SF, RF> where
    SF: Construction,
    RF: Construction,
    SF::Item: StreamService,
    RF::Item: StreamReduce<SF::Item>,
 {
    type Item = <RF::Item as StreamReduce<SF::Item>>::ReducedService;

    fn poll(&mut self) -> (r: Poll<<RF::Item as StreamReduce<SF::Item>>::ReducedService>)
        ensures
            exists|lp: Poll<SF::Item>, rp: Poll<RF::Item>|
                {
                    let (state, out) = #[trigger] join_step(old(self).join.state, lp, rp);
                    final(self).join.state == state && r == map_ready(
                        out,
                        |p: (SF::Item, RF::Item)| p.1.reduced(p.0),
                    )
                },
            !old(self).join.state.wants_left() ==> final(self).join.left == old(self).join.left,
            !old(self).join.state.wants_right() ==> final(self).join.right
                == old(self).join.right,
    {
        let out = self.join.poll();
        let ghost o = out;
        let r = match out {
            Ok(Async::Ready((s, red))) => Ok(Async::Ready(red.reduce(s))),
            Ok(Async::NotReady) => Ok(Async::NotReady),
            Err(e) => Err(e),
        };
        assert(r == map_ready(o, |p: (SF::Item, RF::Item)| p.1.reduced(p.0)));
        r
    }
}

/// A factory of reducers whose instances reduce with an instance of
/// `reducer` and then decorate the reduced handler with one of
/// `middleware`.
pub struct NewStreamReduceMiddlewareChain<R, M> {
    pub reducer: R,
    pub middleware: M,
}

impl<R, M> NewStreamReduceMiddlewareChain<R, M> {
    /// Reduce with instances of `reducer`, then decorate with instances of
    /// `middleware`.
    pub fn chain(reducer: R, middleware: M) -> (r: Self)
        ensures
            r.reducer == reducer,
            r.middleware == middleware,
    {
        NewStreamReduceMiddlewareChain { reducer, middleware }
    }
}

impl<S, H, R, M> NewStreamReduce<S, H> for NewStreamReduceMiddlewareChain<R, M> where
    S: StreamService,
    R: NewStreamReduce<S, H>,
    M: NewMiddleware<<R::Instance as StreamReduce<S>>::ReducedService, H>,
 {
    type Instance = StreamReduceMiddlewareChain<R::Instance, M::Instance>;
    type Future = ChainedStreamReduceFuture<R::Future, M::Future>;

    /// Start both constructions at once.
    fn new_reducer(&self, handle: &H) -> (r: ChainedStreamReduceFuture<R::Future, M::Future>)
        ensures
            r.join.state is BothPending,
    {
        let reducer = self.reducer.new_reducer(handle);
        let middleware = self.middleware.new_middleware(handle);
        ChainedStreamReduceFuture { join: Join::new(reducer, middleware) }
    }
}

/// The construction of a reducer followed by a decorator.
pub struct ChainedStreamReduceFuture<RF: Construction, MF: Construction> {
    pub join: Join<RF, MF>,
}

impl<RF: Construction, MF: Construction> Construction for ChainedStreamReduceFuture<RF, MF> {
    type Item = StreamReduceMiddlewareChain<RF::Item, MF::Item>;

    fn poll(&mut self) -> (r: Poll<StreamReduceMiddlewareChain<RF::Item, MF::Item>>)
        ensures
            exists|lp: Poll<RF::Item>, rp: Poll<MF::Item>|
                {
                    let (state, out) = #[trigger] join_step(old(self).join.state, lp, rp);
                    final(self).join.state == state && r == map_ready(
                        out,
                        |p: (RF::Item, MF::Item)|
                            StreamReduceMiddlewareChain { reducer: p.0, middleware: p.1 },
                    )
                },
            !old(self).join.state.wants_left() ==> final(self).join.left == old(self).join.left,
            !old(self).join.state.wants_right() ==> final(self).join.right
                == old(self).join.right,
    {
        let out = self.join.poll();
        let ghost o = out;
        let r = match out {
            Ok(Async::Ready((red, m))) => Ok(
                Async::Ready(StreamReduceMiddlewareChain::chain(red, m)),
            ),
            Ok(Async::NotReady) => Ok(Async::NotReady),
            Err(e) => Err(e),
        };
        assert(r == map_ready(
            o,
            |p: (RF::Item, MF::Item)| StreamReduceMiddlewareChain { reducer: p.0, middleware: p.1 },
        ));
        r
    }
}

} // verus!
