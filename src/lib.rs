//! Composition core for request/response handlers: the handler contract,
//! decorators ("middleware") in three shapes, chains of decorators, reduction
//! of multi-response handlers, and the join of asynchronous constructions
//! that builds a decorated handler from two independently progressing steps.

pub mod call;
pub mod join;
pub mod middleware;
pub mod new_service;
pub mod new_stream;
pub mod poll;
pub mod service;
pub mod stream;
pub mod streaming;

pub use call::{Call, Connect, Singular, Streaming};
pub use join::{Join, JoinState};
pub use middleware::{
    After, AfterMiddleware, AfterService, Around, AroundMiddleware, AroundService, Before,
    BeforeMiddleware, BeforeService, Middleware, MiddlewareChain,
};
pub use new_service::{
    ChainedMiddlewareFuture, NewMiddleware, NewMiddlewareChain, NewService, NewServiceWrapper,
    WrappedServiceFuture,
};
pub use new_stream::{
    ChainedStreamMiddlewareFuture, ChainedStreamReduceFuture, NewStreamMiddleware,
    NewStreamMiddlewareChain, NewStreamMiddlewareReduceChain, NewStreamReduce,
    NewStreamReduceMiddlewareChain, NewStreamService, NewStreamServiceReducer,
    NewStreamServiceWrapper, ReducedStreamMiddlewareFuture, ReducedStreamServiceFuture,
    WrappedStreamServiceFuture,
};
pub use poll::{Async, Construction, ConstructionError, Immediate, Poll};
pub use service::Service;
pub use stream::{
    Stream, StreamMiddleware, StreamMiddlewareChain, StreamMiddlewareReduceChain, StreamReduce,
    StreamReduceMiddlewareChain, StreamService,
};
pub use streaming::{StreamingAsService, StreamingResponse, StreamingService};
