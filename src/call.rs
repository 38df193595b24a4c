use vstd::prelude::*;

use crate::new_service::NewService;
use crate::new_stream::NewStreamService;
use crate::poll::Construction;
use crate::service::Service;
use crate::stream::StreamService;

verus! {

/// One calling interface over both handler shapes; `Kind` says which shape
/// (`Singular` or `Streaming`) a handler is called through.
pub trait Call<Kind> {
    type Request;
    type Response;
    type Error;
    type Outcome;

    /// What `call(req)` produces.
    spec fn produces(&self, req: Self::Request) -> Self::Outcome;

    fn call(&self, req: Self::Request) -> (r: Self::Outcome)
        ensures
            r == self.produces(req),
    ;
}

/// Marks calls that resolve to one response or one error.
pub struct Singular;

/// Marks calls that yield a sequence of responses.
pub struct Streaming;

impl<T: Service> Call<Singular> for T {
    type Request = T::Request;
    type Response = T::Response;
    type Error = T::Error;
    type Outcome = Result<T::Response, T::Error>;

    open spec fn produces(&self, req: T::Request) -> Result<T::Response, T::Error> {
        self.outcome(req)
    }

    fn call(&self, req: T::Request) -> (r: Result<T::Response, T::Error>) {
        Service::call(self, req)
    }
}

impl<T: StreamService> Call<Streaming> for T {
    type Request = T::Request;
    type Response = T::Response;
    type Error = T::Error;
    type Outcome = T::Stream;

    open spec fn produces(&self, req: T::Request) -> T::Stream {
        self.responses(req)
    }

    fn call(&self, req: T::Request) -> (r: T::Stream) {
        StreamService::call(self, req)
    }
}

/// One factory interface over both handler shapes: `connect` starts the
/// construction of a handler that is called through `Call<Kind>`.
pub trait Connect<Kind, H> {
    type Request;
    type Response;
    type Error;
    type Instance: Call<
        Kind,
        Request = Self::Request,
        Response = Self::Response,
        Error = Self::Error,
    >;
    type Future: Construction<Item = Self::Instance>;

    /// Start building a handler.
    fn connect(&self, handle: &H) -> Self::Future;
}

impl<T: NewService<H>, H> Connect<Singular, H> for T {
    type Request = <T::Instance as Service>::Request;
    type Response = <T::Instance as Service>::Response;
    type Error = <T::Instance as Service>::Error;
    type Instance = T::Instance;
    type Future = T::Future;

    fn connect(&self, handle: &H) -> T::Future {
        self.new_service(handle)
    }
}

impl<T: NewStreamService<H>, H> Connect<Streaming, H> for T {
    type Request = <T::Instance as StreamService>::Request;
    type Response = <T::Instance as StreamService>::Response;
    type Error = <T::Instance as StreamService>::Error;
    type Instance = T::Instance;
    type Future = T::Future;

    fn connect(&self, handle: &H) -> T::Future {
        self.new_service(handle)
    }
}

} // verus!
