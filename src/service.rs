use vstd::prelude::*;

verus! {

/// A unit of work: each call takes a request and resolves to exactly one
/// response or one error.
///
/// `outcome` is what a call on the handler resolves to; `call` must produce
/// it. The handler is only read during a call, so one handler may serve many
/// calls, from many owners.
pub trait Service {
    type Request;
    type Response;
    type Error;

    /// What `call(req)` resolves to.
    spec fn outcome(&self, req: Self::Request) -> Result<Self::Response, Self::Error>;

    /// Process the request.
    fn call(&self, req: Self::Request) -> (r: Result<Self::Response, Self::Error>)
        ensures
            r == self.outcome(req),
    ;
}

/// A boxed handler serves as the handler it holds.
impl<S: Service> Service for Box<S> {
    type Request = S::Request;
    type Response = S::Response;
    type Error = S::Error;

    open spec fn outcome(&self, req: S::Request) -> Result<S::Response, S::Error> {
        (**self).outcome(req)
    }

    fn call(&self, req: S::Request) -> (r: Result<S::Response, S::Error>) {
        (**self).call(req)
    }
}

/// A shared handler serves as the handler it holds.
impl<S: Service> Service for std::rc::Rc<S> {
    type Request = S::Request;
    type Response = S::Response;
    type Error = S::Error;

    open spec fn outcome(&self, req: S::Request) -> Result<S::Response, S::Error> {
        (**self).outcome(req)
    }

    fn call(&self, req: S::Request) -> (r: Result<S::Response, S::Error>) {
        (**self).call(req)
    }
}

/// A shared handler serves as the handler it holds.
impl<S: Service> Service for std::sync::Arc<S> {
    type Request = S::Request;
    type Response = S::Response;
    type Error = S::Error;

    open spec fn outcome(&self, req: S::Request) -> Result<S::Response, S::Error> {
        (**self).outcome(req)
    }

    fn call(&self, req: S::Request) -> (r: Result<S::Response, S::Error>) {
        (**self).call(req)
    }
}

} // verus!
