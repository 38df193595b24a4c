use vstd::prelude::*;

use crate::service::Service;
use crate::stream::Stream;

verus! {

/// A response made of a header and, optionally, a body that streams its
/// members.
pub trait StreamingResponse<Hd, M, E>: Sized {
    type Body: Stream<Item = M, Error = E>;

    /// The header and the body that the response holds.
    spec fn held(&self) -> (Hd, Option<Self::Body>);

    fn new(header: Hd, body: Option<Self::Body>) -> (r: Self)
        ensures
            r.held() == (header, body),
    ;

    /// Take the response apart.
    fn parts(self) -> (r: (Hd, Option<Self::Body>))
        ensures
            r == self.held(),
    ;

    /// Borrow the header and the body.
    fn parts_ref(&self) -> (r: (&Hd, Option<&Self::Body>))
        ensures
            *r.0 == self.held().0,
            r.1 matches Some(b) ==> self.held().1 == Some(*b),
            r.1 is None <==> self.held().1 is None,
    ;

    /// Borrow the header and the body, to change them.
    fn parts_mut(&mut self) -> (r: (&mut Hd, Option<&mut Self::Body>))
        ensures
            *r.0 == old(self).held().0,
            r.1 matches Some(b) ==> old(self).held().1 == Some(*b),
            r.1 is None <==> old(self).held().1 is None,
    ;
}

/// A handler whose response is a header followed by a streamed body.
pub trait StreamingService {
    type Request;
    type Header;
    type Member;
    type Error;
    type Response: StreamingResponse<Self::Header, Self::Member, Self::Error>;

    /// What `call(req)` resolves to.
    spec fn outcome(&self, req: Self::Request) -> Result<Self::Response, Self::Error>;

    /// Process the request.
    fn call(&self, req: Self::Request) -> (r: Result<Self::Response, Self::Error>)
        ensures
            r == self.outcome(req),
    ;
}

/// A streaming handler seen as an ordinary handler whose response is the
/// streaming response.
pub struct StreamingAsService<S>(pub S);

impl<S: StreamingService> Service for StreamingAsService<S> {
    type Request = S::Request;
    type Response = S::Response;
    type Error = S::Error;

    open spec fn outcome(&self, req: S::Request) -> Result<S::Response, S::Error> {
        self.0.outcome(req)
    }

    fn call(&self, req: S::Request) -> (r: Result<S::Response, S::Error>) {
        self.0.call(req)
    }
}

} // verus!
