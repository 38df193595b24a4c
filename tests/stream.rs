use tokio_service::{
    After, AfterMiddleware, Async, Call, Construction, Immediate, Middleware, NewService,
    NewStreamMiddleware, NewStreamMiddlewareReduceChain, NewStreamReduce, NewStreamService,
    NewStreamServiceReducer, Service, Stream, StreamMiddleware, StreamMiddlewareChain,
    StreamMiddlewareReduceChain, StreamReduce, StreamReduceMiddlewareChain, StreamService,
    Streaming,
};

/// Yields its items one per advancement, then ends.
struct Items {
    items: Vec<i64>,
    pos: usize,
}

impl Stream for Items {
    type Item = i64;
    type Error = String;

    fn poll_next(&mut self) -> Result<Async<Option<i64>>, String> {
        if self.pos < self.items.len() {
            self.pos += 1;
            Ok(Async::Ready(Some(self.items[self.pos - 1])))
        } else {
            Ok(Async::Ready(None))
        }
    }
}

/// Responds to `n` with `1, 2, ..., n`.
struct Upto;

impl StreamService for Upto {
    type Request = i64;
    type Response = i64;
    type Error = String;
    type Stream = Items;

    fn responses(&self, req: i64) -> Items {
        Items { items: (1..=req).collect(), pos: 0 }
    }

    fn call(&self, req: i64) -> Items {
        self.responses(req)
    }
}

/// Multiplies every item of a stream by `k`.
struct ScaledItems<St> {
    inner: St,
    k: i64,
}

impl<St: Stream<Item = i64>> Stream for ScaledItems<St> {
    type Item = i64;
    type Error = St::Error;

    fn poll_next(&mut self) -> Result<Async<Option<i64>>, St::Error> {
        match self.inner.poll_next() {
            Ok(Async::Ready(Some(v))) => Ok(Async::Ready(Some(v * self.k))),
            other => other,
        }
    }
}

struct Scaled<S> {
    service: S,
    k: i64,
}

impl<S: StreamService<Response = i64>> StreamService for Scaled<S> {
    type Request = S::Request;
    type Response = i64;
    type Error = S::Error;
    type Stream = ScaledItems<S::Stream>;

    fn responses(&self, req: S::Request) -> ScaledItems<S::Stream> {
        ScaledItems { inner: self.service.responses(req), k: self.k }
    }

    fn call(&self, req: S::Request) -> ScaledItems<S::Stream> {
        ScaledItems { inner: StreamService::call(&self.service, req), k: self.k }
    }
}

/// A stream decorator that multiplies every response by its factor.
struct Scale(i64);

impl<S: StreamService<Response = i64>> StreamMiddleware<S> for Scale {
    type WrappedService = Scaled<S>;

    fn wrapped(self, service: S) -> Scaled<S> {
        Scaled { service, k: self.0 }
    }

    fn wrap(self, service: S) -> Scaled<S> {
        Scaled { service, k: self.0 }
    }
}

/// The single-response handler that sums what the stream handler yields.
struct Summed<S>(S);

fn sum_all<St: Stream<Item = i64>>(mut stream: St) -> Result<i64, St::Error> {
    let mut total = 0;
    loop {
        match stream.poll_next()? {
            Async::Ready(Some(v)) => total += v,
            Async::Ready(None) => return Ok(total),
            Async::NotReady => {}
        }
    }
}

impl<S: StreamService<Response = i64>> Service for Summed<S> {
    type Request = S::Request;
    type Response = i64;
    type Error = S::Error;

    fn outcome(&self, req: S::Request) -> Result<i64, S::Error> {
        sum_all(self.0.responses(req))
    }

    fn call(&self, req: S::Request) -> Result<i64, S::Error> {
        sum_all(StreamService::call(&self.0, req))
    }
}

/// A reducer that sums the responses.
struct Sum;

impl<S: StreamService<Response = i64>> StreamReduce<S> for Sum {
    type ReducedService = Summed<S>;

    fn reduced(self, service: S) -> Summed<S> {
        Summed(service)
    }

    fn reduce(self, service: S) -> Summed<S> {
        Summed(service)
    }
}

/// Adds a fixed amount to the response.
struct Plus(i64);

impl<S: Service<Response = i64>> After<S> for Plus {
    type Response = i64;
    type Error = S::Error;

    fn after_outcome(&self, resp: i64) -> Result<i64, S::Error> {
        Ok(resp + self.0)
    }

    fn after(&self, resp: i64) -> Result<i64, S::Error> {
        Ok(resp + self.0)
    }

    fn error_into(e: S::Error) -> S::Error {
        e
    }

    fn into_service_error(e: S::Error) -> S::Error {
        e
    }
}

#[test]
fn summing_reducer_gives_six() {
    let service = Sum.reduce(Upto);
    assert_eq!(Service::call(&service, 3), Ok(6));
    assert_eq!(Service::call(&service, 0), Ok(0));
}

#[test]
fn reduce_then_wrap_matches_direct() {
    let chained = StreamReduceMiddlewareChain::chain(Sum, AfterMiddleware(Plus(100))).reduce(Upto);
    let direct = AfterMiddleware(Plus(100)).wrap(Sum.reduce(Upto));
    for n in [0, 1, 3, 10] {
        assert_eq!(Service::call(&chained, n), Service::call(&direct, n));
    }
    assert_eq!(Service::call(&chained, 3), Ok(106));
}

#[test]
fn stream_chain_then_reduce() {
    let chain = StreamMiddlewareChain::chain(Scale(2), Scale(3));
    let reducer = StreamMiddlewareReduceChain::chain(chain, Sum);
    let service = reducer.reduce(Upto);
    assert_eq!(Service::call(&service, 3), Ok(36));
}

#[test]
fn streaming_call_yields_items() {
    let mut stream = Call::<Streaming>::call(&Upto, 2);
    assert!(matches!(stream.poll_next(), Ok(Async::Ready(Some(1)))));
    assert!(matches!(stream.poll_next(), Ok(Async::Ready(Some(2)))));
    assert!(matches!(stream.poll_next(), Ok(Async::Ready(None))));
}

struct UptoFactory;

impl NewStreamService<()> for UptoFactory {
    type Instance = Upto;
    type Future = Immediate<Upto>;

    fn new_service(&self, _handle: &()) -> Immediate<Upto> {
        Immediate::new(Upto)
    }
}

struct SumFactory;

impl<S: StreamService<Response = i64>> NewStreamReduce<S, ()> for SumFactory {
    type Instance = Sum;
    type Future = Immediate<Sum>;

    fn new_reducer(&self, _handle: &()) -> Immediate<Sum> {
        Immediate::new(Sum)
    }
}

struct ScaleFactory(i64);

impl<S: StreamService<Response = i64>> NewStreamMiddleware<S, ()> for ScaleFactory {
    type Instance = Scale;
    type Future = Immediate<Scale>;

    fn new_middleware(&self, _handle: &()) -> Immediate<Scale> {
        Immediate::new(Scale(self.0))
    }
}

#[test]
fn reducer_factory_builds_summing_handler() {
    let factory = NewStreamServiceReducer::new(
        NewStreamMiddlewareReduceChain::chain(ScaleFactory(10), SumFactory),
        UptoFactory,
    );
    let mut future = factory.new_service(&());
    let service = match future.poll() {
        Ok(Async::Ready(s)) => s,
        _ => panic!("construction did not finish in one step"),
    };
    assert_eq!(Service::call(&service, 4), Ok(100));
}

#[test]
fn connect_streaming_factory() {
    let mut future = tokio_service::Connect::<Streaming, ()>::connect(&UptoFactory, &());
    let service = match future.poll() {
        Ok(Async::Ready(s)) => s,
        _ => panic!("construction did not finish in one step"),
    };
    let total = Sum.reduce(service);
    assert_eq!(Service::call(&total, 5), Ok(15));
}
