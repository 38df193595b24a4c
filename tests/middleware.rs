use tokio_service::{
    After, AfterMiddleware, Around, AroundMiddleware, Before, BeforeMiddleware, Middleware,
    MiddlewareChain, Service,
};

enum Never {}

struct Double;

impl Service for Double {
    type Request = i64;
    type Response = i64;
    type Error = Never;

    fn outcome(&self, req: i64) -> Result<i64, Never> {
        Ok(req * 2)
    }

    fn call(&self, req: i64) -> Result<i64, Never> {
        self.outcome(req)
    }
}

struct ParseInt;

impl Before<Double> for ParseInt {
    type Request = String;
    type Error = Never;

    fn before_outcome(&self, req: String) -> Result<i64, Never> {
        Ok(req.trim().parse::<i64>().unwrap_or(0))
    }

    fn before(&self, req: String) -> Result<i64, Never> {
        <Self as Before<Double>>::before_outcome(self, req)
    }

    fn error_into(e: Never) -> Never {
        e
    }

    fn into_service_error(e: Never) -> Never {
        e
    }
}

#[test]
fn parse_then_double() {
    let service = BeforeMiddleware(ParseInt).wrap(Double);
    match Service::call(&service, "21".to_string()) {
        Ok(v) => assert_eq!(v, 42),
        Err(_) => panic!("the call failed"),
    }
}

/// Echoes the request, failing on an empty one.
struct Echo;

impl Service for Echo {
    type Request = String;
    type Response = String;
    type Error = String;

    fn outcome(&self, req: String) -> Result<String, String> {
        if req.is_empty() {
            Err("empty".to_string())
        } else {
            Ok(req)
        }
    }

    fn call(&self, req: String) -> Result<String, String> {
        self.outcome(req)
    }
}

/// Appends its tag to the request; fails on a request that holds "stop".
struct Tag(&'static str);

impl<S: Service<Request = String, Error = String>> Before<S> for Tag {
    type Request = String;
    type Error = usize;

    fn before_outcome(&self, req: String) -> Result<String, usize> {
        if req.contains("stop") {
            Err(req.len())
        } else {
            Ok(format!("{}{}", req, self.0))
        }
    }

    fn before(&self, req: String) -> Result<String, usize> {
        <Self as Before<S>>::before_outcome(self, req)
    }

    fn error_into(e: usize) -> String {
        format!("rejected after {} bytes", e)
    }

    fn into_service_error(e: usize) -> String {
        <Self as Before<S>>::error_into(e)
    }
}

/// Appends its tag to the response; fails on a response that holds "bad".
struct Stamp(&'static str);

impl<S: Service<Response = String, Error = String>> After<S> for Stamp {
    type Response = String;
    type Error = ();

    fn after_outcome(&self, resp: String) -> Result<String, ()> {
        if resp.contains("bad") {
            Err(())
        } else {
            Ok(format!("{}{}", resp, self.0))
        }
    }

    fn after(&self, resp: String) -> Result<String, ()> {
        <Self as After<S>>::after_outcome(self, resp)
    }

    fn error_into(_e: ()) -> String {
        "after failed".to_string()
    }

    fn into_service_error(e: ()) -> String {
        <Self as After<S>>::error_into(e)
    }
}

/// Calls the wrapped handler twice, on the request and on its first answer.
struct Twice;

impl<S: Service<Request = String, Response = String, Error = String>> Around<S> for Twice {
    type Request = String;
    type Response = String;
    type Error = String;

    fn around_outcome(&self, service: &S, req: String) -> Result<String, String> {
        match service.outcome(req) {
            Ok(first) => service.outcome(format!("{}+", first)),
            Err(e) => Err(format!("first call: {}", e)),
        }
    }

    fn around(&self, service: &S, req: String) -> Result<String, String> {
        match Service::call(service, req) {
            Ok(first) => Service::call(service, format!("{}+", first)),
            Err(e) => Err(format!("first call: {}", e)),
        }
    }
}

#[test]
fn around_controls_the_call() {
    let service = AroundMiddleware(Twice).wrap(Echo);
    assert_eq!(Service::call(&service, "a".to_string()), Ok("a+".to_string()));
    assert_eq!(Service::call(&service, String::new()), Err("first call: empty".to_string()));
}

#[test]
fn before_translates_the_request() {
    let service = BeforeMiddleware(Tag("1")).wrap(Echo);
    assert_eq!(Service::call(&service, "a".to_string()), Ok("a1".to_string()));
    assert_eq!(Service::call(&service, String::new()), Ok("1".to_string()));
}

#[test]
fn before_failure_short_circuits() {
    let service = BeforeMiddleware(Tag("1")).wrap(Echo);
    assert_eq!(
        Service::call(&service, "stop".to_string()),
        Err("rejected after 4 bytes".to_string())
    );
}

#[test]
fn after_translates_the_response() {
    let service = AfterMiddleware(Stamp("!")).wrap(Echo);
    assert_eq!(Service::call(&service, "a".to_string()), Ok("a!".to_string()));
    assert_eq!(Service::call(&service, "bad".to_string()), Err("after failed".to_string()));
    assert_eq!(Service::call(&service, String::new()), Err("empty".to_string()));
}

#[test]
fn chain_of_three_before_runs_outer_first() {
    let chain = MiddlewareChain::chain(
        MiddlewareChain::chain(BeforeMiddleware(Tag("M1")), BeforeMiddleware(Tag("M2"))),
        BeforeMiddleware(Tag("M3")),
    );
    let service = chain.wrap(Echo);
    assert_eq!(Service::call(&service, "S:".to_string()), Ok("S:M3M2M1".to_string()));
}

#[test]
fn chain_equals_nested_wrap() {
    let chained = MiddlewareChain::chain(BeforeMiddleware(Tag("a")), BeforeMiddleware(Tag("b")))
        .wrap(Echo);
    let nested = BeforeMiddleware(Tag("b")).wrap(BeforeMiddleware(Tag("a")).wrap(Echo));
    for req in ["", "x", "stop"] {
        assert_eq!(
            Service::call(&chained, req.to_string()),
            Service::call(&nested, req.to_string())
        );
    }
}

#[test]
fn chain_of_after_runs_inner_first() {
    let chain = MiddlewareChain::chain(AfterMiddleware(Stamp("A")), AfterMiddleware(Stamp("B")));
    let service = chain.wrap(Echo);
    assert_eq!(Service::call(&service, "r".to_string()), Ok("rAB".to_string()));
}

#[test]
fn shared_handlers_forward() {
    let shared = std::sync::Arc::new(Echo);
    assert_eq!(Service::call(&shared, "z".to_string()), Ok("z".to_string()));
    let boxed = Box::new(Echo);
    assert_eq!(Service::call(&boxed, String::new()), Err("empty".to_string()));
}

#[test]
fn chain_grouping_does_not_matter() {
    let left = MiddlewareChain::chain(
        MiddlewareChain::chain(BeforeMiddleware(Tag("1")), BeforeMiddleware(Tag("2"))),
        BeforeMiddleware(Tag("3")),
    )
    .wrap(Echo);
    let right = MiddlewareChain::chain(
        BeforeMiddleware(Tag("1")),
        MiddlewareChain::chain(BeforeMiddleware(Tag("2")), BeforeMiddleware(Tag("3"))),
    )
    .wrap(Echo);
    for req in ["", "q", "stop"] {
        assert_eq!(Service::call(&left, req.to_string()), Service::call(&right, req.to_string()));
    }
}
