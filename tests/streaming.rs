use tokio_service::{
    Async, Service, Stream, StreamingAsService, StreamingResponse, StreamingService,
};

#[derive(Clone)]
struct Members {
    left: Vec<u8>,
}

impl Stream for Members {
    type Item = u8;
    type Error = String;

    fn poll_next(&mut self) -> Result<Async<Option<u8>>, String> {
        if self.left.is_empty() {
            Ok(Async::Ready(None))
        } else {
            Ok(Async::Ready(Some(self.left.remove(0))))
        }
    }
}

struct Reply {
    header: String,
    body: Option<Members>,
}

impl StreamingResponse<String, u8, String> for Reply {
    type Body = Members;

    fn held(&self) -> (String, Option<Members>) {
        (self.header.clone(), self.body.clone())
    }

    fn new(header: String, body: Option<Members>) -> Reply {
        Reply { header, body }
    }

    fn parts(self) -> (String, Option<Members>) {
        (self.header, self.body)
    }

    fn parts_ref(&self) -> (&String, Option<&Members>) {
        (&self.header, self.body.as_ref())
    }

    fn parts_mut(&mut self) -> (&mut String, Option<&mut Members>) {
        (&mut self.header, self.body.as_mut())
    }
}

/// Answers `n` with the header "count" and the members `0..n`; no body for 0.
struct Counter;

impl StreamingService for Counter {
    type Request = u8;
    type Header = String;
    type Member = u8;
    type Error = String;
    type Response = Reply;

    fn outcome(&self, req: u8) -> Result<Reply, String> {
        let body = if req == 0 { None } else { Some(Members { left: (0..req).collect() }) };
        Ok(Reply::new("count".to_string(), body))
    }

    fn call(&self, req: u8) -> Result<Reply, String> {
        self.outcome(req)
    }
}

#[test]
fn streaming_service_as_handler() {
    let service = StreamingAsService(Counter);
    let reply = match Service::call(&service, 2) {
        Ok(r) => r,
        Err(e) => panic!("{}", e),
    };
    assert_eq!(reply.parts_ref().0, "count");
    let (header, body) = reply.parts();
    assert_eq!(header, "count");
    let mut body = match body {
        Some(b) => b,
        None => panic!("no body"),
    };
    assert!(matches!(body.poll_next(), Ok(Async::Ready(Some(0)))));
    assert!(matches!(body.poll_next(), Ok(Async::Ready(Some(1)))));
    assert!(matches!(body.poll_next(), Ok(Async::Ready(None))));
}

#[test]
fn streaming_reply_without_body() {
    let service = StreamingAsService(Counter);
    let mut reply = match Service::call(&service, 0) {
        Ok(r) => r,
        Err(e) => panic!("{}", e),
    };
    assert!(reply.parts_ref().1.is_none());
    reply.parts_mut().0.push('!');
    assert_eq!(reply.parts().0, "count!");
}
