use may_rpc::client::{Client, LoopbackClient};
use may_rpc::hello::{
    decode_request, decode_reply_string, decode_reply_u32, encode_request, serve_hello_request,
};
use may_rpc::server::{build_response, panic_wire_error, process_request};
use may_rpc::{
    Error, Frame, Hello, HelloClient, HelloRequest, HelloService, ReqBuf, RspBuf, Server,
    WireError,
};
use std::sync::atomic::{AtomicU32, Ordering};

fn serve_one<S: Server>(svc: &S, id: u64, request: &HelloRequest) -> Frame {
    let mut req = ReqBuf::new();
    req.write_all(&encode_request(request));
    let bytes = req.finish(id);
    let frame = Frame::decode(&bytes).unwrap();
    let rsp_bytes = process_request(svc, &frame).unwrap();
    Frame::decode(&rsp_bytes).unwrap()
}

#[test]
fn request_codec_round_trip() {
    let enc = encode_request(&HelloRequest::Echo { data: "some text".to_string() });
    match decode_request(&enc) {
        Some(HelloRequest::Echo { data }) => assert_eq!(data, "some text"),
        other => panic!("unexpected: {:?}", other),
    }
    let enc = encode_request(&HelloRequest::Add { x: 123456, y: 654321 });
    match decode_request(&enc) {
        Some(HelloRequest::Add { x, y }) => {
            assert_eq!(x, 123456);
            assert_eq!(y, 654321);
        },
        other => panic!("unexpected: {:?}", other),
    }
}

#[test]
fn request_codec_rejects_garbage() {
    assert!(decode_request(&[]).is_none());
    assert!(decode_request(&[2, 0, 0]).is_none());
    assert!(decode_request(&[1, 0, 0, 0]).is_none());
    // echo with a wrong length field
    let mut bad = encode_request(&HelloRequest::Echo { data: "abc".to_string() });
    bad[1] = 200;
    assert!(decode_request(&bad).is_none());
}

#[test]
fn echo_through_the_whole_pipeline() {
    let svc = HelloService;
    let request = HelloRequest::Echo { data: "Hello World! id=3".to_string() };
    let rsp = serve_one(&svc, 3, &request);
    assert_eq!(rsp.id, 3);
    assert_eq!(decode_reply_string(&rsp).unwrap(), "Hello World! id=3");
}

#[test]
fn add_through_the_whole_pipeline() {
    let svc = HelloService;
    let rsp = serve_one(&svc, 11, &HelloRequest::Add { x: 7, y: 35 });
    assert_eq!(rsp.id, 11);
    assert_eq!(decode_reply_u32(&rsp).unwrap(), 42);
}

#[test]
fn undecodable_request_reported_to_client() {
    let svc = HelloService;
    let mut req = ReqBuf::new();
    req.write_all(&[99, 99, 99]);
    let frame = Frame::decode(&req.finish(1)).unwrap();
    let rsp = Frame::decode(&process_request(&svc, &frame).unwrap()).unwrap();
    match decode_reply_string(&rsp) {
        Err(Error::ServerDeserialize(m)) => assert_eq!(m, "invalid request"),
        other => panic!("unexpected: {:?}", other),
    }
}

/// A service whose handler panicked: the engine that catches the panic
/// reports it as this status, and the server keeps serving.
struct PanickedService;

impl Server for PanickedService {
    fn service(&self, _req: &[u8], _rsp: &mut RspBuf) -> Result<(), WireError> {
        Err(panic_wire_error())
    }
}

#[test]
fn panic_status_reaches_the_client() {
    let svc = PanickedService;
    let rsp = serve_one(&svc, 21, &HelloRequest::Add { x: 1, y: 4 });
    match decode_reply_u32(&rsp) {
        Err(Error::Status(m)) => assert_eq!(m, "rpc panicked in server!"),
        other => panic!("unexpected: {:?}", other),
    }
    // the same connection serves the next request just as well
    let rsp = serve_one(&svc, 22, &HelloRequest::Add { x: 2, y: 2 });
    assert_eq!(rsp.id, 22);
    match decode_reply_u32(&rsp) {
        Err(Error::Status(m)) => assert_eq!(m, "rpc panicked in server!"),
        other => panic!("unexpected: {:?}", other),
    }
}

/// A counter service: every request returns the number of requests served
/// before it.
struct CountService {
    count: AtomicU32,
}

impl Server for CountService {
    fn service(&self, _req: &[u8], rsp: &mut RspBuf) -> Result<(), WireError> {
        let n = self.count.fetch_add(1, Ordering::Relaxed);
        rsp.write_all(&n.to_le_bytes());
        Ok(())
    }
}

#[test]
fn many_requests_on_one_service() {
    let svc = CountService { count: AtomicU32::new(0) };
    let rounds: u64 = 100_000;
    let mut sum: u64 = 0;
    for i in 0..rounds {
        let rsp = serve_one(&svc, i, &HelloRequest::Add { x: 0, y: 0 });
        assert_eq!(rsp.id, i);
        sum += decode_reply_u32(&rsp).unwrap() as u64;
    }
    assert_eq!(sum, (0..rounds).sum::<u64>());
}

#[test]
fn hello_client_round_trip() {
    let client = HelloClient::new(LoopbackClient::new(HelloService));
    assert_eq!(client.echo("Hello World! id=3".to_string()).unwrap(), "Hello World! id=3");
    assert_eq!(client.add(7, 35).unwrap(), 42);
    for i in 0..10u32 {
        assert_eq!(client.add(i, i).unwrap(), i + i);
        let s = format!("Hello World! id={}", i);
        assert_eq!(client.echo(s.clone()).unwrap(), s);
    }
}

#[test]
fn loopback_records_the_timeout() {
    let mut lb = LoopbackClient::new(HelloService);
    assert_eq!(lb.timeout_ms, None);
    lb.set_timeout(250);
    assert_eq!(lb.timeout_ms, Some(250));
    // an oversize-request call fails before anything is served
    let mut req = ReqBuf::new();
    req.write_all(&vec![0u8; 1024 * 1024]);
    match lb.call_service(req) {
        Err(Error::ClientSerialize(m)) => assert_eq!(m, "request too large"),
        other => panic!("unexpected: {:?}", other),
    }
}

#[test]
fn serve_rejects_undecodable_bytes_untouched() {
    let svc = HelloService;
    let mut rsp = RspBuf::new();
    match serve_hello_request(&svc, &[7, 7, 7], &mut rsp) {
        Err(WireError::ServerDeserialize(m)) => assert_eq!(m, "invalid request"),
        other => panic!("unexpected: {:?}", other),
    }
    // nothing was written into the buffer
    assert_eq!(rsp.payload_len(), 0);
}

#[test]
fn serve_dispatches_valid_requests() {
    let svc = HelloService;
    let mut rsp = RspBuf::new();
    let enc = encode_request(&HelloRequest::Add { x: 20, y: 22 });
    serve_hello_request(&svc, &enc, &mut rsp).unwrap();
    assert_eq!(rsp.payload_len(), 4);
    let bytes = rsp.finish(3, Ok(()));
    let frame = Frame::decode(&bytes).unwrap();
    assert_eq!(decode_reply_u32(&frame).unwrap(), 42);
}

/// A service whose return value cannot fit one frame.
struct OversizeService;

impl Server for OversizeService {
    fn service(&self, _req: &[u8], rsp: &mut RspBuf) -> Result<(), WireError> {
        rsp.write_all(&vec![0u8; 1024 * 1024]);
        Ok(())
    }
}

#[test]
fn oversize_response_yields_no_frame() {
    let svc = OversizeService;
    let mut req = ReqBuf::new();
    req.write_all(&encode_request(&HelloRequest::Add { x: 0, y: 0 }));
    let frame = Frame::decode(&req.finish(1)).unwrap();
    assert!(process_request(&svc, &frame).is_none());
}

#[test]
fn build_response_enforces_the_frame_cap() {
    // an error message beyond the cap: no frame
    let big = String::from_utf8(vec![b'x'; 1024 * 1024]).unwrap();
    let rsp = RspBuf::new();
    assert!(build_response(4, Err(WireError::Status(big)), rsp).is_none());
    // the polling sentinel always fits
    let rsp = RspBuf::new();
    let bytes = build_response(4, Err(WireError::Polling), rsp).unwrap();
    assert_eq!(bytes.len(), 25);
    assert_eq!(bytes[16], 200);
}

#[test]
fn hello_service_handlers() {
    let svc = HelloService;
    assert_eq!(svc.echo("abc".to_string()), "abc");
    assert_eq!(svc.add(2, 3), 5);
    assert_eq!(svc.add(u32::MAX, 1), 0);
}
