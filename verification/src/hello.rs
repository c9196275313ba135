//! A sample service built on the core: the `Hello` interface, the binary
//! encoding of its requests and return values, the server-side dispatch and
//! the client stub. The payload codec is the crate's own: tag byte, then the
//! fields, multi-byte integers little-endian.

use vstd::prelude::*;
use vstd::bytes::{
    lemma_auto_spec_u32_to_from_le_bytes, lemma_auto_spec_u64_to_from_le_bytes,
    spec_u32_to_le_bytes, spec_u64_to_le_bytes, u32_from_le_bytes, u32_to_le_bytes,
    u64_from_le_bytes, u64_to_le_bytes,
};
use vstd::slice::{slice_subrange, slice_to_vec};
use vstd::utf8::{encode_utf8, encode_utf8_valid_utf8, valid_utf8};

use crate::client::Client;
use crate::errors::{Error, WireError};
use crate::frame::{rsp_inner, rsp_ty, rsp_well_formed, Frame, ReqBuf, RspBuf};
use crate::server::Server;
use crate::text::{lemma_encode_utf8_injective, string_bytes, string_from_utf8};

verus! {

/// The `Hello` interface a service implements. An implementation says in
/// `echo_spec` and `add_spec` what its methods return; the methods promise
/// to return exactly that, which is what lets the dispatch pin the response
/// bytes to the handler's own value.
pub trait Hello {
    /// What `echo` returns for a given argument.
    spec fn echo_spec(&self, data: Seq<char>) -> Seq<char>;

    /// What `add` returns for given summands.
    spec fn add_spec(&self, x: u32, y: u32) -> u32;

    /// Returns the greeting `echo_spec` names.
    fn echo(&self, data: String) -> (r: String)
        ensures
            r@ == self.echo_spec(data@),
    ;

    /// Add two numbers, to the sum `add_spec` names.
    fn add(&self, x: u32, y: u32) -> (r: u32)
        ensures
            r == self.add_spec(x, y),
    ;
}

/// One call of the `Hello` interface, as carried in a request payload.
#[derive(Debug)]
pub enum HelloRequest {
    /// A call of `echo`.
    Echo {
        /// The string to echo.
        data: String,
    },
    /// A call of `add`.
    Add {
        /// The first summand.
        x: u32,
        /// The second summand.
        y: u32,
    },
}

/// The encoding of an `echo` call: tag 0, the byte length of the string
/// little-endian, then its UTF-8 bytes.
pub open spec fn spec_encode_echo(data: Seq<char>) -> Seq<u8> {
    seq![0u8] + spec_u64_to_le_bytes(encode_utf8(data).len() as u64) + encode_utf8(data)
}

/// The encoding of an `add` call: tag 1, then the two summands little-endian.
pub open spec fn spec_encode_add(x: u32, y: u32) -> Seq<u8> {
    seq![1u8] + spec_u32_to_le_bytes(x) + spec_u32_to_le_bytes(y)
}

/// The encoding of a request value.
pub open spec fn spec_encode_request(r: HelloRequest) -> Seq<u8> {
    match r {
        HelloRequest::Echo { data } => spec_encode_echo(data@),
        HelloRequest::Add { x, y } => spec_encode_add(x, y),
    }
}

/// Whether some request value encodes to these bytes.
pub open spec fn spec_is_request_encoding(b: Seq<u8>) -> bool {
    (exists|d: Seq<char>| b == spec_encode_echo(d)) || (exists|x: u32, y: u32|
        b == spec_encode_add(x, y))
}

/// Serialize a request value.
pub fn encode_request(r: &HelloRequest) -> (out: Vec<u8>)
    ensures
        out@ == spec_encode_request(*r),
{
    match r {
        HelloRequest::Echo { data } => {
            let mut out: Vec<u8> = Vec::new();
            out.push(0);
            let mut bytes = string_bytes(data);
            let mut lenb = u64_to_le_bytes(bytes.len() as u64);
            out.append(&mut lenb);
            out.append(&mut bytes);
            proof {
                assert(out@ =~= spec_encode_echo(data@));
            }
            out
        },
        HelloRequest::Add { x, y } => {
            let mut out: Vec<u8> = Vec::new();
            out.push(1);
            let mut xb = u32_to_le_bytes(*x);
            out.append(&mut xb);
            let mut yb = u32_to_le_bytes(*y);
            out.append(&mut yb);
            proof {
                assert(out@ =~= spec_encode_add(*x, *y));
            }
            out
        },
    }
}

/// Deserialize a request: succeeds exactly on the encodings that
/// `encode_request` produces, and then returns a request that encodes to
/// the input bytes.
pub fn decode_request(bytes: &[u8]) -> (r: Option<HelloRequest>)
    ensures
        match r {
            Some(req) => bytes@ == spec_encode_request(req),
            None => !spec_is_request_encoding(bytes@),
        },
{
    proof {
        lemma_auto_spec_u64_to_from_le_bytes();
        lemma_auto_spec_u32_to_from_le_bytes();
    }
    if bytes.len() == 0 {
        proof {
            lemma_no_request_encoding(bytes@);
        }
        return None;
    }
    let tag = bytes[0];
    if tag == 0 {
        if bytes.len() < 9 {
            proof {
                lemma_no_request_encoding(bytes@);
            }
            return None;
        }
        let len = u64_from_le_bytes(slice_subrange(bytes, 1, 9));
        if (bytes.len() - 9) as u64 != len {
            proof {
                lemma_no_request_encoding(bytes@);
            }
            return None;
        }
        let tail = slice_to_vec(slice_subrange(bytes, 9, bytes.len()));
        match string_from_utf8(tail) {
            Some(data) => {
                proof {
                    assert(bytes@.subrange(9, bytes@.len() as int) =~= encode_utf8(data@));
                    assert(bytes@ =~= spec_encode_echo(data@));
                }
                Some(HelloRequest::Echo { data })
            },
            None => {
                proof {
                    lemma_no_request_encoding(bytes@);
                }
                None
            },
        }
    } else if tag == 1 {
        if bytes.len() != 9 {
            proof {
                lemma_no_request_encoding(bytes@);
            }
            return None;
        }
        let x = u32_from_le_bytes(slice_subrange(bytes, 1, 5));
        let y = u32_from_le_bytes(slice_subrange(bytes, 5, 9));
        proof {
            assert(bytes@.subrange(1, 5) =~= spec_u32_to_le_bytes(x));
            assert(bytes@.subrange(5, 9) =~= spec_u32_to_le_bytes(y));
            assert(bytes@ =~= spec_encode_add(x, y));
        }
        Some(HelloRequest::Add { x, y })
    } else {
        proof {
            lemma_no_request_encoding(bytes@);
        }
        None
    }
}

/// The conditions under which no request value encodes to `b`; each return
/// path of `decode_request` that rejects its input establishes one of them.
proof fn lemma_no_request_encoding(b: Seq<u8>)
    requires
        b.len() == 0 || (b[0] != 0 && b[0] != 1) || (b[0] == 0 && b.len() < 9) || (b[0] == 0
            && b.len() >= 9 && spec_u64_to_le_bytes((b.len() - 9) as u64) != b.subrange(1, 9)) || (
        b[0] == 0 && b.len() >= 9 && !valid_utf8(b.subrange(9, b.len() as int))) || (b[0] == 1
            && b.len() != 9),
    ensures
        !spec_is_request_encoding(b),
{
    lemma_auto_spec_u64_to_from_le_bytes();
    lemma_auto_spec_u32_to_from_le_bytes();
    assert forall|d: Seq<char>| b != #[trigger] spec_encode_echo(d) by {
        if b == spec_encode_echo(d) {
            assert(b[0] == 0);
            assert(b.len() == 9 + encode_utf8(d).len());
            assert(b.subrange(1, 9) =~= spec_u64_to_le_bytes(encode_utf8(d).len() as u64));
            assert(b.subrange(9, b.len() as int) =~= encode_utf8(d));
            encode_utf8_valid_utf8(d);
        }
    }
    assert forall|x: u32, y: u32| b != #[trigger] spec_encode_add(x, y) by {
        if b == spec_encode_add(x, y) {
            assert(b[0] == 1);
            assert(b.len() == 9);
        }
    }
}

/// Dispatch decoded requests to the interface methods, serializing the
/// return value into the response buffer: a string as its UTF-8 bytes, a
/// number little-endian.
pub trait HelloServiceDispatch: Hello {
    /// Serve one decoded request: the selected method runs on the request's
    /// arguments and exactly its return value, in wire form — the UTF-8
    /// bytes of the string `echo_spec` names, the little-endian bytes of
    /// the number `add_spec` names — is appended to the buffer. Nothing in
    /// the dispatch can fail.
    fn dispatch_req(&self, request: HelloRequest, rsp: &mut RspBuf) -> (r: Result<(), WireError>)
        requires
            old(rsp).wf(),
        ensures
            final(rsp).wf(),
            r matches Ok(_),
            match request {
                HelloRequest::Echo { data } => final(rsp).payload() == old(rsp).payload()
                    + encode_utf8(self.echo_spec(data@)),
                HelloRequest::Add { x, y } => final(rsp).payload() == old(rsp).payload()
                    + spec_u32_to_le_bytes(self.add_spec(x, y)),
            },
    {
        match request {
            HelloRequest::Echo { data } => {
                let ret = self.echo(data);
                let bytes = string_bytes(&ret);
                rsp.write_all(bytes.as_slice());
                proof {
                    assert(rsp.payload() == old(rsp).payload() + encode_utf8(ret@));
                }
                Ok(())
            },
            HelloRequest::Add { x, y } => {
                let ret = self.add(x, y);
                let bytes = u32_to_le_bytes(ret);
                rsp.write_all(bytes.as_slice());
                proof {
                    assert(rsp.payload() == old(rsp).payload() + spec_u32_to_le_bytes(ret));
                }
                Ok(())
            },
        }
    }
}

impl<T: Hello> HelloServiceDispatch for T {

}

/// A `Hello` service: echoes strings unchanged and adds numbers, wrapping
/// around on overflow so that no input can bring the handler down.
pub struct HelloService;

impl Hello for HelloService {
    open spec fn echo_spec(&self, data: Seq<char>) -> Seq<char> {
        data
    }

    open spec fn add_spec(&self, x: u32, y: u32) -> u32 {
        x.wrapping_add(y)
    }

    fn echo(&self, data: String) -> String {
        data
    }

    fn add(&self, x: u32, y: u32) -> u32 {
        x.wrapping_add(y)
    }
}

/// Which outcomes serving raw request bytes has for a `Hello` service:
/// bytes that are some request's encoding are dispatched, succeed, and the
/// buffer grows by exactly the selected method's wire-form return value,
/// the one the service's own `echo_spec`/`add_spec` name; bytes that encode
/// no request are rejected as `ServerDeserialize("invalid request")` with
/// the buffer untouched and nothing dispatched.
pub open spec fn spec_hello_outcome<T: Hello>(
    svc: &T,
    req: Seq<u8>,
    rsp_before: Seq<u8>,
    ret: Result<(), WireError>,
    rsp_after: Seq<u8>,
) -> bool {
    if spec_is_request_encoding(req) {
        ret matches Ok(_) && exists|r2: HelloRequest|
            req == #[trigger] spec_encode_request(r2) && (match r2 {
                HelloRequest::Echo { data } => rsp_after == rsp_before + encode_utf8(
                    svc.echo_spec(data@),
                ),
                HelloRequest::Add { x, y } => rsp_after == rsp_before + spec_u32_to_le_bytes(
                    svc.add_spec(x, y),
                ),
            })
    } else {
        ret matches Err(WireError::ServerDeserialize(m)) && m@ == "invalid request"@ && rsp_after
            == rsp_before
    }
}

/// Serve one raw request for any `Hello` service, within exactly the
/// outcomes `spec_hello_outcome` describes.
pub fn serve_hello_request<T: Hello>(svc: &T, req: &[u8], rsp: &mut RspBuf) -> (r: Result<
    (),
    WireError,
>)
    requires
        old(rsp).wf(),
    ensures
        final(rsp).wf(),
        spec_hello_outcome(svc, req@, old(rsp).payload(), r, final(rsp).payload()),
        !spec_is_request_encoding(req@) ==> *final(rsp) == *old(rsp),
{
    match decode_request(req) {
        Some(request) => {
            let ghost grequest = request;
            let r = svc.dispatch_req(request, rsp);
            proof {
                assert(req@ == spec_encode_request(grequest));
            }
            r
        },
        None => Err(WireError::ServerDeserialize("invalid request".to_owned())),
    }
}

impl Server for HelloService {
    open spec fn service_spec(
        &self,
        req: Seq<u8>,
        rsp_before: Seq<u8>,
        ret: Result<(), WireError>,
        rsp_after: Seq<u8>,
    ) -> bool {
        spec_hello_outcome(self, req, rsp_before, ret, rsp_after)
    }

    fn service(&self, req: &[u8], rsp: &mut RspBuf) -> (r: Result<(), WireError>) {
        serve_hello_request(self, req, rsp)
    }
}

/// How a response payload reads back for a call returning a string: a
/// type-0 payload gives the UTF-8 return value; types 1, 2 and 3 give the
/// matching server-reported error with its message; everything else is a
/// `ClientDeserialize`, as in `Frame::decode_rsp`.
pub open spec fn spec_string_reply(p: Seq<u8>, r: Result<String, Error>) -> bool {
    match r {
        Ok(s) => rsp_well_formed(p) && rsp_ty(p) == 0 && encode_utf8(s@) == rsp_inner(p),
        Err(e) => match e {
            Error::ServerDeserialize(m) => rsp_well_formed(p) && rsp_ty(p) == 1 && encode_utf8(
                m@,
            ) == rsp_inner(p),
            Error::ServerSerialize(m) => rsp_well_formed(p) && rsp_ty(p) == 2 && encode_utf8(m@)
                == rsp_inner(p),
            Error::Status(m) => rsp_well_formed(p) && rsp_ty(p) == 3 && encode_utf8(m@)
                == rsp_inner(p),
            Error::ClientDeserialize(m) => (!rsp_well_formed(p) && m@
                == "invalid response frame"@) || (rsp_well_formed(p) && !(rsp_ty(p) == 0 || rsp_ty(
                p,
            ) == 1 || rsp_ty(p) == 2 || rsp_ty(p) == 3) && m@ == "invalid response type"@) || (
            rsp_well_formed(p) && (rsp_ty(p) == 1 || rsp_ty(p) == 2 || rsp_ty(p) == 3)
                && !valid_utf8(rsp_inner(p)) && m@ == "invalid response message"@) || (
            rsp_well_formed(p) && rsp_ty(p) == 0 && !valid_utf8(rsp_inner(p)) && m@
                == "invalid response payload"@),
            _ => false,
        },
    }
}

/// Interpret a response frame for a call that returns a string, within
/// exactly the cases `spec_string_reply` describes.
pub fn decode_reply_string(frame: &Frame) -> (r: Result<String, Error>)
    ensures
        spec_string_reply(frame.payload(), r),
{
    let d = match frame.decode_rsp() {
        Ok(d) => d,
        Err(e) => {
            return Err(e);
        },
    };
    match string_from_utf8(slice_to_vec(d)) {
        Some(s) => Ok(s),
        None => Err(Error::ClientDeserialize("invalid response payload".to_owned())),
    }
}

/// How a response payload reads back for a call returning a `u32`: a
/// type-0 payload of exactly four bytes gives the value little-endian;
/// the error cases are as for a string reply, with the four-byte check in
/// place of UTF-8 validity.
pub open spec fn spec_u32_reply(p: Seq<u8>, r: Result<u32, Error>) -> bool {
    match r {
        Ok(v) => rsp_well_formed(p) && rsp_ty(p) == 0 && spec_u32_to_le_bytes(v) == rsp_inner(p),
        Err(e) => match e {
            Error::ServerDeserialize(m) => rsp_well_formed(p) && rsp_ty(p) == 1 && encode_utf8(
                m@,
            ) == rsp_inner(p),
            Error::ServerSerialize(m) => rsp_well_formed(p) && rsp_ty(p) == 2 && encode_utf8(m@)
                == rsp_inner(p),
            Error::Status(m) => rsp_well_formed(p) && rsp_ty(p) == 3 && encode_utf8(m@)
                == rsp_inner(p),
            Error::ClientDeserialize(m) => (!rsp_well_formed(p) && m@
                == "invalid response frame"@) || (rsp_well_formed(p) && !(rsp_ty(p) == 0 || rsp_ty(
                p,
            ) == 1 || rsp_ty(p) == 2 || rsp_ty(p) == 3) && m@ == "invalid response type"@) || (
            rsp_well_formed(p) && (rsp_ty(p) == 1 || rsp_ty(p) == 2 || rsp_ty(p) == 3)
                && !valid_utf8(rsp_inner(p)) && m@ == "invalid response message"@) || (
            rsp_well_formed(p) && rsp_ty(p) == 0 && rsp_inner(p).len() != 4 && m@
                == "invalid response payload"@),
            _ => false,
        },
    }
}

/// Interpret a response frame for a call that returns a `u32`, within
/// exactly the cases `spec_u32_reply` describes.
pub fn decode_reply_u32(frame: &Frame) -> (r: Result<u32, Error>)
    ensures
        spec_u32_reply(frame.payload(), r),
{
    let d = match frame.decode_rsp() {
        Ok(d) => d,
        Err(e) => {
            return Err(e);
        },
    };
    if d.len() != 4 {
        return Err(Error::ClientDeserialize("invalid response payload".to_owned()));
    }
    let v = u32_from_le_bytes(d);
    proof {
        lemma_auto_spec_u32_to_from_le_bytes();
        assert(spec_u32_to_le_bytes(v) == d@);
    }
    Ok(v)
}

/// The client stub of the `Hello` interface over any transport.
pub struct HelloClient<C: Client> {
    transport: C,
}

impl<C: Client> HelloClient<C> {
    /// The wrapped transport.
    pub closed spec fn transport_spec(&self) -> C {
        self.transport
    }

    /// The transport's configured response timeout, if one was set.
    pub closed spec fn timeout_spec(&self) -> Option<u64> {
        self.transport.timeout_spec()
    }

    /// Wrap a connected transport.
    pub fn new(transport: C) -> (c: HelloClient<C>)
        ensures
            c.transport_spec() == transport,
    {
        HelloClient { transport }
    }

    /// Set the transport's response timeout, in milliseconds, by forwarding
    /// to the transport's own setter.
    pub fn set_timeout(&mut self, timeout_ms: u64)
        ensures
            final(self).timeout_spec() == Some(timeout_ms),
    {
        self.transport.set_timeout(timeout_ms);
    }

    /// Call `echo` on the remote service: the request handed to the
    /// transport carries exactly this call's encoding, and the result is
    /// the reading of a frame the transport's own `call_spec` admits for
    /// it — or the transport's error, equally admitted.
    pub fn echo(&self, data: String) -> (r: Result<String, Error>)
        ensures
            ({
                let enc = spec_encode_echo(data@);
                (exists|f: Frame|
                    #[trigger] self.transport_spec().call_spec(enc, Ok(f)) && spec_string_reply(
                        f.payload(),
                        r,
                    )) || (r matches Err(e) && self.transport_spec().call_spec(enc, Err(e)))
            }),
    {
        let mut req = ReqBuf::new();
        let enc = encode_request(&HelloRequest::Echo { data });
        req.write_all(enc.as_slice());
        proof {
            assert(req.payload() =~= spec_encode_echo(data@));
        }
        let ghost reqp = req.payload();
        match self.transport.call_service(req) {
            Ok(frame) => {
                let reply = decode_reply_string(&frame);
                proof {
                    assert(self.transport_spec().call_spec(reqp, Ok(frame)));
                }
                reply
            },
            Err(e) => Err(e),
        }
    }

    /// Call `add` on the remote service: the request handed to the
    /// transport carries exactly this call's encoding, and the result is
    /// the reading of a frame the transport's own `call_spec` admits for
    /// it — or the transport's error, equally admitted.
    pub fn add(&self, x: u32, y: u32) -> (r: Result<u32, Error>)
        ensures
            ({
                let enc = spec_encode_add(x, y);
                (exists|f: Frame|
                    #[trigger] self.transport_spec().call_spec(enc, Ok(f)) && spec_u32_reply(
                        f.payload(),
                        r,
                    )) || (r matches Err(e) && self.transport_spec().call_spec(enc, Err(e)))
            }),
    {
        let mut req = ReqBuf::new();
        let enc = encode_request(&HelloRequest::Add { x, y });
        req.write_all(enc.as_slice());
        proof {
            assert(req.payload() =~= spec_encode_add(x, y));
        }
        let ghost reqp = req.payload();
        match self.transport.call_service(req) {
            Ok(frame) => {
                let reply = decode_reply_u32(&frame);
                proof {
                    assert(self.transport_spec().call_spec(reqp, Ok(frame)));
                }
                reply
            },
            Err(e) => Err(e),
        }
    }
}

/// A type-0 response whose inner bytes encode a string return value reads
/// back as exactly that value: with the contract of `decode_reply_string`,
/// the string the handler returned is the string the caller gets.
pub proof fn lemma_echo_reply_round_trip(s: Seq<char>)
    ensures
        ({
            let p = crate::frame::spec_rsp_payload(0, encode_utf8(s));
            encode_utf8(s).len() < crate::frame::FRAME_MAX_LEN ==> rsp_well_formed(p) && rsp_ty(p)
                == 0 && rsp_inner(p) == encode_utf8(s) && valid_utf8(rsp_inner(p)) && (forall|
                t: Seq<char>| encode_utf8(t) == rsp_inner(p) ==> t == s)
        }),
{
    if encode_utf8(s).len() < crate::frame::FRAME_MAX_LEN {
        crate::frame::lemma_rsp_payload_round_trip(0, encode_utf8(s));
        encode_utf8_valid_utf8(s);
        let p = crate::frame::spec_rsp_payload(0, encode_utf8(s));
        assert forall|t: Seq<char>| encode_utf8(t) == rsp_inner(p) implies t == s by {
            lemma_encode_utf8_injective(t, s);
        }
    }
}

/// The request encoding is injective: equal encodings come from calls of
/// the same method with the same arguments. Together with the contract of
/// `decode_request` this is the request codec's round trip.
pub proof fn lemma_request_encoding_injective(r1: HelloRequest, r2: HelloRequest)
    requires
        spec_encode_request(r1) == spec_encode_request(r2),
    ensures
        match (r1, r2) {
            (HelloRequest::Echo { data: d1 }, HelloRequest::Echo { data: d2 }) => d1@ == d2@,
            (HelloRequest::Add { x: x1, y: y1 }, HelloRequest::Add { x: x2, y: y2 }) => x1 == x2
                && y1 == y2,
            _ => false,
        },
{
    lemma_auto_spec_u64_to_from_le_bytes();
    lemma_auto_spec_u32_to_from_le_bytes();
    let b = spec_encode_request(r1);
    match r1 {
        HelloRequest::Echo { data: d1 } => {
            assert(b[0] == 0);
            match r2 {
                HelloRequest::Echo { data: d2 } => {
                    assert(b.len() == 9 + encode_utf8(d1@).len());
                    assert(spec_encode_request(r2).len() == 9 + encode_utf8(d2@).len());
                    assert(b.subrange(9, b.len() as int) =~= encode_utf8(d1@));
                    assert(spec_encode_request(r2).subrange(9, b.len() as int) =~= encode_utf8(
                        d2@,
                    ));
                    lemma_encode_utf8_injective(d1@, d2@);
                },
                HelloRequest::Add { x: x2, y: y2 } => {
                    assert(spec_encode_request(r2)[0] == 1);
                },
            }
        },
        HelloRequest::Add { x: x1, y: y1 } => {
            assert(b[0] == 1);
            match r2 {
                HelloRequest::Echo { data: d2 } => {
                    assert(spec_encode_request(r2)[0] == 0);
                },
                HelloRequest::Add { x: x2, y: y2 } => {
                    assert(b.subrange(1, 5) =~= spec_u32_to_le_bytes(x1));
                    assert(b.subrange(5, 9) =~= spec_u32_to_le_bytes(y1));
                    assert(spec_encode_request(r2).subrange(1, 5) =~= spec_u32_to_le_bytes(x2));
                    assert(spec_encode_request(r2).subrange(5, 9) =~= spec_u32_to_le_bytes(y2));
                    assert(spec_u32_to_le_bytes(x1) == spec_u32_to_le_bytes(x2));
                    assert(spec_u32_to_le_bytes(y1) == spec_u32_to_le_bytes(y2));
                },
            }
        },
    }
}

} // verus!
