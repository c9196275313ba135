//! Client-side call logic: the client abstraction, the single-inflight
//! stream client's correlation state, and the mappings from transport
//! outcomes to client-visible errors.

use vstd::prelude::*;

use crate::errors::{Error, WireError};
use crate::frame::{
    spec_frame_bytes, spec_rsp_payload, wire_inner, wire_ty, DecodeError, Frame, ReqBuf, RspBuf,
    FRAME_MAX_LEN,
};
use crate::server::{build_response, Server};

verus! {

/// rpc client trait: the request must be encoded into the `ReqBuf`; the
/// response is the raw frame, to be parsed into the final response.
/// Implementations own a transport, pick the correlation id, and bound the
/// wait with their configured timeout.
///
/// An implementation describes in `call_spec` what a call may return for a
/// given request payload and promises to stay within that; a caller's
/// result is thereby anchored to the frame the transport really produced.
pub trait Client {
    /// What a call on this transport may return for a request carrying the
    /// given payload. A transport that promises nothing leaves the default.
    open spec fn call_spec(&self, req: Seq<u8>, r: Result<Frame, Error>) -> bool {
        true
    }

    /// The configured response timeout in milliseconds, if one was set.
    open spec fn timeout_spec(&self) -> Option<u64> {
        None
    }

    /// Call the server with one encoded request.
    fn call_service(&self, req: ReqBuf) -> (r: Result<Frame, Error>)
        requires
            req.wf(),
        ensures
            self.call_spec(req.payload(), r),
    ;

    /// Set the timeout for waiting on a response, in milliseconds.
    fn set_timeout(&mut self, timeout_ms: u64)
        ensures
            final(self).timeout_spec() == Some(timeout_ms),
    ;
}

/// An in-process transport: each call is served synchronously by the wrapped
/// service, so one correlation id suffices and no wait can time out. Its
/// `call_spec` says exactly what comes back: a well-formed frame whose
/// payload is the finished response of an outcome the service's own
/// `service_spec` admits for the request bytes; or `ClientSerialize` for a
/// request beyond the frame cap; or `Timeout` when the outcome's response
/// oversteps the cap and no response exists, as a remote caller would see it.
pub struct LoopbackClient<S: Server> {
    /// The service answering the calls.
    pub service: S,
    /// The recorded timeout; never reached, as calls answer synchronously.
    pub timeout_ms: Option<u64>,
}

impl<S: Server> LoopbackClient<S> {
    /// Wrap a service.
    pub fn new(service: S) -> (c: LoopbackClient<S>)
        ensures
            c.timeout_spec() == None::<u64>,
            c.service == service,
    {
        LoopbackClient { service, timeout_ms: None }
    }
}

impl<S: Server> Client for LoopbackClient<S> {
    open spec fn call_spec(&self, req: Seq<u8>, r: Result<Frame, Error>) -> bool {
        match r {
            Ok(f) => f.wf() && f.id == 0 && exists|ret: Result<(), WireError>, payload: Seq<u8>|
                {
                    &&& #[trigger] self.service.service_spec(req, Seq::empty(), ret, payload)
                    &&& f.payload() == (match ret {
                        Ok(_) => spec_rsp_payload(0, payload),
                        Err(e) => spec_rsp_payload(wire_ty(e), wire_inner(e)),
                    })
                },
            Err(e) => e matches Error::Timeout || e matches Error::ClientSerialize(_),
        }
    }

    open spec fn timeout_spec(&self) -> Option<u64> {
        self.timeout_ms
    }

    fn call_service(&self, req: ReqBuf) -> (r: Result<Frame, Error>) {
        if req.frame_len() > FRAME_MAX_LEN as usize {
            return Err(Error::ClientSerialize("request too large".to_owned()));
        }
        let bytes = req.finish(0);
        proof {
            crate::frame::lemma_frame_round_trip(0, req.payload());
        }
        let frame = match Frame::decode(bytes.as_slice()) {
            Ok(f) => f,
            Err(_) => {
                return Err(Error::ClientSerialize("request too large".to_owned()));
            },
        };
        let mut rsp = RspBuf::new();
        let ret = self.service.service(frame.decode_req(), &mut rsp);
        let ghost gret = ret;
        let ghost gpayload = rsp.payload();
        match build_response(frame.id, ret, rsp) {
            Some(b) => {
                proof {
                    crate::frame::lemma_frame_round_trip(0, (match gret {
                        Ok(_) => spec_rsp_payload(0, gpayload),
                        Err(e) => spec_rsp_payload(wire_ty(e), wire_inner(e)),
                    }));
                }
                match Frame::decode(b.as_slice()) {
                    Ok(f) => {
                        proof {
                            assert(self.service.service_spec(
                                req.payload(),
                                Seq::empty(),
                                gret,
                                gpayload,
                            ));
                        }
                        Ok(f)
                    },
                    Err(_) => Err(Error::Timeout),
                }
            },
            // the outcome oversteps the frame cap: no response exists, and a
            // remote caller would wait for it in vain
            None => Err(Error::Timeout),
        }
    }

    fn set_timeout(&mut self, timeout_ms: u64) {
        self.timeout_ms = Some(timeout_ms);
    }
}

/// The correlation state of the single-inflight stream client: a
/// monotonically increasing request id, and the configured read timeout.
/// The stream itself lives with the transport; it feeds decoded frames to
/// `accept_response` until one matches.
pub struct StreamClient {
    id: u64,
    timeout_ms: Option<u64>,
}

impl StreamClient {
    /// The id the next call will use.
    pub closed spec fn next_id(&self) -> u64 {
        self.id
    }

    /// The configured read timeout, if any was set.
    pub closed spec fn timeout(&self) -> Option<u64> {
        self.timeout_ms
    }

    /// A fresh client: ids start at zero, no timeout configured.
    pub fn new() -> (c: StreamClient)
        ensures
            c.next_id() == 0,
            c.timeout() == None::<u64>,
    {
        StreamClient { id: 0, timeout_ms: None }
    }

    /// Set the read timeout in milliseconds.
    pub fn set_timeout(&mut self, timeout_ms: u64)
        ensures
            final(self).timeout() == Some(timeout_ms),
            final(self).next_id() == old(self).next_id(),
    {
        self.timeout_ms = Some(timeout_ms);
    }

    /// The configured read timeout in milliseconds, if any.
    pub fn timeout_ms(&self) -> (t: Option<u64>)
        ensures
            t == self.timeout(),
    {
        self.timeout_ms
    }

    /// The id the next call will use; `begin_call` asks that it not yet be
    /// the largest id, so callers check here first.
    pub fn next_call_id(&self) -> (id: u64)
        ensures
            id == self.next_id(),
    {
        self.id
    }

    /// Start a call: allocate this call's id and produce the complete frame
    /// bytes to put on the wire.
    pub fn begin_call(&mut self, req: ReqBuf) -> (r: (u64, Vec<u8>))
        requires
            req.wf(),
            req.payload().len() + 16 <= FRAME_MAX_LEN,
            old(self).next_id() < u64::MAX,
        ensures
            r.0 == old(self).next_id(),
            r.1@ == spec_frame_bytes(r.0, req.payload()),
            final(self).next_id() == old(self).next_id() + 1,
            final(self).timeout() == old(self).timeout(),
    {
        let id = self.id;
        self.id = self.id + 1;
        (id, req.finish(id))
    }

    /// Decide what to do with a frame read back from the stream: a frame
    /// bearing this call's id is the response; any other frame is a stale
    /// response to an earlier call and is discarded.
    pub fn accept_response(expected_id: u64, frame: Frame) -> (r: Option<Frame>)
        ensures
            frame.id == expected_id ==> r == Some(frame),
            frame.id != expected_id ==> r is None,
    {
        if frame.id == expected_id {
            Some(frame)
        } else {
            None
        }
    }
}

/// How a frame decode failure surfaces to the caller of a client: as a
/// `ClientDeserialize` error naming the failure.
pub fn decode_error_to_error(e: DecodeError) -> (r: Error)
    ensures
        r matches Error::ClientDeserialize(m) && m@ == (match e {
            DecodeError::UnexpectedEof => "unexpected end of stream"@,
            DecodeError::InvalidInput => "frame too large"@,
        }),
{
    match e {
        DecodeError::UnexpectedEof => Error::ClientDeserialize(
            "unexpected end of stream".to_owned(),
        ),
        DecodeError::InvalidInput => Error::ClientDeserialize("frame too large".to_owned()),
    }
}

/// The client-visible meaning of a failed blocking read, decided from
/// whether the read hit the configured deadline: a timed-out read means no
/// response arrived within the window, so the call fails with `Timeout`;
/// any other failure is a transport error and surfaces as `Io` carrying it.
pub fn read_failure_to_error(timed_out: bool, e: std::io::Error) -> (r: Error)
    ensures
        timed_out ==> r matches Error::Timeout,
        !timed_out ==> (r matches Error::Io(e2) && e2 == e),
{
    if timed_out {
        Error::Timeout
    } else {
        Error::Io(e)
    }
}

/// The end of a bounded wait for a response: a frame, if one was deposited
/// in time; otherwise the call fails with `Timeout`. A response that turns
/// up after this point finds no waiter and is dropped.
pub fn wait_outcome(r: Option<Frame>) -> (res: Result<Frame, Error>)
    ensures
        match r {
            Some(f) => res matches Ok(g) && g == f,
            None => res matches Err(e) && e is Timeout,
        },
{
    match r {
        Some(f) => Ok(f),
        None => Err(Error::Timeout),
    }
}

} // verus!
