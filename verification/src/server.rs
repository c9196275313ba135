//! Server-side request processing: the service abstraction and the step that
//! turns one decoded request frame into the response frame bytes.

use vstd::prelude::*;

use crate::errors::WireError;
use crate::text::string_bytes;
use crate::frame::{
    spec_frame_bytes, spec_rsp_payload, wire_inner, wire_ty, Frame, RspBuf, FRAME_MAX_LEN,
    RSP_HEADER_LEN,
};

verus! {

/// The trait a server implements. The request is deserialized from the
/// input bytes; the response is serialized into the `RspBuf`. A
/// deserialize or serialize failure is reported as a `WireError`;
/// application errors are encapsulated in the response payload. The
/// reserved header space of the buffer must be left intact.
///
/// An implementation describes its own behavior in `service_spec`; `service`
/// promises to stay within that description, which is what lets the engine's
/// per-request step tie the response it builds to the service's actual
/// outcome.
pub trait Server: Send + Sync + Sized {
    /// Which outcomes serving `req` may have: `ret` is the reported result,
    /// and the buffer's payload went from `rsp_before` to `rsp_after`. An
    /// implementation that promises nothing leaves the default.
    open spec fn service_spec(
        &self,
        req: Seq<u8>,
        rsp_before: Seq<u8>,
        ret: Result<(), WireError>,
        rsp_after: Seq<u8>,
    ) -> bool {
        true
    }

    /// Serve one request.
    fn service(&self, req: &[u8], rsp: &mut RspBuf) -> (r: Result<(), WireError>)
        requires
            old(rsp).wf(),
        ensures
            final(rsp).wf(),
            self.service_spec(req@, old(rsp).payload(), r, final(rsp).payload()),
    ;
}

/// The status error a server reports for a handler that panicked. The
/// engine that catches the panic puts this on the wire, so the failure
/// reaches the client instead of crashing the server.
pub fn panic_wire_error() -> (e: WireError)
    ensures
        e matches WireError::Status(m) && m@ == "rpc panicked in server!"@,
{
    WireError::Status("rpc panicked in server!".to_owned())
}

/// What serving a request yields for the handler outcome `ret` with `payload`
/// written into the response buffer: no response exactly when the outcome
/// oversteps the frame cap, otherwise the finished response frame for that
/// very outcome — a type-0 frame around the written payload on success, the
/// error's type byte and message bytes on failure.
pub open spec fn spec_response_of(
    id: u64,
    ret: Result<(), WireError>,
    payload: Seq<u8>,
    r: Option<Vec<u8>>,
) -> bool {
    match ret {
        Ok(_) => if payload.len() + 25 > FRAME_MAX_LEN {
            r is None
        } else {
            r matches Some(bytes) && bytes@ == spec_frame_bytes(id, spec_rsp_payload(0, payload))
        },
        Err(e) => if wire_inner(e).len() + 25 > FRAME_MAX_LEN {
            r is None
        } else {
            r matches Some(bytes) && bytes@ == spec_frame_bytes(
                id,
                spec_rsp_payload(wire_ty(e), wire_inner(e)),
            )
        },
    }
}

/// Build the response frame for one handler outcome, enforcing the frame
/// cap: nothing exactly when the return value or the error message cannot
/// fit one decodable frame, otherwise the finished frame for that outcome.
pub fn build_response(id: u64, ret: Result<(), WireError>, rsp: RspBuf) -> (r: Option<Vec<u8>>)
    requires
        rsp.wf(),
    ensures
        spec_response_of(id, ret, rsp.payload(), r),
        r is None <==> (match ret {
            Ok(_) => rsp.payload().len() + 25 > FRAME_MAX_LEN,
            Err(e) => wire_inner(e).len() + 25 > FRAME_MAX_LEN,
        }),
{
    let fits = match &ret {
        Ok(_) => rsp.payload_len() <= (FRAME_MAX_LEN as usize) - RSP_HEADER_LEN,
        Err(e) => match e {
            WireError::ServerDeserialize(s) => string_bytes(s).len() <= (FRAME_MAX_LEN as usize)
                - RSP_HEADER_LEN,
            WireError::ServerSerialize(s) => string_bytes(s).len() <= (FRAME_MAX_LEN as usize)
                - RSP_HEADER_LEN,
            WireError::Status(s) => string_bytes(s).len() <= (FRAME_MAX_LEN as usize)
                - RSP_HEADER_LEN,
            WireError::Polling => true,
        },
    };
    if !fits {
        return None;
    }
    Some(rsp.finish(id, ret))
}

/// Serve one decoded request frame: run the service on the request bytes
/// and build the response frame carrying the same id. The result is pinned
/// to the service's actual outcome, one that its own `service_spec` admits
/// for these request bytes: the finished frame of that outcome, or nothing
/// exactly when it oversteps the frame cap — the transport then has no
/// response to send for this request.
pub fn process_request<S: Server>(server: &S, frame: &Frame) -> (r: Option<Vec<u8>>)
    requires
        frame.wf(),
    ensures
        exists|ret: Result<(), WireError>, payload: Seq<u8>|
            {
                &&& #[trigger] server.service_spec(frame.payload(), Seq::empty(), ret, payload)
                &&& spec_response_of(frame.id, ret, payload, r)
            },
{
    let mut rsp = RspBuf::new();
    let ret = server.service(frame.decode_req(), &mut rsp);
    let ghost gret = ret;
    let ghost gpayload = rsp.payload();
    let r = build_response(frame.id, ret, rsp);
    proof {
        assert(server.service_spec(frame.payload(), Seq::empty(), gret, gpayload));
        assert(spec_response_of(frame.id, gret, gpayload, r));
    }
    r
}

} // verus!
