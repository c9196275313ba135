//! The wire frame protocol.
//!
//! Frame layout: `id (u64, big-endian)` + `len (u64, big-endian)` +
//! `payload ([u8; len])`. A response payload in turn holds
//! `ty (u8)` + `inner_len (u64, big-endian)` + `inner ([u8; inner_len])`.

use vstd::prelude::*;
use vstd::utf8::{encode_utf8, encode_utf8_valid_utf8, valid_utf8};

use crate::endian::{be64, be64_val, lemma_be64_val_of_be64, push_be64, read_be64, set_be64};
use crate::errors::{Error, WireError};
use crate::text::{string_bytes, string_from_utf8};

verus! {

/// Hard limit on a whole frame, header included.
pub const FRAME_MAX_LEN: u64 = 1024 * 1024;

/// Byte length of a response frame prefix: the 16-byte frame header plus
/// 1 byte of response type and 8 bytes of inner length.
pub const RSP_HEADER_LEN: usize = 25;

/// The complete wire bytes of a frame with the given id and payload.
pub open spec fn spec_frame_bytes(id: u64, payload: Seq<u8>) -> Seq<u8> {
    be64(id) + be64(payload.len() as u64) + payload
}

/// Why a buffer failed to decode as a frame.
#[derive(Debug, Clone, Copy, PartialEq, Eq, Structural)]
pub enum DecodeError {
    /// The buffer ended before the header or the declared payload was complete.
    UnexpectedEof,
    /// The header declared a frame larger than `FRAME_MAX_LEN`.
    InvalidInput,
}

/// What decoding a buffer as a frame yields: the frame's id and payload, or
/// the reason the buffer is not a frame. Oversize frames are rejected before
/// the payload is looked at, so a truncated oversize frame still fails with
/// `InvalidInput`.
pub open spec fn spec_decode_frame(bytes: Seq<u8>) -> Result<(u64, Seq<u8>), DecodeError> {
    if bytes.len() < 16 {
        Err(DecodeError::UnexpectedEof)
    } else {
        let id = be64_val(bytes.subrange(0, 8));
        let len = be64_val(bytes.subrange(8, 16));
        if len + 16 > FRAME_MAX_LEN {
            Err(DecodeError::InvalidInput)
        } else if bytes.len() < len + 16 {
            Err(DecodeError::UnexpectedEof)
        } else {
            Ok((id, bytes.subrange(16, len + 16)))
        }
    }
}

/// One atomic wire unit: the raw bytes of a frame, kept together with its id.
/// Requests and responses use the same layout; a request and its response
/// carry the same id.
#[derive(Debug)]
pub struct Frame {
    /// The correlation id linking a request to its response.
    pub id: u64,
    /// The raw frame bytes, the 16-byte header included.
    pub data: Vec<u8>,
}

impl Frame {
    /// The frame's payload: everything past the 16-byte header. A buffer too
    /// short to have a header carries nothing.
    pub open spec fn payload(&self) -> Seq<u8> {
        if self.data@.len() < 16 {
            Seq::empty()
        } else {
            self.data@.subrange(16, self.data@.len() as int)
        }
    }

    /// The raw bytes are a well-formed frame for `self.id`.
    pub open spec fn wf(&self) -> bool {
        &&& 16 <= self.data@.len() <= FRAME_MAX_LEN
        &&& self.data@.subrange(0, 8) == be64(self.id)
        &&& self.data@.subrange(8, 16) == be64((self.data@.len() - 16) as u64)
    }

    /// Build a frame from an id and a payload, re-encoding the header.
    pub fn from_parts(id: u64, payload: Vec<u8>) -> (f: Frame)
        requires
            payload@.len() + 16 <= FRAME_MAX_LEN,
        ensures
            f.wf(),
            f.id == id,
            f.payload() == payload@,
    {
        let mut payload = payload;
        let ghost payload0 = payload@;
        let mut data: Vec<u8> = Vec::new();
        push_be64(&mut data, id);
        push_be64(&mut data, payload.len() as u64);
        data.append(&mut payload);
        let f = Frame { id, data };
        proof {
            assert(f.data@.subrange(0, 8) =~= be64(id));
            assert(f.data@.subrange(8, 16) =~= be64((f.data@.len() - 16) as u64));
            assert(f.payload() =~= payload0);
        }
        f
    }

    /// Decode a frame from an in-memory buffer, enforcing the size limit.
    pub fn decode(buf: &[u8]) -> (r: Result<Frame, DecodeError>)
        ensures
            match spec_decode_frame(buf@) {
                Ok(p) => r matches Ok(f) && f.wf() && f.id == p.0 && f.payload() == p.1,
                Err(e) => r matches Err(e2) && e2 == e,
            },
    {
        if buf.len() < 16 {
            return Err(DecodeError::UnexpectedEof);
        }
        let id = read_be64(buf, 0);
        let len = read_be64(buf, 8);
        if len > FRAME_MAX_LEN - 16 {
            return Err(DecodeError::InvalidInput);
        }
        let len_us = len as usize;
        if buf.len() < len_us + 16 {
            return Err(DecodeError::UnexpectedEof);
        }
        let payload = vstd::slice::slice_to_vec(vstd::slice::slice_subrange(buf, 16, len_us + 16));
        Ok(Frame::from_parts(id, payload))
    }

    /// Parse a frame header alone: the id and the payload length it
    /// declares, or `InvalidInput` for one that declares a frame beyond the
    /// limit. A stream reader uses this after the first 16 bytes, then reads
    /// exactly that many payload bytes.
    pub fn decode_header(header: &[u8]) -> (r: Result<(u64, u64), DecodeError>)
        requires
            header@.len() == 16,
        ensures
            match r {
                Ok(p) => p.0 == be64_val(header@.subrange(0, 8)) && p.1 == be64_val(
                    header@.subrange(8, 16),
                ) && p.1 + 16 <= FRAME_MAX_LEN,
                Err(e) => e == DecodeError::InvalidInput && be64_val(header@.subrange(8, 16)) + 16
                    > FRAME_MAX_LEN,
            },
    {
        let id = read_be64(header, 0);
        let len = read_be64(header, 8);
        if len > FRAME_MAX_LEN - 16 {
            return Err(DecodeError::InvalidInput);
        }
        Ok((id, len))
    }

    /// The request bytes carried by this frame: the payload past the header.
    pub fn decode_req(&self) -> (r: &[u8])
        requires
            self.wf(),
        ensures
            r@ == self.payload(),
    {
        vstd::slice::slice_subrange(self.data.as_slice(), 16, self.data.len())
    }
}

/// A response payload: one type byte, the inner length big-endian, then the
/// inner bytes (the encoded return value, or a UTF-8 error message).
pub open spec fn spec_rsp_payload(ty: u8, inner: Seq<u8>) -> Seq<u8> {
    seq![ty] + be64(inner.len() as u64) + inner
}

/// The payload is long enough to hold the response sub-header and the inner
/// bytes its length field declares.
pub open spec fn rsp_well_formed(p: Seq<u8>) -> bool {
    p.len() >= 9 && be64_val(p.subrange(1, 9)) + 9 <= p.len()
}

/// The response type byte of the payload.
pub open spec fn rsp_ty(p: Seq<u8>) -> u8
    recommends
        p.len() >= 1,
{
    p[0]
}

/// The inner bytes the payload carries.
pub open spec fn rsp_inner(p: Seq<u8>) -> Seq<u8>
    recommends
        rsp_well_formed(p),
{
    p.subrange(9, 9 + be64_val(p.subrange(1, 9)))
}

/// The type byte that encodes a server-side error.
pub open spec fn wire_ty(e: WireError) -> u8 {
    match e {
        WireError::ServerDeserialize(_) => 1,
        WireError::ServerSerialize(_) => 2,
        WireError::Status(_) => 3,
        WireError::Polling => 200,
    }
}

/// The inner bytes that encode a server-side error: the UTF-8 message, or
/// nothing for the polling sentinel.
pub open spec fn wire_inner(e: WireError) -> Seq<u8> {
    match e {
        WireError::ServerDeserialize(s) => encode_utf8(s@),
        WireError::ServerSerialize(s) => encode_utf8(s@),
        WireError::Status(s) => encode_utf8(s@),
        WireError::Polling => Seq::empty(),
    }
}

impl Frame {
    /// Parse this frame's payload as a response. Exactly one of these holds:
    /// a payload too short for its own length field, an unknown type byte, or
    /// an error message that is not UTF-8 each give `ClientDeserialize`;
    /// type 0 gives the inner bytes; types 1, 2 and 3 give the matching
    /// server-reported error carrying the decoded message.
    pub fn decode_rsp(&self) -> (r: Result<&[u8], Error>)
        ensures
            ({
                let p = self.payload();
                match r {
                    Ok(d) => rsp_well_formed(p) && rsp_ty(p) == 0 && d@ == rsp_inner(p),
                    Err(e) => match e {
                        Error::ServerDeserialize(m) => rsp_well_formed(p) && rsp_ty(p) == 1
                            && encode_utf8(m@) == rsp_inner(p),
                        Error::ServerSerialize(m) => rsp_well_formed(p) && rsp_ty(p) == 2
                            && encode_utf8(m@) == rsp_inner(p),
                        Error::Status(m) => rsp_well_formed(p) && rsp_ty(p) == 3 && encode_utf8(
                            m@,
                        ) == rsp_inner(p),
                        Error::ClientDeserialize(m) => (!rsp_well_formed(p) && m@
                            == "invalid response frame"@) || (rsp_well_formed(p) && !(rsp_ty(p)
                            == 0 || rsp_ty(p) == 1 || rsp_ty(p) == 2 || rsp_ty(p) == 3) && m@
                            == "invalid response type"@) || (rsp_well_formed(p) && (rsp_ty(p) == 1
                            || rsp_ty(p) == 2 || rsp_ty(p) == 3) && !valid_utf8(rsp_inner(p)) && m@
                            == "invalid response message"@),
                        _ => false,
                    },
                }
            }),
    {
        let n = self.data.len();
        let ghost p = self.payload();
        if n < 25 {
            return Err(Error::ClientDeserialize("invalid response frame".to_owned()));
        }
        let ty = self.data[16];
        let inner_len = read_be64(self.data.as_slice(), 17);
        proof {
            assert(p.subrange(1, 9) =~= self.data@.subrange(17, 25));
            assert(rsp_ty(p) == ty);
        }
        if inner_len > (n - 25) as u64 {
            return Err(Error::ClientDeserialize("invalid response frame".to_owned()));
        }
        let il = inner_len as usize;
        let d = vstd::slice::slice_subrange(self.data.as_slice(), 25, 25 + il);
        proof {
            assert(d@ =~= rsp_inner(p));
        }
        if ty == 0 {
            Ok(d)
        } else if ty == 1 || ty == 2 || ty == 3 {
            let bytes = vstd::slice::slice_to_vec(d);
            match string_from_utf8(bytes) {
                Some(m) => {
                    if ty == 1 {
                        Err(Error::ServerDeserialize(m))
                    } else if ty == 2 {
                        Err(Error::ServerSerialize(m))
                    } else {
                        Err(Error::Status(m))
                    }
                },
                None => Err(Error::ClientDeserialize("invalid response message".to_owned())),
            }
        } else {
            Err(Error::ClientDeserialize("invalid response type".to_owned()))
        }
    }
}

/// Encoding then decoding a frame gives back the id and the payload.
pub proof fn lemma_frame_round_trip(id: u64, payload: Seq<u8>)
    requires
        payload.len() + 16 <= FRAME_MAX_LEN,
    ensures
        spec_decode_frame(spec_frame_bytes(id, payload)) == Ok::<(u64, Seq<u8>), DecodeError>(
            (id, payload),
        ),
{
    let bytes = spec_frame_bytes(id, payload);
    lemma_be64_val_of_be64(id);
    lemma_be64_val_of_be64(payload.len() as u64);
    assert(bytes.subrange(0, 8) =~= be64(id));
    assert(bytes.subrange(8, 16) =~= be64(payload.len() as u64));
    assert(bytes.subrange(16, payload.len() as int + 16) =~= payload);
}

/// A request frame buffer: 16 bytes reserved for the header, then the
/// serialized request. `finish` patches the header in place.
pub struct ReqBuf {
    data: Vec<u8>,
}

impl ReqBuf {
    /// The request bytes written so far, past the reserved header.
    pub closed spec fn payload(&self) -> Seq<u8> {
        self.data@.skip(16)
    }

    /// The header space is reserved.
    pub closed spec fn wf(&self) -> bool {
        self.data@.len() >= 16
    }

    /// Create a request buffer with the header space reserved.
    pub fn new() -> (r: ReqBuf)
        ensures
            r.wf(),
            r.payload() == Seq::<u8>::empty(),
    {
        let mut data: Vec<u8> = Vec::new();
        push_be64(&mut data, 0);
        push_be64(&mut data, 0);
        let r = ReqBuf { data };
        proof {
            assert(r.payload() =~= Seq::<u8>::empty());
        }
        r
    }

    /// Append serialized request bytes.
    pub fn write_all(&mut self, buf: &[u8])
        requires
            old(self).wf(),
        ensures
            final(self).wf(),
            final(self).payload() == old(self).payload() + buf@,
    {
        self.data.extend_from_slice(buf);
        proof {
            assert(final(self).payload() =~= old(self).payload() + buf@);
        }
    }

    /// The length of the frame this buffer would produce, header included.
    pub fn frame_len(&self) -> (n: usize)
        requires
            self.wf(),
        ensures
            n == self.payload().len() + 16,
    {
        self.data.len()
    }

    /// Patch the header with the id and the payload length and hand back the
    /// complete frame bytes.
    pub fn finish(self, id: u64) -> (r: Vec<u8>)
        requires
            self.wf(),
            self.payload().len() + 16 <= FRAME_MAX_LEN,
        ensures
            r@ == spec_frame_bytes(id, self.payload()),
    {
        let mut data = self.data;
        let ghost payload0 = data@.skip(16);
        let len = data.len() as u64;
        set_be64(&mut data, 0, id);
        set_be64(&mut data, 8, len - 16);
        proof {
            assert(data@ =~= spec_frame_bytes(id, payload0));
        }
        data
    }
}

impl Default for ReqBuf {
    /// Same as `ReqBuf::new`.
    fn default() -> (r: ReqBuf)
        ensures
            r.wf(),
            r.payload() == Seq::<u8>::empty(),
    {
        ReqBuf::new()
    }
}

/// A response frame buffer: 25 bytes reserved for the frame header and the
/// response sub-header, then the handler's serialized return value.
pub struct RspBuf {
    data: Vec<u8>,
}

impl RspBuf {
    /// The return-value bytes written so far, past the reserved headers.
    pub closed spec fn payload(&self) -> Seq<u8> {
        self.data@.skip(25)
    }

    /// The header space is reserved.
    pub closed spec fn wf(&self) -> bool {
        self.data@.len() >= 25
    }

    /// Create a response buffer with the header space reserved.
    pub fn new() -> (r: RspBuf)
        ensures
            r.wf(),
            r.payload() == Seq::<u8>::empty(),
    {
        let mut data: Vec<u8> = Vec::new();
        push_be64(&mut data, 0);
        push_be64(&mut data, 0);
        push_be64(&mut data, 0);
        data.push(0);
        let r = RspBuf { data };
        proof {
            assert(r.payload() =~= Seq::<u8>::empty());
        }
        r
    }

    /// Append serialized return-value bytes.
    pub fn write_all(&mut self, buf: &[u8])
        requires
            old(self).wf(),
        ensures
            final(self).wf(),
            final(self).payload() == old(self).payload() + buf@,
    {
        self.data.extend_from_slice(buf);
        proof {
            assert(final(self).payload() =~= old(self).payload() + buf@);
        }
    }

    /// How many return-value bytes have been written.
    pub fn payload_len(&self) -> (n: usize)
        requires
            self.wf(),
        ensures
            n == self.payload().len(),
    {
        self.data.len() - 25
    }

    /// Build the complete response frame for `id`. On success the inner bytes
    /// are the handler's serialized return value, already in place; on an
    /// error they are replaced by the error's UTF-8 message, or by nothing
    /// for the polling sentinel. The outer length is the inner length plus 9.
    pub fn finish(self, id: u64, ret: Result<(), WireError>) -> (r: Vec<u8>)
        requires
            self.wf(),
            match ret {
                Ok(_) => self.payload().len() < FRAME_MAX_LEN,
                Err(e) => wire_inner(e).len() < FRAME_MAX_LEN,
            },
        ensures
            r@ == match ret {
                Ok(_) => spec_frame_bytes(id, spec_rsp_payload(0, self.payload())),
                Err(e) => spec_frame_bytes(id, spec_rsp_payload(wire_ty(e), wire_inner(e))),
            },
    {
        let mut data = self.data;
        let ty: u8;
        match &ret {
            Ok(_) => {
                ty = 0;
            },
            Err(e) => {
                data.truncate(25);
                match e {
                    WireError::ServerDeserialize(s) => {
                        ty = 1;
                        let mut msg = string_bytes(s);
                        data.append(&mut msg);
                    },
                    WireError::ServerSerialize(s) => {
                        ty = 2;
                        let mut msg = string_bytes(s);
                        data.append(&mut msg);
                    },
                    WireError::Status(s) => {
                        ty = 3;
                        let mut msg = string_bytes(s);
                        data.append(&mut msg);
                    },
                    WireError::Polling => {
                        ty = 200;
                    },
                }
            },
        }
        let ghost inner = data@.skip(25);
        let inner_len = (data.len() - 25) as u64;
        set_be64(&mut data, 0, id);
        set_be64(&mut data, 8, inner_len + 9);
        data.set(16, ty);
        set_be64(&mut data, 17, inner_len);
        proof {
            assert(data@ =~= spec_frame_bytes(id, spec_rsp_payload(ty, inner)));
        }
        data
    }
}

impl Default for RspBuf {
    /// Same as `RspBuf::new`.
    fn default() -> (r: RspBuf)
        ensures
            r.wf(),
            r.payload() == Seq::<u8>::empty(),
    {
        RspBuf::new()
    }
}

/// Reading a response payload back gives the type and inner bytes it was
/// built from.
pub proof fn lemma_rsp_payload_round_trip(ty: u8, inner: Seq<u8>)
    requires
        inner.len() < FRAME_MAX_LEN,
    ensures
        ({
            let p = spec_rsp_payload(ty, inner);
            rsp_well_formed(p) && rsp_ty(p) == ty && rsp_inner(p) == inner
        }),
{
    let p = spec_rsp_payload(ty, inner);
    lemma_be64_val_of_be64(inner.len() as u64);
    assert(p.subrange(1, 9) =~= be64(inner.len() as u64));
    assert(p.subrange(9, 9 + inner.len() as int) =~= inner);
}

/// The inner bytes of an error response are valid UTF-8, so the client-side
/// decoder always recovers the very message the server put in.
pub proof fn lemma_wire_inner_valid_utf8(e: WireError)
    ensures
        valid_utf8(wire_inner(e)),
{
    match e {
        WireError::ServerDeserialize(s) => encode_utf8_valid_utf8(s@),
        WireError::ServerSerialize(s) => encode_utf8_valid_utf8(s@),
        WireError::Status(s) => encode_utf8_valid_utf8(s@),
        WireError::Polling => {
            assert(valid_utf8(Seq::<u8>::empty()));
        },
    }
}

/// A response frame built for a server-side error survives the wire intact:
/// it decodes as a frame with the same id, and its payload reads back as the
/// error's type byte and exactly the message bytes the server put in, which
/// are valid UTF-8. With the contract of `Frame::decode_rsp` this pins the
/// client-visible error down to the server's own message; in particular a
/// caught handler panic reaches the client as the status it was reported as.
pub proof fn lemma_error_response_round_trip(id: u64, e: WireError)
    requires
        wire_inner(e).len() + 25 <= FRAME_MAX_LEN,
    ensures
        ({
            let body = spec_rsp_payload(wire_ty(e), wire_inner(e));
            let bytes = spec_frame_bytes(id, body);
            &&& spec_decode_frame(bytes) == Ok::<(u64, Seq<u8>), DecodeError>((id, body))
            &&& rsp_well_formed(body)
            &&& rsp_ty(body) == wire_ty(e)
            &&& rsp_inner(body) == wire_inner(e)
            &&& valid_utf8(wire_inner(e))
        }),
{
    let body = spec_rsp_payload(wire_ty(e), wire_inner(e));
    lemma_rsp_payload_round_trip(wire_ty(e), wire_inner(e));
    lemma_frame_round_trip(id, body);
    lemma_wire_inner_valid_utf8(e);
}

/// A header that declares a payload beyond the frame limit never decodes:
/// the peer is not trusted to respect the limit.
pub proof fn lemma_oversize_rejected(bytes: Seq<u8>)
    requires
        bytes.len() >= 16,
        be64_val(bytes.subrange(8, 16)) + 16 > FRAME_MAX_LEN,
    ensures
        spec_decode_frame(bytes) == Err::<(u64, Seq<u8>), DecodeError>(DecodeError::InvalidInput),
{
}

} // verus!
