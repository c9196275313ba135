use may_rpc::{DecodeError, Error, Frame, ReqBuf, RspBuf, WireError, FRAME_MAX_LEN};

#[test]
fn request_frame_round_trip() {
    let mut req = ReqBuf::new();
    req.write_all(b"hello world");
    let bytes = req.finish(7);
    assert_eq!(bytes.len(), 16 + 11);
    let frame = Frame::decode(&bytes).unwrap();
    assert_eq!(frame.id, 7);
    assert_eq!(frame.decode_req(), b"hello world");
}

#[test]
fn empty_request_frame() {
    let req = ReqBuf::new();
    let bytes = req.finish(0);
    assert_eq!(bytes.len(), 16);
    let frame = Frame::decode(&bytes).unwrap();
    assert_eq!(frame.id, 0);
    assert_eq!(frame.decode_req(), b"");
}

#[test]
fn header_is_big_endian() {
    let mut req = ReqBuf::new();
    req.write_all(&[0xaa]);
    let bytes = req.finish(0x0102030405060708);
    assert_eq!(&bytes[0..8], &[1, 2, 3, 4, 5, 6, 7, 8]);
    assert_eq!(&bytes[8..16], &[0, 0, 0, 0, 0, 0, 0, 1]);
    assert_eq!(bytes[16], 0xaa);
}

#[test]
fn oversize_frame_rejected() {
    // A raw header declaring a 2 MiB payload must fail decode, with or
    // without the payload behind it.
    let mut bytes = Vec::new();
    bytes.extend_from_slice(&1u64.to_be_bytes());
    bytes.extend_from_slice(&(2u64 * 1024 * 1024).to_be_bytes());
    assert_eq!(Frame::decode(&bytes).unwrap_err(), DecodeError::InvalidInput);
    bytes.resize(16 + 2 * 1024 * 1024, 0);
    assert_eq!(Frame::decode(&bytes).unwrap_err(), DecodeError::InvalidInput);
}

#[test]
fn frame_len_boundary() {
    let max_payload = (FRAME_MAX_LEN as usize) - 16;
    let mut req = ReqBuf::new();
    req.write_all(&vec![0u8; max_payload]);
    let bytes = req.finish(1);
    let frame = Frame::decode(&bytes).unwrap();
    assert_eq!(frame.decode_req().len(), max_payload);

    let mut bytes = Vec::new();
    bytes.extend_from_slice(&1u64.to_be_bytes());
    bytes.extend_from_slice(&((max_payload as u64) + 1).to_be_bytes());
    bytes.resize(16 + max_payload + 1, 0);
    assert_eq!(Frame::decode(&bytes).unwrap_err(), DecodeError::InvalidInput);
}

#[test]
fn header_alone_carries_id_and_length() {
    let mut header = Vec::new();
    header.extend_from_slice(&77u64.to_be_bytes());
    header.extend_from_slice(&500u64.to_be_bytes());
    assert_eq!(Frame::decode_header(&header).unwrap(), (77, 500));

    let mut header = Vec::new();
    header.extend_from_slice(&77u64.to_be_bytes());
    header.extend_from_slice(&(2u64 * 1024 * 1024).to_be_bytes());
    assert_eq!(Frame::decode_header(&header).unwrap_err(), DecodeError::InvalidInput);
}

#[test]
fn truncated_frame_is_eof() {
    assert_eq!(Frame::decode(&[0u8; 10]).unwrap_err(), DecodeError::UnexpectedEof);
    let mut bytes = Vec::new();
    bytes.extend_from_slice(&1u64.to_be_bytes());
    bytes.extend_from_slice(&100u64.to_be_bytes());
    bytes.extend_from_slice(&[0u8; 50]);
    assert_eq!(Frame::decode(&bytes).unwrap_err(), DecodeError::UnexpectedEof);
}

#[test]
fn response_ok_round_trip() {
    let mut rsp = RspBuf::new();
    rsp.write_all(b"return value");
    let bytes = rsp.finish(42, Ok(()));
    let frame = Frame::decode(&bytes).unwrap();
    assert_eq!(frame.id, 42);
    assert_eq!(frame.decode_rsp().unwrap(), b"return value");
}

#[test]
fn response_outer_len_is_inner_plus_nine() {
    let mut rsp = RspBuf::new();
    rsp.write_all(b"abcd");
    let bytes = rsp.finish(1, Ok(()));
    // outer length field: 4 inner bytes + 1 type byte + 8 length bytes
    assert_eq!(&bytes[8..16], &(4u64 + 9).to_be_bytes());
    assert_eq!(bytes[16], 0);
    assert_eq!(&bytes[17..25], &4u64.to_be_bytes());
}

#[test]
fn response_server_deserialize_round_trip() {
    let rsp = RspBuf::new();
    let bytes = rsp.finish(9, Err(WireError::ServerDeserialize("bad request".to_string())));
    let frame = Frame::decode(&bytes).unwrap();
    match frame.decode_rsp() {
        Err(Error::ServerDeserialize(m)) => assert_eq!(m, "bad request"),
        other => panic!("unexpected: {:?}", other),
    }
}

#[test]
fn response_server_serialize_round_trip() {
    let rsp = RspBuf::new();
    let bytes = rsp.finish(9, Err(WireError::ServerSerialize("bad value".to_string())));
    let frame = Frame::decode(&bytes).unwrap();
    match frame.decode_rsp() {
        Err(Error::ServerSerialize(m)) => assert_eq!(m, "bad value"),
        other => panic!("unexpected: {:?}", other),
    }
}

#[test]
fn response_status_round_trip() {
    let mut rsp = RspBuf::new();
    // whatever the handler wrote before failing is discarded
    rsp.write_all(b"partial");
    let bytes = rsp.finish(9, Err(WireError::Status("handler failed".to_string())));
    let frame = Frame::decode(&bytes).unwrap();
    match frame.decode_rsp() {
        Err(Error::Status(m)) => assert_eq!(m, "handler failed"),
        other => panic!("unexpected: {:?}", other),
    }
}

#[test]
fn response_polling_is_not_a_real_response() {
    let rsp = RspBuf::new();
    let bytes = rsp.finish(9, Err(WireError::Polling));
    // the sentinel encodes as type 200 with an empty body
    assert_eq!(bytes.len(), 25);
    assert_eq!(bytes[16], 200);
    let frame = Frame::decode(&bytes).unwrap();
    match frame.decode_rsp() {
        Err(Error::ClientDeserialize(m)) => assert_eq!(m, "invalid response type"),
        other => panic!("unexpected: {:?}", other),
    }
}

#[test]
fn response_unknown_type_rejected() {
    let mut payload = vec![77u8];
    payload.extend_from_slice(&0u64.to_be_bytes());
    let frame = Frame::from_parts(5, payload);
    match frame.decode_rsp() {
        Err(Error::ClientDeserialize(m)) => assert_eq!(m, "invalid response type"),
        other => panic!("unexpected: {:?}", other),
    }
}

#[test]
fn response_invalid_utf8_message_rejected() {
    let mut payload = vec![1u8];
    payload.extend_from_slice(&1u64.to_be_bytes());
    payload.push(0xff);
    let frame = Frame::from_parts(5, payload);
    match frame.decode_rsp() {
        Err(Error::ClientDeserialize(m)) => assert_eq!(m, "invalid response message"),
        other => panic!("unexpected: {:?}", other),
    }
}

#[test]
fn response_truncated_payload_rejected() {
    // declared inner length reaches past the payload's end
    let mut payload = vec![0u8];
    payload.extend_from_slice(&100u64.to_be_bytes());
    payload.extend_from_slice(&[0u8; 10]);
    let frame = Frame::from_parts(5, payload);
    match frame.decode_rsp() {
        Err(Error::ClientDeserialize(m)) => assert_eq!(m, "invalid response frame"),
        other => panic!("unexpected: {:?}", other),
    }

    let frame = Frame::from_parts(5, vec![0u8; 3]);
    match frame.decode_rsp() {
        Err(Error::ClientDeserialize(m)) => assert_eq!(m, "invalid response frame"),
        other => panic!("unexpected: {:?}", other),
    }
}
