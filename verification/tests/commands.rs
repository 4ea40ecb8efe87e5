use fido2_ctaphid::fido2_commands::{
    FIDO2Capabilities, FIDO2ErrorCode, FIDO2KeepAliveCode, FIDO2PacketCommandCancelRequest,
    FIDO2PacketCommandCborRequest, FIDO2PacketCommandCborResponse,
    FIDO2PacketCommandErrorResponse, FIDO2PacketCommandInitRequest,
    FIDO2PacketCommandInitResponse, FIDO2PacketCommandKeepAliveResponse,
    FIDO2PacketCommandLockRequest, FIDO2PacketCommandLockResponse, FIDO2PacketCommandMsgRequest,
    FIDO2PacketCommandMsgResponse, FIDO2PacketCommandPingRequest, FIDO2PacketCommandPingResponse,
    FIDO2PacketCommandRequest, FIDO2PacketCommandResponse, FIDO2PacketCommandWinkRequest,
    FIDO2PacketCommandWinkResponse, FIDO2_CAPABILITIES,
};
use fido2_ctaphid::fido2_internal_error::FIDO2InternalError;
use fido2_ctaphid::fido2_parser::FIDO2PacketCommand;

#[test]
fn ping_request_is_its_payload() {
    let request = FIDO2PacketCommandPingRequest::unpack(b"hello").unwrap();
    assert_eq!(request.data, b"hello");
    let request = FIDO2PacketCommandPingRequest::unpack(&[]).unwrap();
    assert_eq!(request.data, &[] as &[u8]);
}

#[test]
fn ping_response_echoes() {
    let request = FIDO2PacketCommandPingRequest::unpack(b"hello").unwrap();
    let response = FIDO2PacketCommandPingResponse::new(request.data);
    assert_eq!(response.pack(), b"hello");
    let mut out = [0xeeu8; 8];
    assert_eq!(response.apply(&mut out), Some(5));
    assert_eq!(&out, b"hello\xee\xee\xee");
}

#[test]
fn ping_response_needs_room() {
    let response = FIDO2PacketCommandPingResponse::new(b"hello");
    let mut out = [0xeeu8; 4];
    assert_eq!(response.apply(&mut out), None);
    assert_eq!(out, [0xeeu8; 4]);
    let mut out = [0xeeu8; 5];
    assert_eq!(response.apply(&mut out), Some(5));
    assert_eq!(&out, b"hello");
}

#[test]
fn cancel_and_wink_requests_always_read() {
    assert!(FIDO2PacketCommandCancelRequest::unpack().is_ok());
    assert!(FIDO2PacketCommandWinkRequest::unpack().is_ok());
}

#[test]
fn error_codes_are_the_protocol_values() {
    for (code, byte) in [
        (FIDO2ErrorCode::ErrInvalidCmd, 0x01u8),
        (FIDO2ErrorCode::ErrInvalidPar, 0x02),
        (FIDO2ErrorCode::ErrInvalidLen, 0x03),
        (FIDO2ErrorCode::ErrInvalidSeq, 0x04),
        (FIDO2ErrorCode::ErrMsgTimeout, 0x05),
        (FIDO2ErrorCode::ErrChannelBusy, 0x06),
        (FIDO2ErrorCode::ErrLockRequired, 0x0A),
        (FIDO2ErrorCode::ErrInvalidChannel, 0x0B),
        (FIDO2ErrorCode::ErrOther, 0x7F),
    ] {
        assert_eq!(code.to_primitive(), byte);
        assert_eq!(FIDO2ErrorCode::try_from_primitive(byte), Some(code));
    }
    assert_eq!(FIDO2ErrorCode::try_from_primitive(0), None);
    assert_eq!(FIDO2ErrorCode::try_from_primitive(0x07), None);
    assert_eq!(FIDO2ErrorCode::try_from_primitive(0x80), None);
}

#[test]
fn internal_errors_map_to_error_codes() {
    assert_eq!(
        FIDO2ErrorCode::from_internal(FIDO2InternalError::CommandNotFoundError),
        FIDO2ErrorCode::ErrInvalidCmd
    );
    assert_eq!(
        FIDO2ErrorCode::from_internal(FIDO2InternalError::DataLengthError),
        FIDO2ErrorCode::ErrInvalidLen
    );
    assert_eq!(
        FIDO2ErrorCode::from_internal(FIDO2InternalError::ReversedChannelError),
        FIDO2ErrorCode::ErrInvalidChannel
    );
    assert_eq!(
        FIDO2ErrorCode::from_internal(FIDO2InternalError::UnknownChannelError),
        FIDO2ErrorCode::ErrInvalidChannel
    );
    assert_eq!(
        FIDO2ErrorCode::from_internal(FIDO2InternalError::BufferTooSmallError),
        FIDO2ErrorCode::ErrOther
    );
}

#[test]
fn error_response_is_its_code_at_index_zero() {
    let response = FIDO2PacketCommandErrorResponse::new(FIDO2ErrorCode::ErrInvalidChannel);
    assert_eq!(response.pack(), [0x0B]);
    let mut out = [0xeeu8; 3];
    assert_eq!(response.apply(&mut out), Some(1));
    assert_eq!(out, [0x0B, 0xee, 0xee]);
    let mut none: [u8; 0] = [];
    assert_eq!(response.apply(&mut none), None);
}

#[test]
fn keepalive_codes_are_the_protocol_values() {
    assert_eq!(FIDO2KeepAliveCode::StatusProcessing.to_primitive(), 1);
    assert_eq!(FIDO2KeepAliveCode::StatusUpNeeded.to_primitive(), 2);
    assert_eq!(
        FIDO2KeepAliveCode::try_from_primitive(1),
        Some(FIDO2KeepAliveCode::StatusProcessing)
    );
    assert_eq!(
        FIDO2KeepAliveCode::try_from_primitive(2),
        Some(FIDO2KeepAliveCode::StatusUpNeeded)
    );
    assert_eq!(FIDO2KeepAliveCode::try_from_primitive(0), None);
    assert_eq!(FIDO2KeepAliveCode::try_from_primitive(3), None);
}

#[test]
fn keepalive_response_is_its_code_at_index_zero() {
    let response = FIDO2PacketCommandKeepAliveResponse::new(FIDO2KeepAliveCode::StatusUpNeeded);
    assert_eq!(response.pack(), [2]);
    let mut out = [0xeeu8; 2];
    assert_eq!(response.apply(&mut out), Some(1));
    assert_eq!(out, [2, 0xee]);
    let response = FIDO2PacketCommandKeepAliveResponse::new(FIDO2KeepAliveCode::StatusProcessing);
    assert_eq!(response.pack(), [1]);
}

#[test]
fn init_request_is_eight_bytes_of_nonce() {
    let request = FIDO2PacketCommandInitRequest::unpack(&[1, 2, 3, 4, 5, 6, 7, 8]).unwrap();
    assert_eq!(request.random, [1, 2, 3, 4, 5, 6, 7, 8]);
    let request = FIDO2PacketCommandInitRequest::unpack(&[1, 2, 3, 4, 5, 6, 7, 8, 9, 10]).unwrap();
    assert_eq!(request.random, [1, 2, 3, 4, 5, 6, 7, 8]);
}

#[test]
fn init_request_shorter_than_its_nonce_is_rejected() {
    assert_eq!(
        FIDO2PacketCommandInitRequest::unpack(&[1, 2, 3, 4, 5, 6, 7]).err(),
        Some(FIDO2InternalError::DataLengthError)
    );
    assert_eq!(
        FIDO2PacketCommandInitRequest::unpack(&[]).err(),
        Some(FIDO2InternalError::DataLengthError)
    );
}

#[test]
fn capabilities_are_the_protocol_values() {
    assert_eq!(FIDO2Capabilities::CapabilityWink.to_primitive(), 0x01);
    assert_eq!(FIDO2Capabilities::CapabilityCbor.to_primitive(), 0x04);
    assert_eq!(FIDO2Capabilities::CapabilityNmsg.to_primitive(), 0x08);
    assert_eq!(
        FIDO2Capabilities::try_from_primitive(0x01),
        Some(FIDO2Capabilities::CapabilityWink)
    );
    assert_eq!(
        FIDO2Capabilities::try_from_primitive(0x04),
        Some(FIDO2Capabilities::CapabilityCbor)
    );
    assert_eq!(
        FIDO2Capabilities::try_from_primitive(0x08),
        Some(FIDO2Capabilities::CapabilityNmsg)
    );
    assert_eq!(FIDO2Capabilities::try_from_primitive(0x02), None);
    assert_eq!(FIDO2Capabilities::try_from_primitive(0x09), None);
    assert_eq!(FIDO2_CAPABILITIES, 0x09);
}

#[test]
fn init_response_reports_the_device() {
    let response =
        FIDO2PacketCommandInitResponse::new([1, 2, 3, 4, 5, 6, 7, 8], [0x00, 0xc0, 0xff, 0xee]);
    assert_eq!(response.random, [1, 2, 3, 4, 5, 6, 7, 8]);
    assert_eq!(response.channel_id, [0x00, 0xc0, 0xff, 0xee]);
    assert_eq!(response.protocol_version, 2);
    assert_eq!(response.major_version, 1);
    assert_eq!(response.minor_version, 0);
    assert_eq!(response.build_version, 1);
    assert_eq!(response.capabilities_flag, 0x09);
}

#[test]
fn init_response_is_seventeen_bytes() {
    let response =
        FIDO2PacketCommandInitResponse::new([1, 2, 3, 4, 5, 6, 7, 8], [0x00, 0xc0, 0xff, 0xee]);
    let expected = [1, 2, 3, 4, 5, 6, 7, 8, 0x00, 0xc0, 0xff, 0xee, 2, 1, 0, 1, 0x09];
    assert_eq!(response.pack(), expected);
    let mut out = [0xeeu8; 20];
    assert_eq!(response.apply(&mut out), Some(17));
    assert_eq!(&out[..17], &expected);
    assert_eq!(&out[17..], &[0xee, 0xee, 0xee]);
}

#[test]
fn init_response_needs_seventeen_bytes_of_room() {
    let response = FIDO2PacketCommandInitResponse::new([9; 8], [1, 2, 3, 4]);
    let mut out = [0xeeu8; 16];
    assert_eq!(response.apply(&mut out), None);
    assert_eq!(out, [0xeeu8; 16]);
    let mut out = [0xeeu8; 17];
    assert_eq!(response.apply(&mut out), Some(17));
}

#[test]
fn wink_and_lock_responses_are_empty() {
    let mut out = [0xeeu8; 2];
    assert_eq!(FIDO2PacketCommandWinkResponse::new().apply(&mut out), Some(0));
    assert_eq!(out, [0xee, 0xee]);
    assert_eq!(FIDO2PacketCommandLockResponse::new().apply(&mut out), Some(0));
    assert_eq!(out, [0xee, 0xee]);
    let mut none: [u8; 0] = [];
    assert_eq!(FIDO2PacketCommandWinkResponse::new().apply(&mut none), Some(0));
    assert_eq!(FIDO2PacketCommandLockResponse::new().apply(&mut none), Some(0));
}

#[test]
fn lock_request_is_its_lock_time() {
    let request = FIDO2PacketCommandLockRequest::unpack(&[10]).unwrap();
    assert_eq!(request.lock_time(), 10);
    let request = FIDO2PacketCommandLockRequest::unpack(&[0, 7]).unwrap();
    assert_eq!(request.lock_time(), 0);
    assert_eq!(
        FIDO2PacketCommandLockRequest::unpack(&[]).err(),
        Some(FIDO2InternalError::DataLengthError)
    );
}

#[test]
fn msg_request_is_command_and_data() {
    let request = FIDO2PacketCommandMsgRequest::unpack(&[0x03, 0xAA, 0xBB]).unwrap();
    assert_eq!(request.command, 0x03);
    assert_eq!(request.data, &[0xAA, 0xBB]);
    let request = FIDO2PacketCommandMsgRequest::unpack(&[0x01]).unwrap();
    assert_eq!(request.command, 0x01);
    assert_eq!(request.data, &[] as &[u8]);
    assert_eq!(
        FIDO2PacketCommandMsgRequest::unpack(&[]).err(),
        Some(FIDO2InternalError::DataLengthError)
    );
}

#[test]
fn msg_response_is_status_and_data() {
    let request = FIDO2PacketCommandMsgRequest::unpack(&[0x03, 0xAA, 0xBB]).unwrap();
    for status in [0u8, 1, 0x6a, 0xff] {
        let response = FIDO2PacketCommandMsgResponse::new(status, request.data);
        let mut out = [0xeeu8; 4];
        assert_eq!(response.apply(&mut out), Some(3));
        assert_eq!(out, [status, 0xAA, 0xBB, 0xee]);
    }
}

#[test]
fn msg_response_needs_room() {
    let response = FIDO2PacketCommandMsgResponse::new(9, &[1, 2, 3]);
    let mut out = [0xeeu8; 3];
    assert_eq!(response.apply(&mut out), None);
    assert_eq!(out, [0xee, 0xee, 0xee]);
    let mut out = [0xeeu8; 4];
    assert_eq!(response.apply(&mut out), Some(4));
    assert_eq!(out, [9, 1, 2, 3]);
}

#[test]
fn cbor_request_is_command_and_data() {
    let request = FIDO2PacketCommandCborRequest::unpack(&[0x04, 0xA1, 0x01, 0x02]).unwrap();
    assert_eq!(request.command, 0x04);
    assert_eq!(request.data, &[0xA1, 0x01, 0x02]);
    assert_eq!(
        FIDO2PacketCommandCborRequest::unpack(&[]).err(),
        Some(FIDO2InternalError::DataLengthError)
    );
}

#[test]
fn cbor_response_is_status_and_data() {
    let response = FIDO2PacketCommandCborResponse::new(0, &[0xA1, 0x01, 0x02]);
    let mut out = [0xeeu8; 5];
    assert_eq!(response.apply(&mut out), Some(4));
    assert_eq!(out, [0, 0xA1, 0x01, 0x02, 0xee]);
    let mut out = [0xeeu8; 3];
    assert_eq!(response.apply(&mut out), None);
    assert_eq!(out, [0xee, 0xee, 0xee]);
}

#[test]
fn longest_response_fits_the_longest_buffer() {
    let data = vec![7u8; 7608];
    let response = FIDO2PacketCommandCborResponse::new(1, &data);
    let mut out = vec![0u8; 7609];
    assert_eq!(response.apply(&mut out), Some(7609));
    assert_eq!(out[0], 1);
    assert_eq!(&out[1..], &data[..]);
}

#[test]
fn response_longer_than_a_message_is_not_written() {
    let data = vec![7u8; 7609];
    let response = FIDO2PacketCommandCborResponse::new(1, &data);
    let mut out = vec![0u8; 8000];
    assert_eq!(response.apply(&mut out), None);
    assert_eq!(out, vec![0u8; 8000]);
    let data = vec![7u8; 7610];
    let response = FIDO2PacketCommandPingResponse::new(&data);
    assert_eq!(response.apply(&mut out), None);
    assert_eq!(out, vec![0u8; 8000]);
}

#[test]
fn requests_are_read_by_command() {
    let payload = [1u8, 2, 3, 4, 5, 6, 7, 8, 9];
    match FIDO2PacketCommandRequest::unpack(FIDO2PacketCommand::CtapHIDPing, &payload) {
        Ok(FIDO2PacketCommandRequest::Ping(r)) => assert_eq!(r.data, &payload),
        other => panic!("{:?}", other),
    }
    match FIDO2PacketCommandRequest::unpack(FIDO2PacketCommand::CtapHIDInit, &payload) {
        Ok(FIDO2PacketCommandRequest::Init(r)) => assert_eq!(r.random, [1, 2, 3, 4, 5, 6, 7, 8]),
        other => panic!("{:?}", other),
    }
    match FIDO2PacketCommandRequest::unpack(FIDO2PacketCommand::CtapHIDLock, &payload) {
        Ok(FIDO2PacketCommandRequest::Lock(r)) => assert_eq!(r.lock_time(), 1),
        other => panic!("{:?}", other),
    }
    match FIDO2PacketCommandRequest::unpack(FIDO2PacketCommand::CtapHIDMsg, &payload) {
        Ok(FIDO2PacketCommandRequest::Msg(r)) => {
            assert_eq!(r.command, 1);
            assert_eq!(r.data, &payload[1..]);
        }
        other => panic!("{:?}", other),
    }
    match FIDO2PacketCommandRequest::unpack(FIDO2PacketCommand::CtapHIDCbor, &payload) {
        Ok(FIDO2PacketCommandRequest::Cbor(r)) => {
            assert_eq!(r.command, 1);
            assert_eq!(r.data, &payload[1..]);
        }
        other => panic!("{:?}", other),
    }
    assert!(matches!(
        FIDO2PacketCommandRequest::unpack(FIDO2PacketCommand::CtapHIDWink, &payload),
        Ok(FIDO2PacketCommandRequest::Wink(_))
    ));
    assert!(matches!(
        FIDO2PacketCommandRequest::unpack(FIDO2PacketCommand::CtapHIDCancel, &payload),
        Ok(FIDO2PacketCommandRequest::Cancel(_))
    ));
}

#[test]
fn requests_that_do_not_read() {
    for command in [FIDO2PacketCommand::CtapHIDError, FIDO2PacketCommand::CtapHIDKeepalive] {
        assert_eq!(
            FIDO2PacketCommandRequest::unpack(command, &[1]).err(),
            Some(FIDO2InternalError::CommandNotFoundError)
        );
    }
    for command in [
        FIDO2PacketCommand::CtapHIDLock,
        FIDO2PacketCommand::CtapHIDMsg,
        FIDO2PacketCommand::CtapHIDCbor,
        FIDO2PacketCommand::CtapHIDInit,
    ] {
        assert_eq!(
            FIDO2PacketCommandRequest::unpack(command, &[]).err(),
            Some(FIDO2InternalError::DataLengthError)
        );
    }
    assert_eq!(
        FIDO2PacketCommandRequest::unpack(FIDO2PacketCommand::CtapHIDInit, &[0; 7]).err(),
        Some(FIDO2InternalError::DataLengthError)
    );
    assert!(FIDO2PacketCommandRequest::unpack(FIDO2PacketCommand::CtapHIDPing, &[]).is_ok());
}
