use fido2_ctaphid::consts::FIDO2_MAX_DATA_LENGTH;
use fido2_ctaphid::fido2_commands::{
    FIDO2ErrorCode, FIDO2PacketCommandCborResponse, FIDO2PacketCommandErrorResponse,
    FIDO2PacketCommandInitResponse, FIDO2PacketCommandPingResponse,
    FIDO2PacketCommandWinkResponse,
};
use fido2_ctaphid::fido2_internal_error::FIDO2InternalError;
use fido2_ctaphid::global_buffer::GlobalBuffer;

#[test]
fn protocol_limits() {
    assert_eq!(FIDO2_MAX_DATA_LENGTH, 7609);
    assert_eq!(FIDO2_MAX_DATA_LENGTH, 57 + 128 * 59);
}

#[test]
fn new_buffers_hold_nothing() {
    let buffer = GlobalBuffer::new();
    assert_eq!(buffer.request_buffer, [0u8; 7609]);
    assert_eq!(buffer.response_buffer, [0u8; 7609]);
    assert_eq!(buffer.request_buffer_data_len, 0);
    assert_eq!(buffer.response_buffer_data_len, 0);
    assert!(!buffer.request_buffer_done);
    assert!(!buffer.response_buffer_done);
    assert!(buffer.get_request_pending());
    assert!(buffer.get_response_pending());
}

#[test]
fn request_done_sets_length_and_flag() {
    let mut buffer = GlobalBuffer::new();
    buffer.set_request_done(300);
    assert_eq!(buffer.request_buffer_data_len, 300);
    assert!(buffer.request_buffer_done);
    assert!(!buffer.get_request_pending());
    assert!(buffer.get_response_pending());
    assert_eq!(buffer.response_buffer_data_len, 0);
}

#[test]
fn response_done_sets_length_and_flag() {
    let mut buffer = GlobalBuffer::new();
    buffer.set_response_done(17);
    assert_eq!(buffer.response_buffer_data_len, 17);
    assert!(buffer.response_buffer_done);
    assert!(!buffer.get_response_pending());
    assert!(buffer.get_request_pending());
    assert_eq!(buffer.request_buffer_data_len, 0);
}

#[test]
fn response_is_written_to_the_response_buffer() {
    let mut buffer = GlobalBuffer::new();
    buffer.request_buffer[0] = 0x55;
    buffer.response_buffer[17] = 0x66;
    let response = FIDO2PacketCommandInitResponse::new([1, 2, 3, 4, 5, 6, 7, 8], [9, 10, 11, 12]);
    assert_eq!(buffer.apply_response_from(response), Ok(17));
    assert_eq!(
        &buffer.response_buffer[..18],
        &[1, 2, 3, 4, 5, 6, 7, 8, 9, 10, 11, 12, 2, 1, 0, 1, 0x09, 0x66]
    );
    assert_eq!(&buffer.response_buffer[18..], &[0u8; 7591]);
    assert_eq!(buffer.response_buffer_data_len, 17);
    assert!(buffer.response_buffer_done);
    assert_eq!(buffer.request_buffer[0], 0x55);
    assert_eq!(buffer.request_buffer_data_len, 0);
    assert!(!buffer.request_buffer_done);
}

#[test]
fn empty_and_error_responses_are_written() {
    let mut buffer = GlobalBuffer::new();
    assert_eq!(buffer.apply_response_from(FIDO2PacketCommandWinkResponse::new()), Ok(0));
    assert_eq!(buffer.response_buffer_data_len, 0);
    assert!(buffer.response_buffer_done);
    let mut buffer = GlobalBuffer::new();
    let response = FIDO2PacketCommandErrorResponse::new(FIDO2ErrorCode::ErrInvalidLen);
    assert_eq!(buffer.apply_response_from(response), Ok(1));
    assert_eq!(buffer.response_buffer[0], 0x03);
    assert_eq!(buffer.response_buffer_data_len, 1);
}

#[test]
fn longest_response_fills_the_buffer() {
    let data = vec![0xabu8; 7608];
    let mut buffer = GlobalBuffer::new();
    let response = FIDO2PacketCommandCborResponse::new(0, &data);
    assert_eq!(buffer.apply_response_from(response), Ok(7609));
    assert_eq!(buffer.response_buffer[0], 0);
    assert_eq!(&buffer.response_buffer[1..], &data[..]);
    assert_eq!(buffer.response_buffer_data_len, 7609);
}

#[test]
fn response_that_is_too_long_changes_nothing() {
    let data = vec![0xabu8; 7610];
    let mut buffer = GlobalBuffer::new();
    let response = FIDO2PacketCommandPingResponse::new(&data);
    assert_eq!(
        buffer.apply_response_from(response),
        Err(FIDO2InternalError::BufferTooSmallError)
    );
    assert_eq!(buffer.response_buffer, [0u8; 7609]);
    assert_eq!(buffer.response_buffer_data_len, 0);
    assert!(!buffer.response_buffer_done);
}

#[test]
fn clear_request_leaves_the_response() {
    let mut buffer = GlobalBuffer::new();
    buffer.request_buffer[3] = 1;
    buffer.response_buffer[4] = 2;
    buffer.set_request_done(4);
    buffer.set_response_done(5);
    buffer.clear_request();
    assert_eq!(buffer.request_buffer, [0u8; 7609]);
    assert_eq!(buffer.request_buffer_data_len, 0);
    assert!(!buffer.request_buffer_done);
    assert_eq!(buffer.response_buffer[4], 2);
    assert_eq!(buffer.response_buffer_data_len, 5);
    assert!(buffer.response_buffer_done);
}

#[test]
fn clear_response_leaves_the_request() {
    let mut buffer = GlobalBuffer::new();
    buffer.request_buffer[3] = 1;
    buffer.response_buffer[4] = 2;
    buffer.set_request_done(4);
    buffer.set_response_done(5);
    buffer.clear_response();
    assert_eq!(buffer.response_buffer, [0u8; 7609]);
    assert_eq!(buffer.response_buffer_data_len, 0);
    assert!(!buffer.response_buffer_done);
    assert_eq!(buffer.request_buffer[3], 1);
    assert_eq!(buffer.request_buffer_data_len, 4);
    assert!(buffer.request_buffer_done);
}
