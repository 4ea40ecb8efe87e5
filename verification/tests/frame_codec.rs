use fido2_ctaphid::fido2_internal_error::FIDO2InternalError;
use fido2_ctaphid::fido2_parser::{FIDO2PacketBuilder, FIDO2PacketCommand};

const ALL_COMMANDS: [(FIDO2PacketCommand, u8); 9] = [
    (FIDO2PacketCommand::CtapHIDPing, 0x01),
    (FIDO2PacketCommand::CtapHIDMsg, 0x03),
    (FIDO2PacketCommand::CtapHIDLock, 0x04),
    (FIDO2PacketCommand::CtapHIDInit, 0x06),
    (FIDO2PacketCommand::CtapHIDWink, 0x08),
    (FIDO2PacketCommand::CtapHIDCbor, 0x10),
    (FIDO2PacketCommand::CtapHIDCancel, 0x11),
    (FIDO2PacketCommand::CtapHIDKeepalive, 0x3B),
    (FIDO2PacketCommand::CtapHIDError, 0x3F),
];

fn init_packet(channel: [u8; 4], tag: u8, length: u16) -> [u8; 64] {
    let mut packet = [0u8; 64];
    packet[0..4].copy_from_slice(&channel);
    packet[4] = tag | 0x80;
    packet[5] = (length >> 8) as u8;
    packet[6] = (length & 0xff) as u8;
    packet
}

fn counting(from: u8) -> [u8; 59] {
    let mut data = [0u8; 59];
    for (k, byte) in data.iter_mut().enumerate() {
        *byte = from.wrapping_add(k as u8);
    }
    data
}

fn same_frame(a: &FIDO2PacketBuilder, b: &FIDO2PacketBuilder) -> bool {
    a.channel_id == b.channel_id
        && a.packet_type == b.packet_type
        && a.seq_id == b.seq_id
        && a.data_length == b.data_length
        && a.is_seq == b.is_seq
        && a.data == b.data
}

#[test]
fn command_tags_are_the_protocol_values() {
    for (command, tag) in ALL_COMMANDS {
        assert_eq!(command.to_primitive(), tag);
        assert_eq!(FIDO2PacketCommand::try_from_primitive(tag), Ok(command));
    }
}

#[test]
fn only_nine_tags_are_commands() {
    let mut known = 0;
    for tag in 0u8..=255 {
        match FIDO2PacketCommand::try_from_primitive(tag) {
            Ok(command) => {
                known += 1;
                assert_eq!(command.to_primitive(), tag);
            }
            Err(e) => assert_eq!(e, FIDO2InternalError::CommandNotFoundError),
        }
    }
    assert_eq!(known, 9);
}

#[test]
fn declared_length_7609_is_accepted() {
    let packet = init_packet([1, 2, 3, 4], 0x01, 7609);
    let frame = FIDO2PacketBuilder::new_from_raw_packet(packet).unwrap();
    assert_eq!(frame.data_length, 7609);
    assert_eq!(frame.channel_id, 0x04030201);
    assert_eq!(frame.packet_type, Some(FIDO2PacketCommand::CtapHIDPing));
    assert!(!frame.is_seq);
    assert_eq!(frame.seq_id, 0xff);
}

#[test]
fn declared_length_7610_is_rejected() {
    let packet = init_packet([1, 2, 3, 4], 0x01, 7610);
    let r = FIDO2PacketBuilder::new_from_raw_packet(packet);
    assert_eq!(r.err(), Some(FIDO2InternalError::DataLengthError));
    let packet = init_packet([1, 2, 3, 4], 0x01, 0xffff);
    let r = FIDO2PacketBuilder::new_from_raw_packet(packet);
    assert_eq!(r.err(), Some(FIDO2InternalError::DataLengthError));
}

#[test]
fn channel_zero_is_rejected() {
    let packet = init_packet([0, 0, 0, 0], 0x06, 8);
    let r = FIDO2PacketBuilder::new_from_raw_packet(packet);
    assert_eq!(r.err(), Some(FIDO2InternalError::ReversedChannelError));
    let mut continuation = [0u8; 64];
    continuation[4] = 3;
    let r = FIDO2PacketBuilder::new_from_raw_packet(continuation);
    assert_eq!(r.err(), Some(FIDO2InternalError::ReversedChannelError));
}

#[test]
fn unknown_command_is_rejected() {
    let packet = init_packet([1, 0, 0, 0], 0x02, 0);
    let r = FIDO2PacketBuilder::new_from_raw_packet(packet);
    assert_eq!(r.err(), Some(FIDO2InternalError::CommandNotFoundError));
    let packet = init_packet([1, 0, 0, 0], 0x7f, 0);
    let r = FIDO2PacketBuilder::new_from_raw_packet(packet);
    assert_eq!(r.err(), Some(FIDO2InternalError::CommandNotFoundError));
}

#[test]
fn errors_are_checked_in_order() {
    // Reserved channel comes before everything else.
    let packet = init_packet([0, 0, 0, 0], 0x02, 7610);
    let r = FIDO2PacketBuilder::new_from_raw_packet(packet);
    assert_eq!(r.err(), Some(FIDO2InternalError::ReversedChannelError));
    // A bad length comes before an unknown command.
    let packet = init_packet([9, 0, 0, 0], 0x02, 7610);
    let r = FIDO2PacketBuilder::new_from_raw_packet(packet);
    assert_eq!(r.err(), Some(FIDO2InternalError::DataLengthError));
}

#[test]
fn broadcast_channel_decodes() {
    let mut packet = init_packet([0xff, 0xff, 0xff, 0xff], 0x06, 8);
    packet[7..15].copy_from_slice(&[1, 2, 3, 4, 5, 6, 7, 8]);
    let frame = FIDO2PacketBuilder::new_from_raw_packet(packet).unwrap();
    assert_eq!(frame.channel_id, 0xffffffff);
    assert_eq!(frame.packet_type, Some(FIDO2PacketCommand::CtapHIDInit));
    assert_eq!(frame.data_length, 8);
    assert_eq!(&frame.data[..8], &[1, 2, 3, 4, 5, 6, 7, 8]);
    assert_eq!(&frame.data[8..], &[0u8; 51]);
}

#[test]
fn initiation_payload_is_cut_at_the_declared_length() {
    let mut packet = init_packet([1, 0, 0, 0], 0x01, 3);
    for k in 7..64 {
        packet[k] = k as u8;
    }
    let frame = FIDO2PacketBuilder::new_from_raw_packet(packet).unwrap();
    assert_eq!(frame.data_length, 3);
    assert_eq!(&frame.data[..3], &[7, 8, 9]);
    assert_eq!(&frame.data[3..], &[0u8; 56]);
}

#[test]
fn initiation_payload_of_length_one_and_zero() {
    let mut packet = init_packet([1, 0, 0, 0], 0x04, 1);
    packet[7] = 0x2a;
    packet[8] = 0x2b;
    let frame = FIDO2PacketBuilder::new_from_raw_packet(packet).unwrap();
    assert_eq!(frame.data_length, 1);
    assert_eq!(frame.data[0], 0x2a);
    assert_eq!(&frame.data[1..], &[0u8; 58]);
    let mut packet = init_packet([1, 0, 0, 0], 0x08, 0);
    packet[7] = 0x2a;
    let frame = FIDO2PacketBuilder::new_from_raw_packet(packet).unwrap();
    assert_eq!(frame.data_length, 0);
    assert_eq!(frame.data, [0u8; 59]);
}

#[test]
fn initiation_payload_is_capped_at_57_bytes() {
    let mut packet = init_packet([1, 0, 0, 0], 0x10, 1000);
    for k in 7..64 {
        packet[k] = k as u8;
    }
    let frame = FIDO2PacketBuilder::new_from_raw_packet(packet).unwrap();
    assert_eq!(frame.data_length, 1000);
    for k in 0..57 {
        assert_eq!(frame.data[k], (k + 7) as u8);
    }
    assert_eq!(frame.data[57], 0);
    assert_eq!(frame.data[58], 0);
}

#[test]
fn continuation_packet_decodes() {
    let mut packet = [0u8; 64];
    packet[0..4].copy_from_slice(&[0x00, 0x10, 0x00, 0x00]);
    packet[4] = 0x7f;
    for k in 5..64 {
        packet[k] = (k * 3) as u8;
    }
    let frame = FIDO2PacketBuilder::new_from_raw_packet(packet).unwrap();
    assert!(frame.is_seq);
    assert_eq!(frame.seq_id, 127);
    assert_eq!(frame.packet_type, None);
    assert_eq!(frame.channel_id, 0x1000);
    assert_eq!(frame.data_length, 59);
    for k in 0..59 {
        assert_eq!(frame.data[k], ((k + 5) * 3) as u8);
    }
}

#[test]
fn initiation_frame_packs() {
    let mut data = [0u8; 59];
    data[..5].copy_from_slice(b"hello");
    let frame = FIDO2PacketBuilder {
        channel_id: 0x00001003,
        packet_type: Some(FIDO2PacketCommand::CtapHIDPing),
        seq_id: 0xff,
        data_length: 5,
        is_seq: false,
        data,
    };
    let packet = frame.pack().unwrap();
    let mut expected = [0u8; 64];
    expected[..12].copy_from_slice(&[0x03, 0x10, 0, 0, 0x81, 0, 5, b'h', b'e', b'l', b'l', b'o']);
    assert_eq!(packet, expected);
}

#[test]
fn initiation_frame_packs_only_its_payload() {
    let frame = FIDO2PacketBuilder {
        channel_id: 7,
        packet_type: Some(FIDO2PacketCommand::CtapHIDMsg),
        seq_id: 0xff,
        data_length: 2,
        is_seq: false,
        data: counting(1),
    };
    let packet = frame.pack().unwrap();
    let mut expected = [0u8; 64];
    expected[..9].copy_from_slice(&[7, 0, 0, 0, 0x83, 0, 2, 1, 2]);
    assert_eq!(packet, expected);
}

#[test]
fn long_initiation_frame_packs_57_bytes() {
    let frame = FIDO2PacketBuilder {
        channel_id: 7,
        packet_type: Some(FIDO2PacketCommand::CtapHIDCbor),
        seq_id: 0xff,
        data_length: 7609,
        is_seq: false,
        data: counting(1),
    };
    let packet = frame.pack().unwrap();
    assert_eq!(&packet[..7], &[7, 0, 0, 0, 0x90, 0x1d, 0xb9]);
    for k in 0..57 {
        assert_eq!(packet[7 + k], (k + 1) as u8);
    }
}

#[test]
fn continuation_frame_packs() {
    let frame = FIDO2PacketBuilder {
        channel_id: 0xffffffff,
        packet_type: None,
        seq_id: 0,
        data_length: 59,
        is_seq: true,
        data: counting(100),
    };
    let packet = frame.pack().unwrap();
    assert_eq!(&packet[..5], &[0xff, 0xff, 0xff, 0xff, 0]);
    for k in 0..59 {
        assert_eq!(packet[5 + k], (100 + k) as u8);
    }
}

#[test]
fn frames_that_cannot_be_packed() {
    let good = FIDO2PacketBuilder {
        channel_id: 5,
        packet_type: Some(FIDO2PacketCommand::CtapHIDPing),
        seq_id: 0xff,
        data_length: 10,
        is_seq: false,
        data: [0u8; 59],
    };
    assert!(good.pack().is_ok());
    let no_command = FIDO2PacketBuilder { packet_type: None, ..good };
    assert_eq!(no_command.pack().err(), Some(FIDO2InternalError::CommandNotFoundError));
    let too_long = FIDO2PacketBuilder { data_length: 7610, ..good };
    assert_eq!(too_long.pack().err(), Some(FIDO2InternalError::DataLengthError));
    let longest = FIDO2PacketBuilder { data_length: 7609, ..good };
    assert!(longest.pack().is_ok());
    let bad_index = FIDO2PacketBuilder { is_seq: true, seq_id: 128, ..good };
    assert_eq!(bad_index.pack().err(), Some(FIDO2InternalError::DataLengthError));
    let last_index = FIDO2PacketBuilder { is_seq: true, seq_id: 127, ..good };
    assert!(last_index.pack().is_ok());
}

#[test]
fn round_trip_for_every_command() {
    for (command, _) in ALL_COMMANDS {
        for length in [0u16, 1, 8, 17, 56, 57, 58, 1000, 7609] {
            let carried = usize::from(length.min(57));
            let mut data = [0u8; 59];
            data[..carried].copy_from_slice(&counting(3)[..carried]);
            let frame = FIDO2PacketBuilder {
                channel_id: 0x1004,
                packet_type: Some(command),
                seq_id: 0xff,
                data_length: length,
                is_seq: false,
                data,
            };
            let packet = frame.pack().unwrap();
            let decoded = FIDO2PacketBuilder::new_from_raw_packet(packet).unwrap();
            assert!(same_frame(&decoded, &frame));
        }
    }
}

#[test]
fn round_trip_for_continuation_indices() {
    for index in [0u8, 1, 64, 126, 127] {
        let frame = FIDO2PacketBuilder {
            channel_id: 0xdeadbeef,
            packet_type: None,
            seq_id: index,
            data_length: 59,
            is_seq: true,
            data: counting(index),
        };
        let packet = frame.pack().unwrap();
        let decoded = FIDO2PacketBuilder::new_from_raw_packet(packet).unwrap();
        assert!(same_frame(&decoded, &frame));
    }
}

#[test]
fn decoding_and_packing_gives_the_packet_back() {
    let mut packet = init_packet([0x09, 0x10, 0, 0], 0x03, 57);
    for k in 7..64 {
        packet[k] = (200 - k) as u8;
    }
    let frame = FIDO2PacketBuilder::new_from_raw_packet(packet).unwrap();
    assert_eq!(frame.pack().unwrap(), packet);
}

#[test]
fn continuation_frame_packs_on_every_channel() {
    for channel in [0u32, 1, 0x1000, 0x00c0ffee, 0xffffffff] {
        for index in [0u8, 1, 126, 127] {
            let frame = FIDO2PacketBuilder {
                channel_id: channel,
                packet_type: None,
                seq_id: index,
                data_length: 59,
                is_seq: true,
                data: counting(7),
            };
            let packet = frame.pack().unwrap();
            assert_eq!(&packet[..4], &channel.to_le_bytes());
            assert_eq!(packet[4], index);
            assert_eq!(&packet[5..], &counting(7));
        }
    }
}

#[test]
fn first_packet_of_a_long_message_packs_on_every_channel() {
    for channel in [0u32, 1, 0x1000, 0xffffffff] {
        for (command, tag) in ALL_COMMANDS {
            for length in [58u16, 59, 256, 1000, 7609] {
                let frame = FIDO2PacketBuilder {
                    channel_id: channel,
                    packet_type: Some(command),
                    seq_id: 0xff,
                    data_length: length,
                    is_seq: false,
                    data: counting(9),
                };
                let packet = frame.pack().unwrap();
                assert_eq!(&packet[..4], &channel.to_le_bytes());
                assert_eq!(packet[4], 0x80 | tag);
                assert_eq!(packet[5], (length >> 8) as u8);
                assert_eq!(packet[6], (length & 0xff) as u8);
                assert_eq!(&packet[7..], &counting(9)[..57]);
            }
        }
    }
}

#[test]
fn packet_of_channel_zero_does_not_decode() {
    let frame = FIDO2PacketBuilder {
        channel_id: 0,
        packet_type: Some(FIDO2PacketCommand::CtapHIDPing),
        seq_id: 0xff,
        data_length: 3,
        is_seq: false,
        data: counting(1),
    };
    let packet = frame.pack().unwrap();
    let mut expected = [0u8; 64];
    expected[..10].copy_from_slice(&[0, 0, 0, 0, 0x81, 0, 3, 1, 2, 3]);
    assert_eq!(packet, expected);
    assert_eq!(
        FIDO2PacketBuilder::new_from_raw_packet(packet).err(),
        Some(FIDO2InternalError::ReversedChannelError)
    );
}
