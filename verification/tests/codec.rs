use passthru_driver::comm::{
    CommMsg, FrameStep, MsgType, RxBuffer, COMM_MSG_ARG_SIZE, COMM_MSG_SIZE,
};

fn all_kinds() -> Vec<MsgType> {
    vec![
        MsgType::Unknown,
        MsgType::LogMsg,
        MsgType::OpenChannel,
        MsgType::CloseChannel,
        MsgType::SetChannelFilter,
        MsgType::RemoveChannelFilter,
        MsgType::TransmitChannelData,
        MsgType::ReceiveChannelData,
        MsgType::ReadBatt,
        MsgType::IoctlSet,
        MsgType::IoctlGet,
        MsgType::StatusMsg,
        MsgType::GetFwVersion,
    ]
}

#[test]
fn encoded_frame_is_4096_bytes() {
    let msg = CommMsg::new_with_args(MsgType::StatusMsg, &[0x01]);
    let bytes = msg.to_slice();
    assert_eq!(bytes.len(), 4096);
    assert_eq!(COMM_MSG_SIZE, 4096);
    assert_eq!(&bytes[0..5], &[0x03, 0x00, 0x00, 0xAA, 0x01]);
    assert!(bytes[5..].iter().all(|b| *b == 0));
}

#[test]
fn header_holds_length_plus_two_little_endian() {
    let payload: Vec<u8> = (0..300u32).map(|i| (i % 251) as u8).collect();
    let mut msg = CommMsg::new_with_args(MsgType::TransmitChannelData, &payload);
    msg.msg_id = 0x7F;
    let bytes = msg.to_slice();
    // 300 + 2 = 302 = 0x012E
    assert_eq!(bytes[0], 0x2E);
    assert_eq!(bytes[1], 0x01);
    assert_eq!(bytes[2], 0x7F);
    assert_eq!(bytes[3], 0x06);
    assert_eq!(&bytes[4..304], payload.as_slice());
    assert!(bytes[304..].iter().all(|b| *b == 0));
}

#[test]
fn round_trip_for_every_kind_and_several_ids() {
    for kind in all_kinds() {
        for id in [0u8, 1, 2, 127, 254, 255] {
            for len in [0usize, 1, 2, 255, 256, 4091, 4092] {
                let payload: Vec<u8> = (0..len).map(|i| (i * 7 + 3) as u8).collect();
                let mut msg = CommMsg::new_with_args(kind, &payload);
                msg.msg_id = id;
                let bytes = msg.to_slice();
                assert_eq!(bytes.len(), 4096);
                assert!(CommMsg::can_decode(&bytes));
                let back = CommMsg::from_vec(&bytes);
                assert_eq!(back, msg);
                assert_eq!(back.msg_id, id);
                assert_eq!(back.msg_type, kind);
                assert_eq!(back.args, payload);
            }
        }
    }
}

#[test]
fn empty_payload_round_trip() {
    let msg = CommMsg::new(MsgType::ReadBatt);
    assert_eq!(msg.msg_id, 0);
    assert_eq!(msg.args.len(), 0);
    let bytes = msg.to_slice();
    assert_eq!(&bytes[0..4], &[0x02, 0x00, 0x00, 0x08]);
    assert_eq!(CommMsg::from_vec(&bytes), msg);
}

#[test]
fn full_payload_round_trip() {
    let payload = vec![0xA5u8; 4092];
    let msg = CommMsg::new_with_args(MsgType::LogMsg, &payload);
    let bytes = msg.to_slice();
    // 4092 + 2 = 4094 = 0x0FFE
    assert_eq!(&bytes[0..4], &[0xFE, 0x0F, 0x00, 0x01]);
    assert_eq!(bytes.len(), 4096);
    assert_eq!(CommMsg::from_vec(&bytes).args, payload);
}

#[test]
fn new_with_args_cuts_after_4092_bytes() {
    assert_eq!(COMM_MSG_ARG_SIZE, 4092);
    let payload: Vec<u8> = (0..5000u32).map(|i| (i % 256) as u8).collect();
    let msg = CommMsg::new_with_args(MsgType::LogMsg, &payload);
    assert_eq!(msg.args.len(), 4092);
    assert_eq!(msg.args.as_slice(), &payload[0..4092]);
    assert_eq!(msg.msg_id, 0);
}

#[test]
fn unknown_kind_bytes_decode_to_unknown() {
    for raw in [0x00u8, 0x0A, 0x0F, 0x11, 0x42, 0xA9, 0xAC, 0xFF] {
        assert_eq!(MsgType::from_u8(&raw), MsgType::Unknown);
        let mut bytes = vec![0u8; 4096];
        bytes[0] = 3;
        bytes[2] = 9;
        bytes[3] = raw;
        bytes[4] = 0x55;
        let msg = CommMsg::from_vec(&bytes);
        assert_eq!(msg.msg_type, MsgType::Unknown);
        assert_eq!(msg.msg_id, 9);
        assert_eq!(msg.args, vec![0x55]);
    }
}

#[test]
fn kind_bytes_are_the_wire_values() {
    let expected: Vec<u8> =
        vec![0x00, 0x01, 0x02, 0x03, 0x04, 0x05, 0x06, 0x07, 0x08, 0x09, 0x10, 0xAA, 0xAB];
    let kinds = all_kinds();
    for (kind, raw) in kinds.iter().zip(expected.iter()) {
        assert_eq!(kind.to_raw(), *raw);
        assert_eq!(MsgType::from_u8(raw), *kind);
    }
}

#[test]
fn can_decode_refuses_bad_headers() {
    assert!(!CommMsg::can_decode(&[]));
    assert!(!CommMsg::can_decode(&[2, 0, 0]));
    // announced length below the two header bytes it counts
    assert!(!CommMsg::can_decode(&[1, 0, 0, 1]));
    assert!(!CommMsg::can_decode(&[0, 0, 0, 1]));
    // announced payload longer than what is there
    assert!(!CommMsg::can_decode(&[3, 0, 0, 1]));
    assert!(CommMsg::can_decode(&[3, 0, 0, 1, 9]));
    assert!(CommMsg::can_decode(&[2, 0, 0, 1]));
    let mut frame = vec![0u8; 4096];
    frame[0] = 0xFF;
    frame[1] = 0x0F; // 4095 - 2 = 4093 > 4092
    assert!(!CommMsg::can_decode(&frame));
    frame[0] = 0xFE;
    assert!(CommMsg::can_decode(&frame));
}

#[test]
fn from_vec_ignores_what_follows_the_payload() {
    let bytes = [4u8, 0, 5, 0xAB, 0x31, 0x32, 0xEE, 0xEE];
    let msg = CommMsg::from_vec(&bytes);
    assert_eq!(msg.msg_id, 5);
    assert_eq!(msg.msg_type, MsgType::GetFwVersion);
    assert_eq!(msg.args, vec![0x31, 0x32]);
}

#[test]
fn put_args_overwrites_the_start_of_the_payload() {
    let mut msg = CommMsg::new_with_args(MsgType::IoctlSet, &[1, 2, 3, 4, 5]);
    msg.msg_id = 3;
    msg.put_args(&[9, 8]);
    assert_eq!(msg.args, vec![9, 8, 3, 4, 5]);
    assert_eq!(msg.msg_id, 3);
    assert_eq!(msg.msg_type, MsgType::IoctlSet);
    msg.put_args(&[]);
    assert_eq!(msg.args, vec![9, 8, 3, 4, 5]);
    msg.put_args(&[7, 7, 7, 7, 7]);
    assert_eq!(msg.args, vec![7, 7, 7, 7, 7]);
}

#[test]
fn set_type_changes_only_the_kind() {
    let mut msg = CommMsg::new_with_args(MsgType::IoctlSet, &[1, 2]);
    msg.msg_id = 4;
    msg.set_type(MsgType::IoctlGet);
    assert_eq!(msg.msg_type, MsgType::IoctlGet);
    assert_eq!(msg.msg_id, 4);
    assert_eq!(msg.args, vec![1, 2]);
}

#[test]
fn rx_buffer_cuts_frames_in_order() {
    let mut buffer = RxBuffer::new();
    assert_eq!(buffer.len(), 0);
    assert_eq!(buffer.next_frame(), FrameStep::Incomplete);

    let mut first = CommMsg::new_with_args(MsgType::LogMsg, b"hello");
    first.msg_id = 0;
    let mut second = CommMsg::new_with_args(MsgType::ReadBatt, &[0, 0x10, 0x27, 0, 0]);
    second.msg_id = 17;
    let mut wire = first.to_slice();
    wire.extend_from_slice(&second.to_slice());

    // the bytes arrive in uneven pieces
    assert_eq!(buffer.feed(&wire[0..1000]), 1000);
    assert_eq!(buffer.next_frame(), FrameStep::Incomplete);
    assert_eq!(buffer.len(), 1000);
    assert_eq!(buffer.feed(&wire[1000..5000]), 4000);
    assert_eq!(buffer.next_frame(), FrameStep::Frame(first));
    assert_eq!(buffer.len(), 904);
    assert_eq!(buffer.next_frame(), FrameStep::Incomplete);
    assert_eq!(buffer.feed(&wire[5000..]), 3192);
    assert_eq!(buffer.next_frame(), FrameStep::Frame(second));
    assert_eq!(buffer.len(), 0);
    assert_eq!(buffer.next_frame(), FrameStep::Incomplete);
}

#[test]
fn rx_buffer_takes_no_more_than_its_capacity() {
    assert_eq!(RxBuffer::CAPACITY, 16384);
    let mut buffer = RxBuffer::new();
    let chunk = vec![0u8; 10000];
    assert_eq!(buffer.feed(&chunk), 10000);
    assert_eq!(buffer.feed(&chunk), 6384);
    assert_eq!(buffer.len(), 16384);
    assert_eq!(buffer.feed(&chunk), 0);
    assert_eq!(buffer.len(), 16384);
}

#[test]
fn rx_buffer_drops_a_malformed_frame_and_goes_on() {
    let mut buffer = RxBuffer::new();
    let mut bad = vec![0u8; 4096];
    bad[0] = 0x01; // announces a payload of -1 bytes
    let good = CommMsg::new_with_args(MsgType::StatusMsg, &[1]);
    buffer.feed(&bad);
    buffer.feed(&good.to_slice());
    assert_eq!(buffer.next_frame(), FrameStep::Malformed);
    assert_eq!(buffer.len(), 4096);
    assert_eq!(buffer.next_frame(), FrameStep::Frame(good));
    assert_eq!(buffer.next_frame(), FrameStep::Incomplete);
}
