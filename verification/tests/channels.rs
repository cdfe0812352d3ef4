use passthru_driver::channels::{
    settle, Channel, ChannelComm, ChannelID, RxOutcome, CMD_TIMEOUT_MS, MAX_FILTERS_PER_CHANNEL,
    MAX_QUEUE_MSGS, SLOW_CMD_TIMEOUT_MS,
};
use passthru_driver::comm::{CommMsg, M2Resp, MsgType, PTResult};
use passthru_driver::j2534_common::{
    FilterType, IoctlID, IoctlParam, PassthruError, Protocol, SConfig, PASSTHRU_MSG,
};
use passthru_driver::passthru_drv::LastError;

fn accepted() -> PTResult<M2Resp> {
    Ok(M2Resp::Success(Vec::new()))
}

fn refused(status: PassthruError, text: &str) -> PTResult<M2Resp> {
    Ok(M2Resp::Failure { status, string: text.to_string() })
}

fn open(reg: &mut ChannelComm, protocol: Protocol) -> u32 {
    let mut last = LastError::new();
    reg.create_channel(protocol, 500000, 0, accepted(), &mut last).unwrap()
}

fn data_frame(channel: u32, flags: u32, data: &[u8]) -> CommMsg {
    let mut args = Vec::new();
    args.extend_from_slice(&channel.to_le_bytes());
    args.extend_from_slice(&flags.to_le_bytes());
    args.extend_from_slice(data);
    CommMsg::new_with_args(MsgType::ReceiveChannelData, &args)
}

fn tx_msg(protocol: Protocol, flags: u32, data: &[u8]) -> PASSTHRU_MSG {
    let mut msg = PASSTHRU_MSG::default();
    msg.protocol_id = protocol.to_raw();
    msg.tx_flags = flags;
    msg.data_size = data.len() as u32;
    msg.data[..data.len()].copy_from_slice(data);
    msg
}

#[test]
fn limits_are_the_specified_ones() {
    assert_eq!(MAX_FILTERS_PER_CHANNEL, 10);
    assert_eq!(MAX_QUEUE_MSGS, 100);
    assert_eq!(CMD_TIMEOUT_MS, 100);
    assert_eq!(SLOW_CMD_TIMEOUT_MS, 250);
}

#[test]
fn channel_ids_are_the_family_numbers() {
    assert_eq!(ChannelID::from_u32(0), Ok(ChannelID::Can));
    assert_eq!(ChannelID::from_u32(1), Ok(ChannelID::Kline));
    assert_eq!(ChannelID::from_u32(2), Ok(ChannelID::J1850));
    assert_eq!(ChannelID::from_u32(3), Ok(ChannelID::Sci));
    assert_eq!(ChannelID::from_u32(4), Err(PassthruError::ERR_INVALID_CHANNEL_ID));
    assert_eq!(ChannelID::from_u32(u32::MAX), Err(PassthruError::ERR_INVALID_CHANNEL_ID));
    assert_eq!(ChannelID::Can.to_raw(), 0);
    assert_eq!(ChannelID::Kline.to_raw(), 1);
    assert_eq!(ChannelID::J1850.to_raw(), 2);
    assert_eq!(ChannelID::Sci.to_raw(), 3);
}

#[test]
fn each_protocol_has_its_family() {
    assert_eq!(ChannelID::from_protocol(Protocol::CAN), ChannelID::Can);
    assert_eq!(ChannelID::from_protocol(Protocol::ISO15765), ChannelID::Can);
    assert_eq!(ChannelID::from_protocol(Protocol::ISO9141), ChannelID::Kline);
    assert_eq!(ChannelID::from_protocol(Protocol::ISO14230), ChannelID::Kline);
    assert_eq!(ChannelID::from_protocol(Protocol::J1850VPW), ChannelID::J1850);
    assert_eq!(ChannelID::from_protocol(Protocol::J1850PWM), ChannelID::J1850);
    assert_eq!(ChannelID::from_protocol(Protocol::SCI_A_ENGINE), ChannelID::Sci);
    assert_eq!(ChannelID::from_protocol(Protocol::SCI_A_TRANS), ChannelID::Sci);
    assert_eq!(ChannelID::from_protocol(Protocol::SCI_B_ENGINE), ChannelID::Sci);
    assert_eq!(ChannelID::from_protocol(Protocol::SCI_B_TRANS), ChannelID::Sci);
}

#[test]
fn settle_passes_the_device_status_and_keeps_its_text() {
    let mut last = LastError::new();
    assert_eq!(settle(Ok(M2Resp::Success(vec![1, 2])), &mut last), Ok(vec![1, 2]));
    assert_eq!(last.text, "");
    assert_eq!(
        settle(refused(PassthruError::ERR_INVALID_BAUDRATE, "bad baud"), &mut last),
        Err(PassthruError::ERR_INVALID_BAUDRATE)
    );
    assert_eq!(last.text, "bad baud");
    assert_eq!(
        settle(Err(PassthruError::ERR_DEVICE_NOT_CONNECTED), &mut last),
        Err(PassthruError::ERR_DEVICE_NOT_CONNECTED)
    );
    assert_eq!(last.text, "bad baud");
}

#[test]
fn open_request_carries_four_little_endian_numbers() {
    let reg = ChannelComm::new();
    let req = reg.create_channel_request(Protocol::ISO15765, 500000, 0x0100).unwrap();
    assert_eq!(req.msg.msg_type, MsgType::OpenChannel);
    assert_eq!(req.msg.msg_id, 0);
    assert!(req.require_response);
    assert_eq!(req.timeout_ms, 100);
    assert_eq!(
        req.msg.args,
        vec![0, 0, 0, 0, 6, 0, 0, 0, 0x20, 0xA1, 0x07, 0x00, 0x00, 0x01, 0, 0]
    );
    let kline = reg.create_channel_request(Protocol::ISO9141, 10400, 0).unwrap();
    assert_eq!(&kline.msg.args[0..8], &[1, 0, 0, 0, 3, 0, 0, 0]);
    assert_eq!(&kline.msg.args[8..12], &10400u32.to_le_bytes());
}

#[test]
fn second_channel_of_a_family_is_refused() {
    let mut reg = ChannelComm::new();
    let mut last = LastError::new();
    assert_eq!(reg.create_channel(Protocol::ISO15765, 500000, 0, accepted(), &mut last), Ok(0));
    assert_eq!(
        reg.create_channel(Protocol::CAN, 250000, 0, accepted(), &mut last),
        Err(PassthruError::ERR_CHANNEL_IN_USE)
    );
    assert_eq!(
        reg.create_channel(Protocol::ISO15765, 500000, 0, accepted(), &mut last),
        Err(PassthruError::ERR_CHANNEL_IN_USE)
    );
    assert!(matches!(
        reg.create_channel_request(Protocol::CAN, 250000, 0),
        Err(PassthruError::ERR_CHANNEL_IN_USE)
    ));
    // the other families are free
    assert_eq!(reg.create_channel(Protocol::ISO9141, 10400, 0, accepted(), &mut last), Ok(1));
    assert_eq!(reg.create_channel(Protocol::J1850VPW, 10400, 0, accepted(), &mut last), Ok(2));
    assert_eq!(reg.create_channel(Protocol::SCI_B_TRANS, 7812, 0, accepted(), &mut last), Ok(3));
    assert_eq!(
        reg.create_channel(Protocol::SCI_A_ENGINE, 7812, 0, accepted(), &mut last),
        Err(PassthruError::ERR_CHANNEL_IN_USE)
    );
}

#[test]
fn a_refused_open_leaves_the_slot_empty() {
    let mut reg = ChannelComm::new();
    let mut last = LastError::new();
    assert_eq!(
        reg.create_channel(
            Protocol::CAN,
            1,
            0,
            refused(PassthruError::ERR_INVALID_BAUDRATE, "baud 1 unsupported"),
            &mut last
        ),
        Err(PassthruError::ERR_INVALID_BAUDRATE)
    );
    assert_eq!(last.text, "baud 1 unsupported");
    assert_eq!(
        reg.create_channel(Protocol::CAN, 1, 0, Err(PassthruError::ERR_TIMEOUT), &mut last),
        Err(PassthruError::ERR_TIMEOUT)
    );
    assert_eq!(last.text, "baud 1 unsupported");
    assert_eq!(reg.create_channel(Protocol::CAN, 500000, 0, accepted(), &mut last), Ok(0));
}

#[test]
fn destroy_empties_the_slot_before_the_device_is_asked() {
    let mut reg = ChannelComm::new();
    let mut last = LastError::new();
    open(&mut reg, Protocol::ISO14230);
    let chan = reg.destroy_channel(1).unwrap();
    let req = chan.destroy_request();
    assert_eq!(req.msg.msg_type, MsgType::CloseChannel);
    assert_eq!(req.msg.args, vec![1, 0, 0, 0]);
    assert_eq!(req.timeout_ms, 250);
    assert!(req.require_response);
    // the slot is free again although the device refuses
    assert_eq!(
        chan.destroy(refused(PassthruError::ERR_FAILED, "busy"), &mut last),
        Err(PassthruError::ERR_FAILED)
    );
    assert_eq!(last.text, "busy");
    assert!(matches!(reg.destroy_channel(1), Err(PassthruError::ERR_INVALID_CHANNEL_ID)));
    assert_eq!(open(&mut reg, Protocol::ISO9141), 1);
    let again = reg.destroy_channel(1).unwrap();
    assert_eq!(again.destroy(accepted(), &mut last), Ok(()));
}

#[test]
fn destroy_refuses_ids_without_a_channel() {
    let mut reg = ChannelComm::new();
    for id in [0u32, 1, 2, 3, 4, 100] {
        assert!(matches!(reg.destroy_channel(id), Err(PassthruError::ERR_INVALID_CHANNEL_ID)));
    }
}

#[test]
fn force_destroy_closes_every_open_channel() {
    let mut reg = ChannelComm::new();
    open(&mut reg, Protocol::SCI_A_ENGINE);
    open(&mut reg, Protocol::CAN);
    let requests = reg.force_destroy_all_channels();
    assert_eq!(requests.len(), 2);
    assert_eq!(requests[0].msg.msg_type, MsgType::CloseChannel);
    assert_eq!(requests[0].msg.args, vec![0, 0, 0, 0]);
    assert_eq!(requests[1].msg.args, vec![3, 0, 0, 0]);
    assert_eq!(requests[1].timeout_ms, 250);
    assert_eq!(reg.force_destroy_all_channels().len(), 0);
    assert_eq!(open(&mut reg, Protocol::CAN), 0);
}

#[test]
fn ten_filters_then_the_limit() {
    let mut reg = ChannelComm::new();
    let mut last = LastError::new();
    open(&mut reg, Protocol::ISO15765);
    for expected in 0..10u32 {
        let req = reg
            .create_channel_filter_request(
                0,
                FilterType::PASS_FILTER,
                &[0xFF, 0xFF, expected as u8],
                &[0x07, 0xE8, expected as u8],
                &[],
            )
            .unwrap();
        assert_eq!(&req.msg.args[4..8], &expected.to_le_bytes());
        assert_eq!(reg.create_channel_filter(0, accepted(), &mut last), Ok(expected));
    }
    assert!(matches!(
        reg.create_channel_filter_request(0, FilterType::PASS_FILTER, &[1], &[1], &[]),
        Err(PassthruError::ERR_EXCEEDED_LIMIT)
    ));
    assert_eq!(
        reg.create_channel_filter(0, accepted(), &mut last),
        Err(PassthruError::ERR_EXCEEDED_LIMIT)
    );
}

#[test]
fn filter_request_layout() {
    let mut reg = ChannelComm::new();
    open(&mut reg, Protocol::ISO15765);
    let req = reg
        .create_channel_filter_request(
            0,
            FilterType::FLOW_CONTROL_FILTER,
            &[0xFF, 0xFF, 0xFF, 0xFF],
            &[0x00, 0x00, 0x07, 0xE8],
            &[0x00, 0x00, 0x07, 0xE0, 0x55],
        )
        .unwrap();
    assert_eq!(req.msg.msg_type, MsgType::SetChannelFilter);
    assert_eq!(req.timeout_ms, 250);
    let mut expected: Vec<u8> = Vec::new();
    for n in [0u32, 0, 3, 4, 4, 5] {
        expected.extend_from_slice(&n.to_le_bytes());
    }
    expected.extend_from_slice(&[0xFF, 0xFF, 0xFF, 0xFF]);
    expected.extend_from_slice(&[0x00, 0x00, 0x07, 0xE8]);
    expected.extend_from_slice(&[0x00, 0x00, 0x07, 0xE0, 0x55]);
    assert_eq!(req.msg.args, expected);
}

#[test]
fn a_removed_filter_id_is_handed_out_next() {
    let mut reg = ChannelComm::new();
    let mut last = LastError::new();
    open(&mut reg, Protocol::CAN);
    for expected in 0..5u32 {
        assert_eq!(reg.create_channel_filter(0, accepted(), &mut last), Ok(expected));
    }
    let req = reg.remove_filter_request(0, 2).unwrap();
    assert_eq!(req.msg.msg_type, MsgType::RemoveChannelFilter);
    assert_eq!(req.msg.args, vec![0, 0, 0, 0, 2, 0, 0, 0]);
    assert_eq!(req.timeout_ms, 100);
    assert_eq!(reg.remove_filter(0, 2, accepted(), &mut last), Ok(()));
    assert_eq!(reg.create_channel_filter(0, accepted(), &mut last), Ok(2));
    assert_eq!(reg.create_channel_filter(0, accepted(), &mut last), Ok(5));
    // with a lower index free as well, the lower one comes first
    assert_eq!(reg.remove_filter(0, 4, accepted(), &mut last), Ok(()));
    assert_eq!(reg.remove_filter(0, 1, accepted(), &mut last), Ok(()));
    assert_eq!(reg.create_channel_filter(0, accepted(), &mut last), Ok(1));
    assert_eq!(reg.create_channel_filter(0, accepted(), &mut last), Ok(4));
}

#[test]
fn removing_a_filter_that_is_not_in_use_is_refused() {
    let mut reg = ChannelComm::new();
    let mut last = LastError::new();
    open(&mut reg, Protocol::CAN);
    assert_eq!(reg.create_channel_filter(0, accepted(), &mut last), Ok(0));
    for id in [1u32, 9, 10, 11, u32::MAX] {
        assert!(matches!(
            reg.remove_filter_request(0, id),
            Err(PassthruError::ERR_INVALID_MSG_ID)
        ));
        assert_eq!(
            reg.remove_filter(0, id, accepted(), &mut last),
            Err(PassthruError::ERR_INVALID_MSG_ID)
        );
    }
    assert_eq!(reg.remove_filter(0, 0, accepted(), &mut last), Ok(()));
    assert_eq!(
        reg.remove_filter(0, 0, accepted(), &mut last),
        Err(PassthruError::ERR_INVALID_MSG_ID)
    );
}

#[test]
fn a_refused_filter_changes_nothing() {
    let mut reg = ChannelComm::new();
    let mut last = LastError::new();
    open(&mut reg, Protocol::CAN);
    assert_eq!(
        reg.create_channel_filter(0, refused(PassthruError::ERR_NOT_UNIQUE, "dup"), &mut last),
        Err(PassthruError::ERR_NOT_UNIQUE)
    );
    assert_eq!(last.text, "dup");
    assert_eq!(reg.create_channel_filter(0, accepted(), &mut last), Ok(0));
    assert_eq!(
        reg.remove_filter(0, 0, refused(PassthruError::ERR_FAILED, "no"), &mut last),
        Err(PassthruError::ERR_FAILED)
    );
    assert_eq!(last.text, "no");
    // the filter is still in use
    assert_eq!(reg.create_channel_filter(0, accepted(), &mut last), Ok(1));
}

#[test]
fn filters_need_an_open_channel() {
    let mut reg = ChannelComm::new();
    let mut last = LastError::new();
    open(&mut reg, Protocol::CAN);
    for id in [1u32, 2, 3, 4, 77] {
        assert!(matches!(
            reg.create_channel_filter_request(id, FilterType::BLOCK_FILTER, &[1], &[1], &[]),
            Err(PassthruError::ERR_INVALID_CHANNEL_ID)
        ));
        assert_eq!(
            reg.create_channel_filter(id, accepted(), &mut last),
            Err(PassthruError::ERR_INVALID_CHANNEL_ID)
        );
        assert_eq!(
            reg.remove_filter(id, 0, accepted(), &mut last),
            Err(PassthruError::ERR_INVALID_CHANNEL_ID)
        );
    }
}

#[test]
fn transmit_request_carries_channel_flags_and_data() {
    let mut reg = ChannelComm::new();
    let mut last = LastError::new();
    open(&mut reg, Protocol::ISO15765);
    let msg = tx_msg(Protocol::ISO15765, 0x40, &[0x02, 0x01, 0x00]);
    let req = reg.write_channel_data_request(0, &msg, true).unwrap();
    assert_eq!(req.msg.msg_type, MsgType::TransmitChannelData);
    assert_eq!(req.msg.args, vec![0, 0, 0, 0, 0x40, 0, 0, 0, 0x02, 0x01, 0x00]);
    assert!(req.require_response);
    assert_eq!(req.timeout_ms, 100);
    let forget = reg.write_channel_data_request(0, &msg, false).unwrap();
    assert!(!forget.require_response);
    assert_eq!(forget.msg.args, req.msg.args);
    assert_eq!(reg.write_channel_data(0, &msg, accepted(), &mut last), Ok(()));
    assert_eq!(
        reg.write_channel_data(0, &msg, refused(PassthruError::ERR_BUFFER_FULL, "full"), &mut last),
        Err(PassthruError::ERR_BUFFER_FULL)
    );
    assert_eq!(last.text, "full");
}

#[test]
fn transmit_of_another_protocol_is_refused() {
    let mut reg = ChannelComm::new();
    let mut last = LastError::new();
    open(&mut reg, Protocol::ISO15765);
    let msg = tx_msg(Protocol::CAN, 0, &[1]);
    assert!(matches!(
        reg.write_channel_data_request(0, &msg, true),
        Err(PassthruError::ERR_MSG_PROTOCOL_ID)
    ));
    assert_eq!(
        reg.write_channel_data(0, &msg, accepted(), &mut last),
        Err(PassthruError::ERR_MSG_PROTOCOL_ID)
    );
    assert!(matches!(
        reg.write_channel_data_request(1, &msg, true),
        Err(PassthruError::ERR_INVALID_CHANNEL_ID)
    ));
    assert_eq!(
        reg.write_channel_data(9, &msg, accepted(), &mut last),
        Err(PassthruError::ERR_INVALID_CHANNEL_ID)
    );
}

#[test]
fn transmit_of_an_oversized_message_is_refused() {
    let mut reg = ChannelComm::new();
    let mut last = LastError::new();
    open(&mut reg, Protocol::CAN);
    let mut msg = tx_msg(Protocol::CAN, 0, &[1, 2, 3]);
    msg.data_size = 4129;
    assert!(matches!(
        reg.write_channel_data_request(0, &msg, true),
        Err(PassthruError::ERR_INVALID_MSG)
    ));
    assert_eq!(
        reg.write_channel_data(0, &msg, accepted(), &mut last),
        Err(PassthruError::ERR_INVALID_MSG)
    );
    msg.data_size = 4128;
    let req = reg.write_channel_data_request(0, &msg, true).unwrap();
    // 8 + 4128 bytes are cut to what a frame holds
    assert_eq!(req.msg.args.len(), 4092);
}

#[test]
fn received_data_is_buffered_in_order() {
    let mut reg = ChannelComm::new();
    open(&mut reg, Protocol::ISO15765);
    let now: u128 = 0x1_0000_0000u128 * 5 + 1234;
    assert_eq!(
        reg.receive_channel_data(&data_frame(0, 0x0100, &[1, 2, 3]), now),
        Ok(RxOutcome::Buffered)
    );
    assert_eq!(
        reg.receive_channel_data(&data_frame(0, 0, &[]), now + 1),
        Ok(RxOutcome::Buffered)
    );
    let first = reg.read_channel_data(0).unwrap().unwrap();
    assert_eq!({ first.protocol_id }, 6);
    assert_eq!({ first.rx_status }, 0x0100);
    assert_eq!({ first.tx_flags }, 0);
    assert_eq!({ first.timestamp }, 1234);
    assert_eq!({ first.data_size }, 3);
    assert_eq!({ first.extra_data_size }, 0);
    assert_eq!(&first.data[0..3], &[1, 2, 3]);
    assert!(first.data[3..].iter().all(|b| *b == 0));
    let second = reg.read_channel_data(0).unwrap().unwrap();
    assert_eq!({ second.data_size }, 0);
    assert_eq!({ second.timestamp }, 1235);
    assert_eq!(reg.read_channel_data(0), Ok(None));
}

#[test]
fn the_receive_queue_holds_at_most_100() {
    let mut reg = ChannelComm::new();
    open(&mut reg, Protocol::CAN);
    let mut dropped = 0;
    for i in 0..150u32 {
        match reg.receive_channel_data(&data_frame(0, 0, &i.to_le_bytes()), i as u128) {
            Ok(RxOutcome::Buffered) => {}
            Ok(RxOutcome::Dropped) => dropped += 1,
            other => panic!("unexpected outcome {:?}", other),
        }
    }
    assert_eq!(dropped, 50);
    let mut drained = 0u32;
    while let Some(msg) = reg.read_channel_data(0).unwrap() {
        // the newest were dropped: what is left are the first 100, in order
        assert_eq!(&msg.data[0..4], &drained.to_le_bytes());
        drained += 1;
    }
    assert_eq!(drained, 100);
}

#[test]
fn data_for_a_closed_channel_is_dropped() {
    let mut reg = ChannelComm::new();
    open(&mut reg, Protocol::CAN);
    assert_eq!(
        reg.receive_channel_data(&data_frame(2, 0, &[1]), 0),
        Ok(RxOutcome::NoChannel)
    );
    assert_eq!(
        reg.receive_channel_data(&data_frame(4, 0, &[1]), 0),
        Err(PassthruError::ERR_INVALID_CHANNEL_ID)
    );
    assert_eq!(
        reg.receive_channel_data(&data_frame(0x0100, 0, &[1]), 0),
        Err(PassthruError::ERR_INVALID_CHANNEL_ID)
    );
    let short = CommMsg::new_with_args(MsgType::ReceiveChannelData, &[0, 0, 0, 0, 1, 2, 3]);
    assert_eq!(reg.receive_channel_data(&short, 0), Err(PassthruError::ERR_FAILED));
    assert_eq!(reg.read_channel_data(0), Ok(None));
    assert_eq!(reg.read_channel_data(2), Err(PassthruError::ERR_INVALID_CHANNEL_ID));
    assert_eq!(reg.read_channel_data(4), Err(PassthruError::ERR_INVALID_CHANNEL_ID));
}

#[test]
fn clearing_the_receive_queue_empties_it() {
    let mut reg = ChannelComm::new();
    open(&mut reg, Protocol::CAN);
    for i in 0..5u8 {
        reg.receive_channel_data(&data_frame(0, 0, &[i]), 0).unwrap();
    }
    assert_eq!(reg.clear_tx_buffer(0), PassthruError::STATUS_NOERROR);
    assert!(reg.clone().read_channel_data(0).unwrap().is_some());
    assert_eq!(reg.clear_rx_buffer(0), PassthruError::STATUS_NOERROR);
    assert_eq!(reg.read_channel_data(0), Ok(None));
    assert_eq!(reg.clear_rx_buffer(1), PassthruError::ERR_INVALID_CHANNEL_ID);
    assert_eq!(reg.clear_tx_buffer(4), PassthruError::ERR_INVALID_CHANNEL_ID);
}

#[test]
fn a_channel_on_its_own() {
    let mut last = LastError::new();
    let req = Channel::open_request(2, Protocol::J1850PWM, 41600, 0);
    assert_eq!(&req.msg.args[0..8], &[2, 0, 0, 0, 2, 0, 0, 0]);
    let mut chan = Channel::new(2, Protocol::J1850PWM, 41600, 0, accepted(), &mut last).unwrap();
    assert_eq!(chan.rx_available(), 0);
    assert_eq!(chan.pop_rx_queue(), None);
    assert!(chan.on_receive_data(0x08, &[9, 9], 0xFFFF_FFFF));
    assert_eq!(chan.rx_available(), 1);
    let msg = chan.pop_rx_queue().unwrap();
    assert_eq!({ msg.timestamp }, 0xFFFF_FFFF);
    assert_eq!({ msg.protocol_id }, 2);
    assert_eq!({ msg.rx_status }, 0x08);
    for _ in 0..100 {
        assert!(chan.on_receive_data(0, &[1], 1));
    }
    assert!(!chan.on_receive_data(0, &[1], 1));
    assert_eq!(chan.rx_available(), 100);
    assert_eq!(chan.ioctl(IoctlID::CLEAR_RX_BUFFER), Ok(()));
    assert_eq!(chan.rx_available(), 0);
    assert_eq!(chan.ioctl(IoctlID::CLEAR_TX_BUFFER), Ok(()));
    assert_eq!(chan.ioctl(IoctlID::READ_VBATT), Err(PassthruError::ERR_FAILED));
    assert_eq!(chan.ioctl(IoctlID::FAST_INIT), Err(PassthruError::ERR_FAILED));
    assert_eq!(chan.add_filter(accepted(), &mut last), Ok(0));
    assert_eq!(chan.add_filter(accepted(), &mut last), Ok(1));
    assert_eq!(chan.remove_filter(0, accepted(), &mut last), Ok(()));
    assert_eq!(chan.remove_filter(0, accepted(), &mut last), Err(PassthruError::ERR_INVALID_MSG_ID));
    assert_eq!(chan.remove_filter(10, accepted(), &mut last), Err(PassthruError::ERR_INVALID_MSG_ID));
    assert!(matches!(chan.remove_filter_request(0), Err(PassthruError::ERR_INVALID_MSG_ID)));
    assert_eq!(chan.remove_filter_request(1).unwrap().msg.args, vec![2, 0, 0, 0, 1, 0, 0, 0]);
    let tx = tx_msg(Protocol::J1850PWM, 7, &[0xAA]);
    assert_eq!(
        chan.transmit_request(&tx, false).unwrap().msg.args,
        vec![2, 0, 0, 0, 7, 0, 0, 0, 0xAA]
    );
    assert_eq!(chan.transmit_data(&tx, accepted(), &mut last), Ok(()));
    assert!(Channel::new(2, Protocol::J1850PWM, 1, 0, Err(PassthruError::ERR_TIMEOUT), &mut last)
        .is_err());
}

#[test]
fn configuration_is_not_supported_yet() {
    let mut reg = ChannelComm::new();
    let mut last = LastError::new();
    open(&mut reg, Protocol::CAN);
    assert_eq!(
        reg.ioctl_set_cfg(0, IoctlParam::DATA_RATE, 500000),
        Err(PassthruError::ERR_NOT_SUPPORTED)
    );
    assert_eq!(
        reg.ioctl_get_cfg(0, IoctlParam::LOOPBACK),
        Err(PassthruError::ERR_NOT_SUPPORTED)
    );
    assert_eq!(
        reg.ioctl_set_cfg(1, IoctlParam::DATA_RATE, 500000),
        Err(PassthruError::ERR_INVALID_CHANNEL_ID)
    );
    assert_eq!(
        reg.ioctl_get_cfg(5, IoctlParam::DATA_RATE),
        Err(PassthruError::ERR_INVALID_CHANNEL_ID)
    );
    let mut chan = Channel::new(0, Protocol::CAN, 500000, 0, accepted(), &mut last).unwrap();
    let mut cfg = SConfig { parameter: 1, value: 5 };
    assert_eq!(chan.ioctl_set_config(&cfg), Err(PassthruError::ERR_NOT_SUPPORTED));
    assert_eq!(chan.ioctl_get_config(&mut cfg), Err(PassthruError::ERR_NOT_SUPPORTED));
    assert_eq!(cfg, SConfig { parameter: 1, value: 5 });
}
