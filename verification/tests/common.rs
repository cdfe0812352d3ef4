use passthru_driver::j2534_common::{
    ConnectFlags, DataBits, FilterType, IoctlID, IoctlParam, J1850PWMNetworkLine, Loggable,
    LoopBackSetting, Parsable, ParitySetting, PassthruError, Protocol, SConfig, SConfigList,
    PASSTHRU_MSG, PASSTHRU_MSG_DATA_SIZE, SBYTE_ARRAY,
};

#[test]
fn test_fail() {
    let x: u32 = 0x0B;
    let res = Protocol::from_raw(x);
    println!("{:?}", res);
    assert_eq!(res, None);
}

#[test]
fn protocol_numbers() {
    let all = [
        (Protocol::J1850VPW, 0x01u32, "J1850 VPW"),
        (Protocol::J1850PWM, 0x02, "J1850 PWM"),
        (Protocol::ISO9141, 0x03, "ISO 9141"),
        (Protocol::ISO14230, 0x04, "ISO 14230"),
        (Protocol::CAN, 0x05, "CAN"),
        (Protocol::ISO15765, 0x06, "ISO 15765"),
        (Protocol::SCI_A_ENGINE, 0x07, "SCI A ENGINE"),
        (Protocol::SCI_A_TRANS, 0x08, "SCI A TRANS"),
        (Protocol::SCI_B_ENGINE, 0x09, "SCI B ENGINE"),
        (Protocol::SCI_B_TRANS, 0x0A, "SCI B TRANS"),
    ];
    for (p, raw, text) in all {
        assert_eq!(p.to_raw(), raw);
        assert_eq!(Protocol::from_raw(raw), Some(p));
        assert_eq!(p.to_string(), text);
    }
    assert_eq!(Protocol::from_raw(0), None);
    assert_eq!(Protocol::from_raw(0x0B), None);
    assert_eq!(Protocol::from_raw(u32::MAX), None);
}

#[test]
fn every_number_parses_to_a_value_with_that_number() {
    for x in 0..0x2000u32 {
        if let Some(v) = Protocol::from_raw(x) {
            assert_eq!(v.to_raw(), x);
        }
        if let Some(v) = IoctlID::from_raw(x) {
            assert_eq!(v.to_raw(), x);
        }
        if let Some(v) = IoctlParam::from_raw(x) {
            assert_eq!(v.to_raw(), x);
        }
        if let Some(v) = PassthruError::from_raw(x) {
            assert_eq!(v.to_raw(), x);
        }
        if let Some(v) = FilterType::from_raw(x) {
            assert_eq!(v.to_raw(), x);
        }
        if let Some(v) = ConnectFlags::from_raw(x) {
            assert_eq!(v.to_raw(), x);
        }
    }
}

#[test]
fn status_codes() {
    let mut count = 0;
    for x in 0..0x100u32 {
        match PassthruError::from_raw(x) {
            Some(e) => {
                count += 1;
                assert!(x <= 0x1A);
                assert_eq!(e.to_raw(), x);
            }
            None => assert!(x > 0x1A),
        }
    }
    assert_eq!(count, 27);
    assert_eq!(PassthruError::STATUS_NOERROR.to_raw(), 0);
    assert_eq!(PassthruError::ERR_FAILED.to_raw(), 0x07);
    assert_eq!(PassthruError::ERR_TIMEOUT.to_raw(), 0x09);
    assert_eq!(PassthruError::ERR_EXCEEDED_LIMIT.to_raw(), 0x0C);
    assert_eq!(PassthruError::ERR_CHANNEL_IN_USE.to_raw(), 0x14);
    assert_eq!(PassthruError::ERR_MSG_PROTOCOL_ID.to_raw(), 0x15);
    assert_eq!(PassthruError::ERR_INVALID_DEVICE_ID.to_raw(), 0x1A);
    assert_eq!(PassthruError::STATUS_NOERROR.to_string(), "No Error");
    assert_eq!(PassthruError::ERR_TIMEOUT.to_string(), "Device timeout");
    assert_eq!(
        PassthruError::ERR_MSG_PROTOCOL_ID.to_string(),
        "Message protocol ID does not match that of the communication channel"
    );
    assert_eq!(PassthruError::ERR_INVALID_DEVICE_ID.to_string(), "Device ID not recognized");
    assert_eq!(PassthruError::ERR_TIMEOUT.name(), "ERR_TIMEOUT");
    assert_eq!(PassthruError::STATUS_NOERROR.name(), "STATUS_NOERROR");
}

#[test]
fn ioctl_ids() {
    assert_eq!(IoctlID::from_raw(0x01), Some(IoctlID::GET_CONFIG));
    assert_eq!(IoctlID::from_raw(0x02), Some(IoctlID::SET_CONFIG));
    assert_eq!(IoctlID::from_raw(0x03), Some(IoctlID::READ_VBATT));
    assert_eq!(IoctlID::from_raw(0x04), None);
    assert_eq!(IoctlID::from_raw(0x05), Some(IoctlID::FIVE_BAUD_INIT));
    assert_eq!(IoctlID::from_raw(0x0E), Some(IoctlID::READ_PROG_VOLTAGE));
    assert_eq!(IoctlID::from_raw(0x0F), None);
    assert_eq!(IoctlID::from_raw(0), None);
    assert_eq!(IoctlID::READ_VBATT.to_raw(), 3);
    assert_eq!(IoctlID::CLEAR_RX_BUFFER.to_string(), "CLEAR_RX_BUFFER");
    assert_eq!(IoctlID::DELETE_FROM_FUNCT_MSG_LOOKUP_TABLE.to_raw(), 0x0D);
}

#[test]
fn ioctl_params() {
    assert_eq!(IoctlParam::from_raw(0x01), Some(IoctlParam::DATA_RATE));
    assert_eq!(IoctlParam::from_raw(0x02), None);
    assert_eq!(IoctlParam::from_raw(0x03), Some(IoctlParam::LOOPBACK));
    assert_eq!(IoctlParam::from_raw(0x1F), Some(IoctlParam::ISO15765_STMIN));
    assert_eq!(IoctlParam::from_raw(0x20), Some(IoctlParam::DATA_BITS));
    assert_eq!(IoctlParam::from_raw(0x25), Some(IoctlParam::ISO15765_WFT_MAX));
    assert_eq!(IoctlParam::from_raw(0x26), None);
    assert_eq!(IoctlParam::from_raw(0), None);
    assert_eq!(IoctlParam::W0.to_raw(), 0x19);
    assert_eq!(IoctlParam::P1_MIN.to_string(), "P1_MIN");
    let known = (0..0x100u32).filter(|x| IoctlParam::from_raw(*x).is_some()).count();
    assert_eq!(known, 36);
}

#[test]
fn filter_types() {
    assert_eq!(FilterType::from_raw(1), Some(FilterType::PASS_FILTER));
    assert_eq!(FilterType::from_raw(2), Some(FilterType::BLOCK_FILTER));
    assert_eq!(FilterType::from_raw(3), Some(FilterType::FLOW_CONTROL_FILTER));
    assert_eq!(FilterType::from_raw(0), None);
    assert_eq!(FilterType::from_raw(4), None);
    assert_eq!(FilterType::FLOW_CONTROL_FILTER.to_raw(), 3);
    assert_eq!(FilterType::PASS_FILTER.to_string(), "Pass filter");
    assert_eq!(FilterType::FLOW_CONTROL_FILTER.to_string(), "ISO-TP flow control filter");
    assert_eq!(Loggable::to_string(&FilterType::BLOCK_FILTER), "Block filter");
    assert_eq!(
        Loggable::to_string(&FilterType::FLOW_CONTROL_FILTER),
        "ISO-TP Flow control filter"
    );
}

#[test]
fn connect_flags() {
    assert_eq!(ConnectFlags::from_raw(0x100), Some(ConnectFlags::CAN_29BIT_ID));
    assert_eq!(ConnectFlags::from_raw(0x200), Some(ConnectFlags::ISO9141_NO_CHECKSUM));
    assert_eq!(ConnectFlags::from_raw(0x800), Some(ConnectFlags::CAN_ID_BOTH));
    assert_eq!(ConnectFlags::from_raw(0x80), Some(ConnectFlags::ISO15765_ADDR_TYPE));
    assert_eq!(ConnectFlags::from_raw(0x1000), Some(ConnectFlags::ISO9141_K_LINE_ONLY));
    assert_eq!(ConnectFlags::from_raw(0x300), None);
    assert_eq!(ConnectFlags::from_raw(0), None);
    assert_eq!(ConnectFlags::CAN_29BIT_ID.to_string(), "CAN ID 29Bit");
    assert_eq!(ConnectFlags::CAN_ID_BOTH.to_string(), "unknown");
    assert_eq!(ConnectFlags::ISO9141_K_LINE_ONLY.to_string(), "ISO9141 only use K-Line");
}

#[test]
fn plain_settings() {
    assert_eq!(LoopBackSetting::OFF.to_raw(), 0);
    assert_eq!(LoopBackSetting::ON.to_raw(), 1);
    assert_eq!(DataBits::DATA_BITS_8.to_raw(), 0);
    assert_eq!(DataBits::DATA_BITS_7.to_raw(), 1);
    assert_eq!(ParitySetting::NO_PARITY.to_raw(), 0);
    assert_eq!(ParitySetting::ODD_PARITY.to_raw(), 1);
    assert_eq!(ParitySetting::EVEN_PARITY.to_raw(), 2);
    assert_eq!(J1850PWMNetworkLine::BUS_NORMAL.to_raw(), 0);
    assert_eq!(J1850PWMNetworkLine::BUS_PLUS.to_raw(), 1);
    assert_eq!(J1850PWMNetworkLine::BUS_MINUS.to_raw(), 2);
}

#[test]
fn default_message_is_all_zero() {
    let msg = PASSTHRU_MSG::default();
    assert_eq!(PASSTHRU_MSG_DATA_SIZE, 4128);
    assert_eq!({ msg.protocol_id }, 0);
    assert_eq!({ msg.rx_status }, 0);
    assert_eq!({ msg.tx_flags }, 0);
    assert_eq!({ msg.timestamp }, 0);
    assert_eq!({ msg.data_size }, 0);
    assert_eq!({ msg.extra_data_size }, 0);
    assert_eq!(msg.data.len(), 4128);
    assert!(msg.data.iter().all(|b| *b == 0));
    assert_eq!(msg.payload_bytes(), Vec::<u8>::new());
}

#[test]
fn payload_bytes_are_the_first_data_size_bytes() {
    let mut msg = PASSTHRU_MSG::default();
    for i in 0..4128 {
        msg.data[i] = (i % 253) as u8;
    }
    msg.data_size = 5;
    assert_eq!(msg.payload_bytes(), vec![0, 1, 2, 3, 4]);
    msg.data_size = 4128;
    assert_eq!(msg.payload_bytes(), msg.data.to_vec());
}

#[test]
fn records_hold_what_they_are_given() {
    let bytes = SBYTE_ARRAY { num_of_bytes: 2, byte_ptr: vec![1, 2] };
    assert_eq!(bytes.clone(), bytes);
    let list = SConfigList {
        num_of_params: 1,
        config_ptr: vec![SConfig { parameter: 1, value: 500000 }],
    };
    assert_eq!(list.config_ptr[0].value, 500000);
}
