use rblue::baseband::ControllerErrorCode;
use rblue::host::hci::{frame_command, HCICommandPacket, HCIEvent, HCIPacket};
use rblue::host::hci_cmd::{
    CommandCompleteEvt, LESetAdvertisingDataCmd, LESetAdvertisingEnableCmd, LESetEventMaskCmd,
    LESetAdvertisingParametersCmd, RBlueFromU8Array, RBlueToU8Array, ReadBufferSizeRet,
    ResetRet, SetEventMaskCmd,
};
use rblue::host::{
    AdvertisingFilterPolicy, AdvertisingType, LEAddressType, LEAddressType2, PacketType,
    PageScanRepetitionMode, PACKET_TYPE_MAY_USE_DH1,
};
use rblue::bd_addr_eq;

#[test]
fn advertising_parameters_wire_form() {
    let cmd = LESetAdvertisingParametersCmd {
        advertising_interval_min: 0x0800,
        advertising_interval_max: 0x4000,
        advertising_type: AdvertisingType::ConnectableLowDuty,
        own_address_type: LEAddressType::RandomDevice,
        peer_address_type: LEAddressType2::RandomDeviceOrRandomIdentity,
        peer_address: [0xA1, 0xA2, 0xA3, 0xA4, 0xA5, 0xA6],
        advertising_channel_map: 0x07,
        advertising_filter_policy: AdvertisingFilterPolicy::FilterOnlyConnect,
    };
    assert_eq!(
        cmd.to_u8_array(),
        vec![0x00, 0x08, 0x00, 0x40, 0x04, 0x01, 0x01, 0xA1, 0xA2, 0xA3, 0xA4, 0xA5, 0xA6, 0x07, 0x02]
    );
}

#[test]
fn address_type_reduction() {
    assert_eq!(LEAddressType2::from(LEAddressType::PublicDevice), LEAddressType2::PublicDeviceOrPublicIdentity);
    assert_eq!(LEAddressType2::from(LEAddressType::PublicIdentity), LEAddressType2::PublicDeviceOrPublicIdentity);
    assert_eq!(LEAddressType2::from(LEAddressType::RandomDevice), LEAddressType2::RandomDeviceOrRandomIdentity);
    assert_eq!(LEAddressType2::from(LEAddressType::RandomIdentity), LEAddressType2::RandomDeviceOrRandomIdentity);
}

#[test]
fn integers_are_little_endian() {
    let cmd = SetEventMaskCmd { event_mask: 0x0102030405060708 };
    assert_eq!(cmd.to_u8_array(), vec![8, 7, 6, 5, 4, 3, 2, 1]);
    let ret = ReadBufferSizeRet {
        status: ControllerErrorCode::Success,
        acl_data_packet_length: 0x1234,
        synchronous_data_packet_length: 0x56,
        total_num_acl_data_packets: 0x789A,
        total_num_synchronous_data_packets: 0xBCDE,
    };
    assert_eq!(ret.to_u8_array(), vec![0x00, 0x34, 0x12, 0x56, 0x9A, 0x78, 0xDE, 0xBC]);
    assert_eq!(PacketType { bits: 0xABCD }.to_le_bytes(), [0xCD, 0xAB]);
    assert_eq!(PacketType { bits: PACKET_TYPE_MAY_USE_DH1 }.to_le_bytes(), [0x08, 0x00]);
}

#[test]
fn enumerations_are_one_octet() {
    assert_eq!(PageScanRepetitionMode::R2.to_le_bytes(), [2]);
    assert_eq!(AdvertisingType::Scannable.to_le_bytes(), [2]);
    assert_eq!(ControllerErrorCode::Success.to_le_bytes(), [0]);
}

#[test]
fn advertising_data_is_raw() {
    let mut data = [0u8; 31];
    data[0] = 2;
    data[1] = 1;
    data[2] = 6;
    data[30] = 0xEE;
    let cmd = LESetAdvertisingDataCmd { advertising_data_length: 3, advertising_data: data };
    let bytes = cmd.to_u8_array();
    assert_eq!(bytes.len(), 32);
    assert_eq!(&bytes[..4], &[3, 2, 1, 6]);
    assert_eq!(bytes[31], 0xEE);
}

#[test]
fn booleans_are_one_octet() {
    assert_eq!(LESetAdvertisingEnableCmd { advertising_enable: true }.to_u8_array(), vec![1]);
    assert_eq!(LESetAdvertisingEnableCmd { advertising_enable: false }.to_u8_array(), vec![0]);
}

#[test]
fn enable_record_round_trip() {
    for enable in [false, true] {
        let cmd = LESetAdvertisingEnableCmd { advertising_enable: enable };
        let back = LESetAdvertisingEnableCmd::from_u8_array(&cmd.to_u8_array()).unwrap();
        assert_eq!(back.advertising_enable, enable);
    }
}

#[test]
fn enable_record_parse() {
    assert!(LESetAdvertisingEnableCmd::from_u8_array(&[0x7F]).unwrap().advertising_enable);
    assert!(LESetAdvertisingEnableCmd::from_u8_array(&[]).is_none());
    assert!(LESetAdvertisingEnableCmd::from_u8_array(&[1, 0]).is_none());
}

#[test]
fn command_complete_wire_form() {
    let evt = CommandCompleteEvt {
        num_hci_command_packets: 5,
        opcode: 0x0C03,
        return_param: ResetRet { status: ControllerErrorCode::Success },
    };
    assert_eq!(evt.to_u8_array(), vec![5, 0x03, 0x0C, 0x00]);
}

#[test]
fn command_framing() {
    let c = HCICommandPacket { packet: HCIPacket::Command, opcode: 0x200A, param: Some(vec![1]) };
    assert_eq!(frame_command(&c), vec![0x01, 0x0A, 0x20, 0x01, 0x01]);
    let c = HCICommandPacket { packet: HCIPacket::Command, opcode: 0x0C03, param: None };
    assert_eq!(frame_command(&c), vec![0x01, 0x03, 0x0C, 0x00]);
}

#[test]
fn packet_and_event_codes() {
    assert_eq!(HCIPacket::Command.to_u8(), 1);
    assert_eq!(HCIPacket::Event.to_u8(), 4);
    assert_eq!(HCIPacket::from_u8(2), Some(HCIPacket::ACL));
    assert_eq!(HCIPacket::from_u8(0), None);
    assert_eq!(HCIEvent::from_u8(0x0E), Some(HCIEvent::CommandComplete));
    assert_eq!(HCIEvent::from_u8(0x0F), None);
    assert_eq!(HCIEvent::CommandComplete.code(), 0x0E);
}

#[test]
fn address_comparison() {
    assert!(bd_addr_eq(&[1, 2, 3, 4, 5, 6], &[1, 2, 3, 4, 5, 6]));
    assert!(!bd_addr_eq(&[1, 2, 3, 4, 5, 6], &[1, 2, 3, 4, 5, 7]));
}

#[test]
fn event_mask_round_trip() {
    for mask in [0u64, 1, 0x0102030405060708, u64::MAX, 0x8000_0000_0000_0000] {
        let cmd = SetEventMaskCmd { event_mask: mask };
        assert_eq!(SetEventMaskCmd::from_u8_array(&cmd.to_u8_array()).unwrap().event_mask, mask);
        let cmd = LESetEventMaskCmd { le_event_mask: mask };
        assert_eq!(LESetEventMaskCmd::from_u8_array(&cmd.to_u8_array()).unwrap().le_event_mask, mask);
    }
}

#[test]
fn event_mask_parse_needs_eight_octets() {
    assert_eq!(
        SetEventMaskCmd::from_u8_array(&[1, 0, 0, 0, 0, 0, 0, 0x80]).unwrap().event_mask,
        0x8000_0000_0000_0001
    );
    assert!(SetEventMaskCmd::from_u8_array(&[1, 2, 3, 4, 5, 6, 7]).is_none());
    assert!(SetEventMaskCmd::from_u8_array(&[0; 9]).is_none());
}
