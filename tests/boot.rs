use rblue::host::hci::{HCIPacket, HCIState, HCISubState, HCI};
use rblue::host::HCIPowerMode;

fn command_complete(opcode: u16) -> Vec<u8> {
    let params = vec![5u8, (opcode & 0xff) as u8, (opcode >> 8) as u8, 0x00, 0, 0, 0, 0, 0, 0];
    let mut p = vec![4u8, 0x0E, params.len() as u8];
    p.extend(params);
    p
}

fn booting_host() -> HCI {
    let mut hci = HCI::new([1, 0, 0, 0, 0, 0]);
    hci.set_send_packet();
    hci
}

#[test]
fn boot_sequence_sends_commands_in_order() {
    let mut hci = booting_host();
    hci.power_control(HCIPowerMode::On);
    let expected = [0x0C03u16, 0x1002, 0x1003, 0x0C01, 0x2001, 0x2002, 0x1005, 0x2003, 0x1009];
    for (k, opcode) in expected.iter().enumerate() {
        assert_eq!(hci.state(), HCIState::Initializing);
        let out = hci.take_outbound();
        assert_eq!(out.len(), 1, "command {}", k);
        assert_eq!(out[0].packet, HCIPacket::Command);
        assert_eq!(out[0].opcode, *opcode);
        hci.recv_packet(command_complete(*opcode));
    }
    assert_eq!(hci.state(), HCIState::Working);
    assert_eq!(hci.take_outbound().len(), 0);
}

#[test]
fn event_masks_are_sent_as_zero() {
    let mut hci = booting_host();
    hci.power_control(HCIPowerMode::On);
    for opcode in [0x0C03u16, 0x1002, 0x1003] {
        hci.take_outbound();
        hci.recv_packet(command_complete(opcode));
    }
    let out = hci.take_outbound();
    assert_eq!(out[0].opcode, 0x0C01);
    assert_eq!(out[0].param, Some(vec![0u8; 8]));
    hci.recv_packet(command_complete(0x0C01));
    let out = hci.take_outbound();
    assert_eq!(out[0].opcode, 0x2001);
    assert_eq!(out[0].param, Some(vec![0u8; 8]));
    hci.recv_packet(command_complete(0x2001));
    let out = hci.take_outbound();
    assert_eq!(out[0].opcode, 0x2002);
    assert_eq!(out[0].param, None);
}

#[test]
fn wrong_opcode_leaves_boot_step_unchanged() {
    let mut hci = booting_host();
    hci.power_control(HCIPowerMode::On);
    hci.take_outbound();
    assert_eq!(hci.sub_state(), HCISubState::W4SendReset);
    hci.recv_packet(command_complete(0x1002));
    assert_eq!(hci.sub_state(), HCISubState::W4SendReset);
    assert_eq!(hci.take_outbound().len(), 0);
    hci.recv_packet(command_complete(0x0C03));
    assert_eq!(hci.sub_state(), HCISubState::W4SendReadLocalSupportedCommands);
}

#[test]
fn power_on_twice_sends_reset_once() {
    let mut hci = booting_host();
    hci.power_control(HCIPowerMode::On);
    hci.power_control(HCIPowerMode::On);
    let out = hci.take_outbound();
    assert_eq!(out.len(), 1);
    assert_eq!(out[0].opcode, 0x0C03);
}

#[test]
fn power_off_while_off_does_nothing() {
    let mut hci = booting_host();
    hci.power_control(HCIPowerMode::Off);
    assert_eq!(hci.state(), HCIState::Off);
    assert_eq!(hci.take_outbound().len(), 0);
}

#[test]
fn without_transport_packets_are_dropped() {
    let mut hci = HCI::new([1, 0, 0, 0, 0, 0]);
    hci.power_control(HCIPowerMode::On);
    assert_eq!(hci.take_outbound().len(), 0);
    assert_eq!(hci.sub_state(), HCISubState::W4SendReset);
}

#[test]
fn malformed_packets_are_dropped() {
    let mut hci = booting_host();
    hci.power_control(HCIPowerMode::On);
    hci.take_outbound();
    hci.recv_packet(vec![]);
    hci.recv_packet(vec![9, 0x0E, 4, 5, 3, 0x0C, 0]);
    hci.recv_packet(vec![4, 0x0E, 4]);
    hci.recv_packet(vec![4, 0x0F, 4, 5, 3, 0x0C, 0]);
    assert_eq!(hci.sub_state(), HCISubState::W4SendReset);
    assert_eq!(hci.take_outbound().len(), 0);
}

#[test]
fn bd_addr_is_kept() {
    let hci = HCI::new([1, 2, 3, 4, 5, 6]);
    assert_eq!(hci.get_bd_addr(), [1, 2, 3, 4, 5, 6]);
}
