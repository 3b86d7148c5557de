use rblue::baseband::hci::{
    compute_hci_cmd_flag, compute_hci_cmd_support, hci_cmd_table, supported_commands, CmdHandler,
    HCICmdTable,
};
use rblue::baseband::Control;

fn attached_controller() -> Control {
    let mut bb = Control::new(0);
    bb.set_upper_send_packet();
    bb
}

#[test]
fn reset_is_answered_with_command_complete() {
    let mut bb = attached_controller();
    bb.recv_host_packet(vec![0x01, 0x03, 0x0C, 0x00]);
    let out = bb.take_upper_packets();
    assert_eq!(out, vec![vec![0x04, 0x0E, 0x04, 0x05, 0x03, 0x0C, 0x00]]);
    assert!(!bb.is_powered());
}

#[test]
fn supported_commands_of_two_entries() {
    let table = vec![
        vec![],
        vec![],
        vec![
            None,
            None,
            Some(HCICmdTable { flag: compute_hci_cmd_flag(5, 0x80), handle: CmdHandler::Reset }),
        ],
        vec![
            None,
            Some(HCICmdTable {
                flag: compute_hci_cmd_flag(14, 0x10),
                handle: CmdHandler::ReadLocalSupportedCommands,
            }),
        ],
        vec![],
        vec![],
        vec![],
        vec![],
    ];
    let bitmap = compute_hci_cmd_support(&table);
    for (k, byte) in bitmap.iter().enumerate() {
        match k {
            5 => assert_eq!(*byte, 0x80),
            14 => assert_eq!(*byte, 0x10),
            _ => assert_eq!(*byte, 0, "octet {}", k),
        }
    }
}

#[test]
fn supported_commands_of_the_controller() {
    let bitmap = supported_commands();
    let mut expected = [0u8; 64];
    expected[5] = 0xC0;
    expected[14] = 0xB0;
    expected[15] = 0x02;
    expected[25] = 0xE7;
    expected[26] = 0x03;
    assert_eq!(bitmap, expected);
    assert_eq!(compute_hci_cmd_support(&hci_cmd_table()), expected);
}

#[test]
fn entries_sharing_an_octet_are_joined() {
    let entry = |byte: u8, bit: u8| Some(HCICmdTable {
        flag: compute_hci_cmd_flag(byte, bit),
        handle: CmdHandler::Reset,
    });
    let table = vec![vec![entry(3, 0x01), None, entry(3, 0x04)], vec![entry(3, 0x01), entry(63, 0x80)]];
    let bitmap = compute_hci_cmd_support(&table);
    assert_eq!(bitmap[3], 0x05);
    assert_eq!(bitmap[63], 0x80);
    assert_eq!(bitmap.iter().filter(|b| **b != 0).count(), 2);
}

#[test]
fn flag_packs_octet_and_mask() {
    assert_eq!(compute_hci_cmd_flag(14, 0x10), 0x0E10);
    assert_eq!(compute_hci_cmd_flag(5, 0x80), 0x0580);
}

#[test]
fn read_local_supported_commands_returns_the_bitmap() {
    let mut bb = attached_controller();
    bb.recv_host_packet(vec![0x01, 0x02, 0x10, 0x00]);
    let out = bb.take_upper_packets();
    assert_eq!(out.len(), 1);
    let p = &out[0];
    assert_eq!(p.len(), 3 + 4 + 64);
    assert_eq!(&p[..7], &[0x04, 0x0E, 68, 0x05, 0x02, 0x10, 0x00]);
    assert_eq!(p[7 + 5], 0xC0);
    assert_eq!(p[7 + 25], 0xE7);
    assert!(bb.is_powered());
}

#[test]
fn read_buffer_size_returns_zeros() {
    let mut bb = attached_controller();
    bb.recv_host_packet(vec![0x01, 0x05, 0x10, 0x00]);
    let out = bb.take_upper_packets();
    assert_eq!(out, vec![vec![0x04, 0x0E, 11, 0x05, 0x05, 0x10, 0x00, 0, 0, 0, 0, 0, 0, 0]]);
}

#[test]
fn read_bd_address_returns_zero_address() {
    let mut bb = attached_controller();
    bb.recv_host_packet(vec![0x01, 0x09, 0x10, 0x00]);
    let out = bb.take_upper_packets();
    assert_eq!(out, vec![vec![0x04, 0x0E, 10, 0x05, 0x09, 0x10, 0x00, 0, 0, 0, 0, 0, 0]]);
}

#[test]
fn le_commands_are_answered() {
    let mut bb = attached_controller();
    bb.recv_host_packet(vec![0x01, 0x0A, 0x20, 0x01, 0x01]);
    bb.recv_host_packet(vec![0x01, 0x07, 0x20, 0x00]);
    bb.recv_host_packet(vec![0x01, 0x03, 0x20, 0x00]);
    let out = bb.take_upper_packets();
    assert_eq!(out[0], vec![0x04, 0x0E, 4, 0x05, 0x0A, 0x20, 0x00]);
    assert_eq!(out[1], vec![0x04, 0x0E, 5, 0x05, 0x07, 0x20, 0x00, 0x00]);
    assert_eq!(out[2], vec![0x04, 0x0E, 12, 0x05, 0x03, 0x20, 0x00, 0, 0, 0, 0, 0, 0, 0, 0]);
}

#[test]
fn unknown_and_short_packets_produce_nothing() {
    let mut bb = attached_controller();
    bb.recv_host_packet(vec![0x01, 0x03]);
    bb.recv_host_packet(vec![]);
    bb.recv_host_packet(vec![0x01, 0x02, 0x0C, 0x00]);
    bb.recv_host_packet(vec![0x01, 0x00, 0x00, 0x00]);
    bb.recv_host_packet(vec![0x01, 0x00, 0x0C, 0x00]);
    bb.recv_host_packet(vec![0x01, 0x01, 0x04, 0x00]);
    bb.recv_host_packet(vec![0x01, 0xFF, 0xFF, 0x00]);
    bb.recv_host_packet(vec![0x01, 0x0B, 0x20, 0x00]);
    bb.recv_host_packet(vec![0x02, 0x03, 0x0C, 0x00]);
    assert_eq!(bb.take_upper_packets().len(), 0);
    assert!(bb.is_powered());
}

#[test]
fn without_upper_link_events_are_dropped() {
    let mut bb = Control::new(3);
    bb.recv_host_packet(vec![0x01, 0x03, 0x0C, 0x00]);
    assert_eq!(bb.take_upper_packets().len(), 0);
    assert_eq!(bb.id, 3);
}

#[test]
fn phy_packets_go_up() {
    let mut bb = attached_controller();
    bb.set_lower_send_packet();
    bb.recv_phy_packet(vec![2, 7, 7]);
    assert_eq!(bb.take_upper_packets(), vec![vec![2, 7, 7]]);
}
