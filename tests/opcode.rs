use rblue::host::hci::{opcode_to_ocf, opcode_to_ogf};
use rblue::host::opcode::into_opcode;

#[test]
fn pack_reset_opcode() {
    assert_eq!(into_opcode(3, 3), 0x0C03);
}

#[test]
fn unpack_reset_opcode() {
    assert_eq!(opcode_to_ogf(0x0C03), 3);
    assert_eq!(opcode_to_ocf(0x0C03), 3);
}

#[test]
fn pack_le_create_connection_opcode() {
    assert_eq!(into_opcode(8, 0x000D), 0x200D);
}

#[test]
fn unpack_then_pack_gives_opcode_back() {
    for opcode in [0x0000u16, 0x0C03, 0x200D, 0x1009, 0xFFFF, 0x03FF, 0xFC00] {
        assert_eq!(into_opcode(opcode_to_ogf(opcode), opcode_to_ocf(opcode)), opcode);
        assert_eq!(opcode_to_ogf(opcode) as u16, opcode >> 10);
        assert_eq!(opcode_to_ocf(opcode), opcode & 0x3FF);
    }
}
