use rblue::host::hci::{BTCmd, HCI};

fn host() -> HCI {
    let mut hci = HCI::new([2, 0, 0, 0, 0, 0]);
    hci.set_send_packet();
    hci
}

#[test]
fn duplicate_connect_sends_nothing() {
    let mut hci = host();
    BTCmd::Connect([1, 0, 0, 0, 0, 0]).exec(&mut hci);
    assert_eq!(hci.connection_count(), 1);
    hci.take_outbound();
    BTCmd::Connect([1, 0, 0, 0, 0, 0]).exec(&mut hci);
    assert_eq!(hci.take_outbound().len(), 0);
    assert_eq!(hci.connection_count(), 1);
}

#[test]
fn connect_sends_create_connection() {
    let mut hci = host();
    BTCmd::Connect([1, 2, 3, 4, 5, 6]).exec(&mut hci);
    let out = hci.take_outbound();
    assert_eq!(out.len(), 1);
    assert_eq!(out[0].opcode, 0x0405);
    assert_eq!(
        out[0].param,
        Some(vec![1, 2, 3, 4, 5, 6, 0x08, 0x00, 0x00, 0x00, 0x00, 0x00, 0x01])
    );
}

#[test]
fn le_connect_sends_le_create_connection() {
    let mut hci = host();
    BTCmd::LEConnect([9, 8, 7, 6, 5, 4]).exec(&mut hci);
    let out = hci.take_outbound();
    assert_eq!(out.len(), 1);
    assert_eq!(out[0].opcode, 0x200D);
    assert_eq!(
        out[0].param,
        Some(vec![
            16, 0, 16, 0, 0, 0, 9, 8, 7, 6, 5, 4, 0, 6, 0, 7, 0, 0, 0, 10, 0, 0, 0, 0, 0
        ])
    );
    assert_eq!(hci.connection_count(), 0);
}

#[test]
fn le_connect_to_a_known_address_sends_nothing() {
    let mut hci = host();
    BTCmd::Connect([9, 8, 7, 6, 5, 4]).exec(&mut hci);
    hci.take_outbound();
    BTCmd::LEConnect([9, 8, 7, 6, 5, 4]).exec(&mut hci);
    assert_eq!(hci.take_outbound().len(), 0);
}

#[test]
fn distinct_addresses_are_both_connected() {
    let mut hci = host();
    BTCmd::Connect([1, 0, 0, 0, 0, 0]).exec(&mut hci);
    BTCmd::Connect([1, 0, 0, 0, 0, 1]).exec(&mut hci);
    assert_eq!(hci.connection_count(), 2);
    assert_eq!(hci.take_outbound().len(), 2);
}
