use rblue::host::hci::{gap_advertisements_enable, gap_advertisements_set_params, BTCmd, HCI};
use rblue::host::{
    AdvertisingFilterPolicy, AdvertisingType, LEAddressType, LE_ADV_STATE_ACTIVE,
    LE_ADV_STATE_ENABLED, LE_ADV_TODO_SET_PARAMS,
};

fn host() -> HCI {
    let mut hci = HCI::new([1, 0, 0, 0, 0, 0]);
    hci.set_send_packet();
    hci
}

fn set_params(hci: &mut HCI) {
    gap_advertisements_set_params(
        hci,
        0x0030,
        0x0040,
        AdvertisingType::NonConnectable,
        LEAddressType::RandomIdentity,
        [6, 5, 4, 3, 2, 1],
        0x07,
        AdvertisingFilterPolicy::FilterBoth,
    );
}

const PARAMS_WIRE: [u8; 15] =
    [0x30, 0x00, 0x40, 0x00, 0x03, 0x00, 0x01, 6, 5, 4, 3, 2, 1, 0x07, 0x03];

#[test]
fn reconcile_with_both_toggles() {
    let mut hci = host();
    let s = hci.le_advertisements_state();
    assert_eq!(s.bits, 0);
    assert_eq!(hci.le_advertisements_todo().bits, 0);

    set_params(&mut hci);
    let out = hci.take_outbound();
    assert_eq!(out.len(), 1);
    assert_eq!(out[0].opcode, 0x2006);
    assert_eq!(out[0].param, Some(PARAMS_WIRE.to_vec()));
    assert_eq!(hci.le_advertisements_todo().bits & LE_ADV_TODO_SET_PARAMS, 0);
    assert_eq!(hci.le_advertisements_state().bits & LE_ADV_STATE_ACTIVE, 0);

    gap_advertisements_enable(&mut hci, true);
    let out = hci.take_outbound();
    assert_eq!(out.len(), 1);
    assert_eq!(out[0].opcode, 0x200A);
    assert_eq!(out[0].param, Some(vec![1]));
    assert_eq!(hci.le_advertisements_state().bits & LE_ADV_STATE_ACTIVE, LE_ADV_STATE_ACTIVE);

    set_params(&mut hci);
    let out = hci.take_outbound();
    assert_eq!(out.len(), 3);
    assert_eq!(out[0].opcode, 0x200A);
    assert_eq!(out[0].param, Some(vec![0]));
    assert_eq!(out[1].opcode, 0x2006);
    assert_eq!(out[1].param, Some(PARAMS_WIRE.to_vec()));
    assert_eq!(out[2].opcode, 0x200A);
    assert_eq!(out[2].param, Some(vec![1]));
    assert_eq!(hci.le_advertisements_state().bits, LE_ADV_STATE_ACTIVE | LE_ADV_STATE_ENABLED);
    assert_eq!(hci.le_advertisements_todo().bits, 0);
}

#[test]
fn disable_clears_active() {
    let mut hci = host();
    gap_advertisements_enable(&mut hci, true);
    hci.take_outbound();
    gap_advertisements_enable(&mut hci, false);
    let out = hci.take_outbound();
    assert_eq!(out.len(), 1);
    assert_eq!(out[0].opcode, 0x200A);
    assert_eq!(out[0].param, Some(vec![0]));
    assert_eq!(hci.le_advertisements_state().bits, 0);
    gap_advertisements_enable(&mut hci, false);
    assert_eq!(hci.take_outbound().len(), 0);
}

#[test]
fn enable_twice_sends_once() {
    let mut hci = host();
    gap_advertisements_enable(&mut hci, true);
    gap_advertisements_enable(&mut hci, true);
    assert_eq!(hci.take_outbound().len(), 1);
}

#[test]
fn le_advertise_command_toggles_advertising() {
    let mut hci = host();
    BTCmd::LEAdvertise(true).exec(&mut hci);
    let out = hci.take_outbound();
    assert_eq!(out.len(), 1);
    assert_eq!(out[0].param, Some(vec![1]));
    BTCmd::LEAdvertise(false).exec(&mut hci);
    let out = hci.take_outbound();
    assert_eq!(out.len(), 1);
    assert_eq!(out[0].param, Some(vec![0]));
}

#[test]
fn advertising_waits_for_boot() {
    let mut hci = host();
    BTCmd::On.exec(&mut hci);
    hci.take_outbound();
    gap_advertisements_enable(&mut hci, true);
    assert_eq!(hci.take_outbound().len(), 0);
    assert_eq!(hci.le_advertisements_state().bits, LE_ADV_STATE_ENABLED);
}
