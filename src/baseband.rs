//! The controller shim: it takes HCI command packets from the host, looks the
//! opcode up in its dispatch table, and answers with Command Complete events.
use vstd::prelude::*;

pub mod hci;

use crate::host::hci::{
    le_u16_at, opcode_to_ocf, opcode_to_ogf, read_u16_le, HCIEvent, HCIPacket,
};
use crate::host::u16_le;
use hci::{dispatch, hci_cmd_table, lookup_spec, table_spec, NUM_HCI_COMMAND_PACKETS};

verus! {

/// The status of a command that the controller completed.
#[derive(Clone, Copy, PartialEq, Eq, Structural, Debug)]
pub enum ControllerErrorCode {
    Success,
}

impl ControllerErrorCode {
    /// The octet that stands for this value on the wire.
    pub open spec fn wire_code(&self) -> u8 {
        match self {
            ControllerErrorCode::Success => 0,
        }
    }

    pub fn to_le_bytes(&self) -> (r: [u8; 1])
        ensures
            r@ == seq![self.wire_code()],
    {
        let r = match self {
            ControllerErrorCode::Success => [0u8],
        };
        assert(r@ =~= seq![self.wire_code()]);
        r
    }
}

/// The mathematical form of the controller.
pub struct ControlView {
    pub id: u8,
    /// The logical power flag.
    pub powered: bool,
    /// Whether the link towards the host is attached; without it, packets for
    /// the host are dropped.
    pub upper_attached: bool,
    /// Whether the link towards the radio is attached.
    pub lower_attached: bool,
    /// The packets for the host not yet taken.
    pub upper_outbox: Seq<Seq<u8>>,
}

impl ControlView {
    /// The controller after handing `p` to the host.
    pub open spec fn to_upper(self, p: Seq<u8>) -> ControlView {
        if self.upper_attached {
            ControlView { upper_outbox: self.upper_outbox.push(p), ..self }
        } else {
            self
        }
    }

    /// The controller after sending the event `code` with parameters `params`.
    pub open spec fn event(self, code: u8, params: Seq<u8>) -> ControlView {
        self.to_upper(seq![HCIPacket::Event.spec_code(), code, params.len() as u8] + params)
    }

    /// The controller after answering `opcode` with a Command Complete whose
    /// return parameters are `ret`.
    pub open spec fn complete(self, opcode: u16, ret: Seq<u8>) -> ControlView {
        self.event(
            HCIEvent::CommandComplete.spec_code(),
            seq![NUM_HCI_COMMAND_PACKETS] + u16_le(opcode) + ret,
        )
    }

    /// The controller after a command packet from the host: a packet of at
    /// least three octets of type Command whose opcode has an entry in the
    /// dispatch table runs that entry's handler; anything else is dropped.
    pub open spec fn on_host_packet(self, p: Seq<u8>) -> ControlView {
        if p.len() >= 3 && p[0] == HCIPacket::Command.spec_code() {
            match lookup_spec(table_spec(), le_u16_at(p, 1)) {
                Some(e) => self.handle(e.handle, le_u16_at(p, 1)),
                None => self,
            }
        } else {
            self
        }
    }
}

/// The controller.
pub struct Control {
    pub id: u8,
    powered: bool,
    upper_attached: bool,
    lower_attached: bool,
    upper_outbox: Vec<Vec<u8>>,
}

impl View for Control {
    type V = ControlView;

    closed spec fn view(&self) -> ControlView {
        ControlView {
            id: self.id,
            powered: self.powered,
            upper_attached: self.upper_attached,
            lower_attached: self.lower_attached,
            upper_outbox: self.upper_outbox@.map_values(|p: Vec<u8>| p@),
        }
    }
}

impl Control {
    /// A powered controller with neither link attached.
    pub fn new(id: u8) -> (r: Control)
        ensures
            r@.id == id,
            r@.powered,
            !r@.upper_attached,
            !r@.lower_attached,
            r@.upper_outbox.len() == 0,
    {
        Control {
            id,
            powered: true,
            upper_attached: false,
            lower_attached: false,
            upper_outbox: Vec::new(),
        }
    }

    /// Attaches the link towards the host: from now on the controller's
    /// packets for it are queued, where before they were dropped.
    pub fn set_upper_send_packet(&mut self)
        ensures
            final(self)@ == (ControlView { upper_attached: true, ..old(self)@ }),
    {
        self.upper_attached = true;
    }

    /// Attaches the link towards the radio.
    pub fn set_lower_send_packet(&mut self)
        ensures
            final(self)@ == (ControlView { lower_attached: true, ..old(self)@ }),
    {
        self.lower_attached = true;
    }

    /// Hands the packets queued for the host to the caller, oldest first.
    pub fn take_upper_packets(&mut self) -> (r: Vec<Vec<u8>>)
        ensures
            r@.map_values(|p: Vec<u8>| p@) == old(self)@.upper_outbox,
            final(self)@ == (ControlView { upper_outbox: Seq::empty(), ..old(self)@ }),
    {
        let mut r: Vec<Vec<u8>> = Vec::new();
        r.append(&mut self.upper_outbox);
        assert(r@ =~= old(self).upper_outbox@);
        assert(self@.upper_outbox =~= Seq::empty());
        r
    }

    /// The logical power flag.
    pub fn is_powered(&self) -> (r: bool)
        ensures
            r == self@.powered,
    {
        self.powered
    }

    /// Passes a packet from the radio up to the host.
    pub fn recv_phy_packet(&mut self, packet: Vec<u8>)
        ensures
            final(self)@ == old(self)@.to_upper(packet@),
    {
        self.send_to_upper(packet);
    }

    /// Takes in a framed command packet from the host and answers it. A
    /// packet shorter than three octets, of another type than Command, or
    /// whose opcode has no entry in the dispatch table, is dropped.
    pub fn recv_host_packet(&mut self, packet: Vec<u8>)
        ensures
            final(self)@ == old(self)@.on_host_packet(packet@),
    {
        if packet.len() < 3 {
            return;
        }
        if packet[0] != HCIPacket::Command.to_u8() {
            return;
        }
        let opcode = read_u16_le(&packet, 1);
        let ogf = opcode_to_ogf(opcode);
        let ocf = opcode_to_ocf(opcode);
        let table = hci_cmd_table();
        if ogf == 0 || ogf as usize > table.len() {
            return;
        }
        let row = &table[ogf as usize - 1];
        if ocf == 0 || ocf as usize > row.len() {
            return;
        }
        match row[ocf as usize - 1] {
            Some(cmd) => dispatch(self, cmd.handle, opcode),
            None => {},
        }
    }

    /// Brings the controller back to its power-on state, which clears the
    /// logical power flag.
    fn power_on(&mut self)
        ensures
            final(self)@ == (ControlView { powered: false, ..old(self)@ }),
    {
        self.powered = false;
    }

    fn send_to_upper(&mut self, packet: Vec<u8>)
        ensures
            final(self)@ == old(self)@.to_upper(packet@),
    {
        if self.upper_attached {
            let ghost p = packet@;
            self.upper_outbox.push(packet);
            assert(self@.upper_outbox =~= old(self)@.upper_outbox.push(p));
        }
    }

    fn send_event(&mut self, code: u8, packet: Vec<u8>)
        requires
            packet@.len() < 256,
        ensures
            final(self)@ == old(self)@.event(code, packet@),
    {
        if self.upper_attached {
            let mut tmp: Vec<u8> = vec![HCIPacket::Event.to_u8(), code, packet.len() as u8];
            let ghost p = packet@;
            let mut rest = packet;
            tmp.append(&mut rest);
            assert(tmp@ =~= seq![HCIPacket::Event.spec_code(), code, p.len() as u8] + p);
            self.send_to_upper(tmp);
        }
    }
}

} // verus!
