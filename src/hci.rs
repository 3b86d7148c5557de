//! A bare HCI endpoint: a device address, an optional sender handle, and
//! whether a transport is attached.
use vstd::prelude::*;

use crate::BDAddr;

verus! {

/// An HCI endpoint with a device address and a sender handle of type `T`.
pub struct Hci<T> {
    bd_addr: BDAddr,
    sender: Option<T>,
    attached: bool,
}

impl<T> Hci<T> {
    /// The device address.
    pub closed spec fn spec_bd_addr(&self) -> BDAddr {
        self.bd_addr
    }

    /// The sender handle, once one is set.
    pub closed spec fn spec_sender(&self) -> Option<T> {
        self.sender
    }

    /// Whether a transport is attached.
    pub closed spec fn spec_attached(&self) -> bool {
        self.attached
    }

    pub fn new(bd_addr: BDAddr) -> (r: Hci<T>)
        ensures
            r.spec_bd_addr() == bd_addr,
            r.spec_sender() is None,
            !r.spec_attached(),
    {
        Hci { bd_addr, sender: None, attached: false }
    }

    pub fn get_bd_addr(&self) -> (r: BDAddr)
        ensures
            r == self.spec_bd_addr(),
    {
        self.bd_addr
    }

    pub fn set_sender(&mut self, sender: T)
        ensures
            final(self).spec_sender() == Some(sender),
            final(self).spec_bd_addr() == old(self).spec_bd_addr(),
            final(self).spec_attached() == old(self).spec_attached(),
    {
        self.sender = Some(sender);
    }

    pub fn get_sender(&self) -> (r: &Option<T>)
        ensures
            *r == self.spec_sender(),
    {
        &self.sender
    }

    /// Attaches the transport.
    pub fn set_send_packet(&mut self)
        ensures
            final(self).spec_attached(),
            final(self).spec_sender() == old(self).spec_sender(),
            final(self).spec_bd_addr() == old(self).spec_bd_addr(),
    {
        self.attached = true;
    }

    /// Command data carries nothing this endpoint acts on.
    pub fn recv_ce_data(&mut self, _data: Vec<u8>)
        ensures
            final(self).spec_sender() == old(self).spec_sender(),
            final(self).spec_bd_addr() == old(self).spec_bd_addr(),
            final(self).spec_attached() == old(self).spec_attached(),
    {
    }

    /// ACL data is not handled by this endpoint.
    pub fn recv_acl_data(&mut self, _data: Vec<u8>)
        ensures
            final(self).spec_sender() == old(self).spec_sender(),
            final(self).spec_bd_addr() == old(self).spec_bd_addr(),
            final(self).spec_attached() == old(self).spec_attached(),
    {
    }
}

} // verus!
