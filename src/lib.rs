//! A Bluetooth host stack core and a controller shim that talk over HCI.
use vstd::prelude::*;

pub mod baseband;
pub mod hci;
pub mod host;

verus! {

/// A 48-bit device address, least significant octet first.
pub type BDAddr = [u8; 6];

/// Whether two device addresses hold the same octets.
pub fn bd_addr_eq(a: &BDAddr, b: &BDAddr) -> (r: bool)
    ensures
        r == (a@ == b@),
{
    let mut i: usize = 0;
    while i < 6
        invariant
            i <= 6,
            a@.len() == 6,
            b@.len() == 6,
            forall|k: int| 0 <= k < i ==> a@[k] == b@[k],
        decreases 6 - i,
    {
        if a[i] != b[i] {
            return false;
        }
        i = i + 1;
    }
    assert(a@ =~= b@);
    true
}

} // verus!
