//! The 16-bit HCI opcode: an Opcode Group Field (OGF) in the top six bits and
//! an Opcode Command Field (OCF) in the low ten.
use vstd::prelude::*;

verus! {

/// The opcode with group `ogf` and command `ocf`.
pub open spec fn pack_spec(ogf: u8, ocf: u16) -> u16 {
    (((ogf as u16) << 10u16) | ocf) as u16
}

/// Packs a group and a command field into an opcode.
pub fn into_opcode(ogf: u8, ocf: u16) -> (r: u16)
    ensures
        r == pack_spec(ogf, ocf),
{
    (ogf as u16) << 10u16 | ocf
}

/// Within their ranges, packing is `ogf * 1024 + ocf`.
pub proof fn lemma_pack_value(ogf: u8, ocf: u16)
    requires
        ogf < 64,
        ocf < 0x400,
    ensures
        pack_spec(ogf, ocf) as int == ogf as int * 1024 + ocf as int,
{
    assert((((ogf as u16) << 10u16) | ocf) as u16 as int == ogf as int * 1024 + ocf as int)
        by (bit_vector)
        requires
            ogf < 64,
            ocf < 0x400,
    ;
}

/// The group field of an opcode.
pub fn opcode_to_ogf(opcode: u16) -> (r: u8)
    ensures
        r == opcode >> 10u16,
        r == opcode / 1024,
{
    assert(opcode >> 10u16 == opcode / 1024) by (bit_vector);
    (opcode >> 10u16) as u8
}

/// The command field of an opcode.
pub fn opcode_to_ocf(opcode: u16) -> (r: u16)
    ensures
        r == opcode & 0x3ff,
        r == opcode % 1024,
{
    assert(opcode & 0x3ff == opcode % 1024) by (bit_vector);
    opcode & 0x3ff
}

/// Splitting an opcode and packing the halves again gives the opcode back, and
/// packing a valid pair then splitting it gives the pair back.
pub proof fn lemma_opcode_round_trip(opcode: u16, ogf: u8, ocf: u16)
    requires
        ogf < 64,
        ocf < 0x400,
    ensures
        pack_spec((opcode >> 10u16) as u8, opcode & 0x3ff) == opcode,
        (pack_spec(ogf, ocf) >> 10u16) as u8 == ogf,
        pack_spec(ogf, ocf) & 0x3ff == ocf,
{
    assert(((((opcode >> 10u16) as u8) as u16) << 10u16 | (opcode & 0x3ff)) as u16 == opcode)
        by (bit_vector);
    assert((((((ogf as u16) << 10u16) | ocf) as u16 >> 10u16) as u8) == ogf) by (bit_vector)
        requires
            ogf < 64,
            ocf < 0x400,
    ;
    assert((((ogf as u16) << 10u16) | ocf) as u16 & 0x3ff == ocf) by (bit_vector)
        requires
            ogf < 64,
            ocf < 0x400,
    ;
}

} // verus!
