//! The command and return parameter records of HCI, and their little-endian
//! wire form: each record is the concatenation of its fields in declaration
//! order, with no padding, length prefix or tag.
use vstd::prelude::*;

use super::hci::{CommandView, HCIPacket, HCI};
use super::opcode::pack_spec;
use super::{
    u16_le, AdvertisingFilterPolicy, AdvertisingType, ControllerAndBaseband, ControllerErrorCode,
    HCICmd, HCICmdSend, InformationalParam, LEAddressType, LEAddressType2, LEController,
    LinkControl, PacketType, PageScanRepetitionMode,
};
use crate::BDAddr;

verus! {

/// The 64-octet bit map of the commands that a controller supports.
pub type SupportedCommands = [u8; 64];

/// The 8-octet bit map of LMP features.
pub type LMPFeatures = [u8; 8];

/// The 31 octets of an LE advertising or scan response payload.
pub type LEAdvPacket = [u8; 31];

/// A record with a wire form.
pub trait RBlueToU8Array {
    /// The octets that stand for this record on the wire.
    spec fn wire(&self) -> Seq<u8>;

    fn to_u8_array(&self) -> (r: Vec<u8>)
        ensures
            r@ == self.wire(),
    ;
}

/// A record that can be read back from its wire form.
pub trait RBlueFromU8Array: RBlueToU8Array + Sized {
    /// The record that `bytes` stands for, if any.
    spec fn parse(bytes: Seq<u8>) -> Option<Self>;

    /// Reading back the wire form of a record gives the record.
    proof fn lemma_parse_wire(r: Self)
        ensures
            Self::parse(r.wire()) == Some(r),
    ;

    fn from_u8_array(bytes: &[u8]) -> (r: Option<Self>)
        ensures
            r == Self::parse(bytes@),
    ;
}

/// For every record that can be read back, reading back its wire form gives
/// the record.
pub proof fn lemma_round_trip<R: RBlueFromU8Array>(r: R)
    ensures
        R::parse(r.wire()) == Some(r),
{
    R::lemma_parse_wire(r);
}

/// The eight octets of `x`, least significant first.
pub open spec fn u64_le(x: u64) -> Seq<u8> {
    seq![
        x as u8,
        (x >> 8u64) as u8,
        (x >> 16u64) as u8,
        (x >> 24u64) as u8,
        (x >> 32u64) as u8,
        (x >> 40u64) as u8,
        (x >> 48u64) as u8,
        (x >> 56u64) as u8,
    ]
}

/// The 64-bit value whose octets, least significant first, are `b[0..8]`.
pub open spec fn u64_from_le(b: Seq<u8>) -> u64 {
    ((b[0] as u64) | ((b[1] as u64) << 8u64) | ((b[2] as u64) << 16u64) | ((b[3] as u64) << 24u64)
        | ((b[4] as u64) << 32u64) | ((b[5] as u64) << 40u64) | ((b[6] as u64) << 48u64) | ((
    b[7] as u64) << 56u64)) as u64
}

fn read_u64_le(bytes: &[u8]) -> (r: u64)
    requires
        bytes@.len() == 8,
    ensures
        r == u64_from_le(bytes@),
{
    (bytes[0] as u64) | ((bytes[1] as u64) << 8u64) | ((bytes[2] as u64) << 16u64) | ((
    bytes[3] as u64) << 24u64) | ((bytes[4] as u64) << 32u64) | ((bytes[5] as u64) << 40u64) | ((
    bytes[6] as u64) << 48u64) | ((bytes[7] as u64) << 56u64)
}

proof fn lemma_u64_le_round_trip(x: u64)
    ensures
        u64_from_le(u64_le(x)) == x,
{
    let b = u64_le(x);
    assert(((x as u8) as u64) | ((((x >> 8u64) as u8) as u64) << 8u64) | ((((x >> 16u64) as u8)
        as u64) << 16u64) | ((((x >> 24u64) as u8) as u64) << 24u64) | ((((x >> 32u64) as u8)
        as u64) << 32u64) | ((((x >> 40u64) as u8) as u64) << 40u64) | ((((x >> 48u64) as u8)
        as u64) << 48u64) | ((((x >> 56u64) as u8) as u64) << 56u64) == x) by (bit_vector);
}

fn push_u16_le(array: &mut Vec<u8>, x: u16)
    ensures
        final(array)@ == old(array)@ + u16_le(x),
{
    array.push((x & 0xff) as u8);
    array.push((x >> 8u16) as u8);
    assert(final(array)@ =~= old(array)@ + u16_le(x));
}

fn push_u64_le(array: &mut Vec<u8>, x: u64)
    ensures
        final(array)@ == old(array)@ + u64_le(x),
{
    array.push(x as u8);
    array.push((x >> 8u64) as u8);
    array.push((x >> 16u64) as u8);
    array.push((x >> 24u64) as u8);
    array.push((x >> 32u64) as u8);
    array.push((x >> 40u64) as u8);
    array.push((x >> 48u64) as u8);
    array.push((x >> 56u64) as u8);
    assert(final(array)@ =~= old(array)@ + u64_le(x));
}

fn push_bytes(array: &mut Vec<u8>, bytes: &[u8])
    ensures
        final(array)@ == old(array)@ + bytes@,
{
    let ghost start = array@;
    let mut i: usize = 0;
    while i < bytes.len()
        invariant
            i <= bytes@.len(),
            array@ == start + bytes@.subrange(0, i as int),
        decreases bytes@.len() - i,
    {
        array.push(bytes[i]);
        i = i + 1;
        assert(array@ =~= start + bytes@.subrange(0, i as int));
    }
    assert(bytes@.subrange(0, i as int) =~= bytes@);
}

/// The Command Complete event parameters: the number of commands the host may
/// send, the opcode being acknowledged, and that command's return record.
pub struct CommandCompleteEvt<T> {
    pub num_hci_command_packets: u8,
    pub opcode: u16,
    pub return_param: T,
}

impl<T: RBlueToU8Array> CommandCompleteEvt<T> {
    pub fn to_u8_array(&self) -> (r: Vec<u8>)
        ensures
            r@ == seq![self.num_hci_command_packets] + u16_le(self.opcode)
                + self.return_param.wire(),
    {
        let mut array: Vec<u8> = Vec::new();
        array.push(self.num_hci_command_packets);
        push_u16_le(&mut array, self.opcode);
        let mut ret = self.return_param.to_u8_array();
        array.append(&mut ret);
        array
    }
}

/// The parameters of Create Connection.
#[derive(Clone, Copy, Debug)]
pub struct CreateConnectionCmd {
    pub bd_addr: BDAddr,
    pub packet_type: PacketType,
    pub page_scan_repetition_mode: PageScanRepetitionMode,
    pub reserved: u8,
    pub clock_offset: u16,
    pub allow_role_switch: u8,
}

impl RBlueToU8Array for CreateConnectionCmd {
    open spec fn wire(&self) -> Seq<u8> {
        self.bd_addr@
            + u16_le(self.packet_type.bits)
            + seq![self.page_scan_repetition_mode.wire_code()]
            + seq![self.reserved]
            + u16_le(self.clock_offset)
            + seq![self.allow_role_switch]
    }

    fn to_u8_array(&self) -> (r: Vec<u8>) {
        let mut array: Vec<u8> = Vec::new();
        push_bytes(&mut array, &self.bd_addr);
        push_u16_le(&mut array, self.packet_type.bits);
        push_bytes(&mut array, &self.page_scan_repetition_mode.to_le_bytes());
        array.push(self.reserved);
        push_u16_le(&mut array, self.clock_offset);
        array.push(self.allow_role_switch);
        assert(array@ =~= self.wire());
        array
    }
}

impl HCICmdSend for CreateConnectionCmd {
    open spec fn command_view(&self) -> CommandView {
        CommandView {
            packet: HCIPacket::Command,
            opcode: pack_spec(
                HCICmd::LinkControl.spec_ogf(),
                LinkControl::CreateConnection.spec_ocf(),
            ),
            param: Some(self.wire()),
        }
    }

    fn send(&self, hci: &mut HCI) {
        hci.send_cmd_with_param(
            HCICmd::LinkControl.ogf(),
            LinkControl::CreateConnection.ocf(),
            self.to_u8_array(),
        );
    }
}

/// The parameters of Set Event Mask.
#[derive(Clone, Copy, Debug)]
pub struct SetEventMaskCmd {
    pub event_mask: u64,
}

impl RBlueToU8Array for SetEventMaskCmd {
    open spec fn wire(&self) -> Seq<u8> {
        u64_le(self.event_mask)
    }

    fn to_u8_array(&self) -> (r: Vec<u8>) {
        let mut array: Vec<u8> = Vec::new();
        push_u64_le(&mut array, self.event_mask);
        assert(array@ =~= self.wire());
        array
    }
}

impl HCICmdSend for SetEventMaskCmd {
    open spec fn command_view(&self) -> CommandView {
        CommandView {
            packet: HCIPacket::Command,
            opcode: pack_spec(
                HCICmd::ControllerAndBaseband.spec_ogf(),
                ControllerAndBaseband::SetEventMask.spec_ocf(),
            ),
            param: Some(self.wire()),
        }
    }

    fn send(&self, hci: &mut HCI) {
        hci.send_cmd_with_param(
            HCICmd::ControllerAndBaseband.ogf(),
            ControllerAndBaseband::SetEventMask.ocf(),
            self.to_u8_array(),
        );
    }
}

/// The return parameters of Set Event Mask.
#[derive(Clone, Copy, Debug)]
pub struct SetEventMaskRet {
    pub status: ControllerErrorCode,
}

impl RBlueToU8Array for SetEventMaskRet {
    open spec fn wire(&self) -> Seq<u8> {
        seq![self.status.wire_code()]
    }

    fn to_u8_array(&self) -> (r: Vec<u8>) {
        let mut array: Vec<u8> = Vec::new();
        push_bytes(&mut array, &self.status.to_le_bytes());
        assert(array@ =~= self.wire());
        array
    }
}

/// The parameters of Reset.
#[derive(Clone, Copy, Debug)]
pub struct ResetCmd {}

impl RBlueToU8Array for ResetCmd {
    open spec fn wire(&self) -> Seq<u8> {
        Seq::empty()
    }

    fn to_u8_array(&self) -> (r: Vec<u8>) {
        let mut array: Vec<u8> = Vec::new();
        assert(array@ =~= self.wire());
        array
    }
}

impl HCICmdSend for ResetCmd {
    open spec fn command_view(&self) -> CommandView {
        CommandView {
            packet: HCIPacket::Command,
            opcode: pack_spec(
                HCICmd::ControllerAndBaseband.spec_ogf(),
                ControllerAndBaseband::Reset.spec_ocf(),
            ),
            param: None,
        }
    }

    fn send(&self, hci: &mut HCI) {
        hci.send_cmd_no_param(
            HCICmd::ControllerAndBaseband.ogf(),
            ControllerAndBaseband::Reset.ocf(),
        );
    }
}

/// The return parameters of Reset.
#[derive(Clone, Copy, Debug)]
pub struct ResetRet {
    pub status: ControllerErrorCode,
}

impl RBlueToU8Array for ResetRet {
    open spec fn wire(&self) -> Seq<u8> {
        seq![self.status.wire_code()]
    }

    fn to_u8_array(&self) -> (r: Vec<u8>) {
        let mut array: Vec<u8> = Vec::new();
        push_bytes(&mut array, &self.status.to_le_bytes());
        assert(array@ =~= self.wire());
        array
    }
}

/// The parameters of Read Local Supported Commands.
#[derive(Clone, Copy, Debug)]
pub struct ReadLocalSupportedCommandsCmd {}

impl RBlueToU8Array for ReadLocalSupportedCommandsCmd {
    open spec fn wire(&self) -> Seq<u8> {
        Seq::empty()
    }

    fn to_u8_array(&self) -> (r: Vec<u8>) {
        let mut array: Vec<u8> = Vec::new();
        assert(array@ =~= self.wire());
        array
    }
}

impl HCICmdSend for ReadLocalSupportedCommandsCmd {
    open spec fn command_view(&self) -> CommandView {
        CommandView {
            packet: HCIPacket::Command,
            opcode: pack_spec(
                HCICmd::InformationalParam.spec_ogf(),
                InformationalParam::ReadLocalSupportedCommands.spec_ocf(),
            ),
            param: None,
        }
    }

    fn send(&self, hci: &mut HCI) {
        hci.send_cmd_no_param(
            HCICmd::InformationalParam.ogf(),
            InformationalParam::ReadLocalSupportedCommands.ocf(),
        );
    }
}

/// The return parameters of Read Local Supported Commands.
#[derive(Clone, Copy, Debug)]
pub struct ReadLocalSupportedCommandsRet {
    pub status: ControllerErrorCode,
    pub supported_commands: SupportedCommands,
}

impl RBlueToU8Array for ReadLocalSupportedCommandsRet {
    open spec fn wire(&self) -> Seq<u8> {
        seq![self.status.wire_code()]
            + self.supported_commands@
    }

    fn to_u8_array(&self) -> (r: Vec<u8>) {
        let mut array: Vec<u8> = Vec::new();
        push_bytes(&mut array, &self.status.to_le_bytes());
        push_bytes(&mut array, &self.supported_commands);
        assert(array@ =~= self.wire());
        array
    }
}

/// The parameters of Read Local Supported Features.
#[derive(Clone, Copy, Debug)]
pub struct ReadLocalSupportedFeaturesCmd {}

impl RBlueToU8Array for ReadLocalSupportedFeaturesCmd {
    open spec fn wire(&self) -> Seq<u8> {
        Seq::empty()
    }

    fn to_u8_array(&self) -> (r: Vec<u8>) {
        let mut array: Vec<u8> = Vec::new();
        assert(array@ =~= self.wire());
        array
    }
}

impl HCICmdSend for ReadLocalSupportedFeaturesCmd {
    open spec fn command_view(&self) -> CommandView {
        CommandView {
            packet: HCIPacket::Command,
            opcode: pack_spec(
                HCICmd::InformationalParam.spec_ogf(),
                InformationalParam::ReadLocalSupportedFeatures.spec_ocf(),
            ),
            param: None,
        }
    }

    fn send(&self, hci: &mut HCI) {
        hci.send_cmd_no_param(
            HCICmd::InformationalParam.ogf(),
            InformationalParam::ReadLocalSupportedFeatures.ocf(),
        );
    }
}

/// The return parameters of Read Local Supported Features.
#[derive(Clone, Copy, Debug)]
pub struct ReadLocalSupportedFeaturesRet {
    pub status: ControllerErrorCode,
    pub lmp_feature: LMPFeatures,
}

impl RBlueToU8Array for ReadLocalSupportedFeaturesRet {
    open spec fn wire(&self) -> Seq<u8> {
        seq![self.status.wire_code()]
            + self.lmp_feature@
    }

    fn to_u8_array(&self) -> (r: Vec<u8>) {
        let mut array: Vec<u8> = Vec::new();
        push_bytes(&mut array, &self.status.to_le_bytes());
        push_bytes(&mut array, &self.lmp_feature);
        assert(array@ =~= self.wire());
        array
    }
}

/// The parameters of Read Buffer Size.
#[derive(Clone, Copy, Debug)]
pub struct ReadBufferSizeCmd {}

impl RBlueToU8Array for ReadBufferSizeCmd {
    open spec fn wire(&self) -> Seq<u8> {
        Seq::empty()
    }

    fn to_u8_array(&self) -> (r: Vec<u8>) {
        let mut array: Vec<u8> = Vec::new();
        assert(array@ =~= self.wire());
        array
    }
}

impl HCICmdSend for ReadBufferSizeCmd {
    open spec fn command_view(&self) -> CommandView {
        CommandView {
            packet: HCIPacket::Command,
            opcode: pack_spec(
                HCICmd::InformationalParam.spec_ogf(),
                InformationalParam::ReadBufferSize.spec_ocf(),
            ),
            param: None,
        }
    }

    fn send(&self, hci: &mut HCI) {
        hci.send_cmd_no_param(
            HCICmd::InformationalParam.ogf(),
            InformationalParam::ReadBufferSize.ocf(),
        );
    }
}

/// The return parameters of Read Buffer Size.
#[derive(Clone, Copy, Debug)]
pub struct ReadBufferSizeRet {
    pub status: ControllerErrorCode,
    pub acl_data_packet_length: u16,
    pub synchronous_data_packet_length: u8,
    pub total_num_acl_data_packets: u16,
    pub total_num_synchronous_data_packets: u16,
}

impl RBlueToU8Array for ReadBufferSizeRet {
    open spec fn wire(&self) -> Seq<u8> {
        seq![self.status.wire_code()]
            + u16_le(self.acl_data_packet_length)
            + seq![self.synchronous_data_packet_length]
            + u16_le(self.total_num_acl_data_packets)
            + u16_le(self.total_num_synchronous_data_packets)
    }

    fn to_u8_array(&self) -> (r: Vec<u8>) {
        let mut array: Vec<u8> = Vec::new();
        push_bytes(&mut array, &self.status.to_le_bytes());
        push_u16_le(&mut array, self.acl_data_packet_length);
        array.push(self.synchronous_data_packet_length);
        push_u16_le(&mut array, self.total_num_acl_data_packets);
        push_u16_le(&mut array, self.total_num_synchronous_data_packets);
        assert(array@ =~= self.wire());
        array
    }
}

/// The parameters of Read BD_ADDR.
#[derive(Clone, Copy, Debug)]
pub struct ReadBDAddrCmd {}

impl RBlueToU8Array for ReadBDAddrCmd {
    open spec fn wire(&self) -> Seq<u8> {
        Seq::empty()
    }

    fn to_u8_array(&self) -> (r: Vec<u8>) {
        let mut array: Vec<u8> = Vec::new();
        assert(array@ =~= self.wire());
        array
    }
}

impl HCICmdSend for ReadBDAddrCmd {
    open spec fn command_view(&self) -> CommandView {
        CommandView {
            packet: HCIPacket::Command,
            opcode: pack_spec(
                HCICmd::InformationalParam.spec_ogf(),
                InformationalParam::ReadBDAddr.spec_ocf(),
            ),
            param: None,
        }
    }

    fn send(&self, hci: &mut HCI) {
        hci.send_cmd_no_param(
            HCICmd::InformationalParam.ogf(),
            InformationalParam::ReadBDAddr.ocf(),
        );
    }
}

/// The return parameters of Read BD_ADDR.
#[derive(Clone, Copy, Debug)]
pub struct ReadBDAddrRet {
    pub status: ControllerErrorCode,
    pub bd_addr: BDAddr,
}

impl RBlueToU8Array for ReadBDAddrRet {
    open spec fn wire(&self) -> Seq<u8> {
        seq![self.status.wire_code()]
            + self.bd_addr@
    }

    fn to_u8_array(&self) -> (r: Vec<u8>) {
        let mut array: Vec<u8> = Vec::new();
        push_bytes(&mut array, &self.status.to_le_bytes());
        push_bytes(&mut array, &self.bd_addr);
        assert(array@ =~= self.wire());
        array
    }
}

/// The parameters of LE Set Event Mask.
#[derive(Clone, Copy, Debug)]
pub struct LESetEventMaskCmd {
    pub le_event_mask: u64,
}

impl RBlueToU8Array for LESetEventMaskCmd {
    open spec fn wire(&self) -> Seq<u8> {
        u64_le(self.le_event_mask)
    }

    fn to_u8_array(&self) -> (r: Vec<u8>) {
        let mut array: Vec<u8> = Vec::new();
        push_u64_le(&mut array, self.le_event_mask);
        assert(array@ =~= self.wire());
        array
    }
}

impl HCICmdSend for LESetEventMaskCmd {
    open spec fn command_view(&self) -> CommandView {
        CommandView {
            packet: HCIPacket::Command,
            opcode: pack_spec(
                HCICmd::LEController.spec_ogf(),
                LEController::LESetEventMask.spec_ocf(),
            ),
            param: Some(self.wire()),
        }
    }

    fn send(&self, hci: &mut HCI) {
        hci.send_cmd_with_param(
            HCICmd::LEController.ogf(),
            LEController::LESetEventMask.ocf(),
            self.to_u8_array(),
        );
    }
}

/// The return parameters of LE Set Event Mask.
#[derive(Clone, Copy, Debug)]
pub struct LESetEventMaskRet {
    pub status: ControllerErrorCode,
}

impl RBlueToU8Array for LESetEventMaskRet {
    open spec fn wire(&self) -> Seq<u8> {
        seq![self.status.wire_code()]
    }

    fn to_u8_array(&self) -> (r: Vec<u8>) {
        let mut array: Vec<u8> = Vec::new();
        push_bytes(&mut array, &self.status.to_le_bytes());
        assert(array@ =~= self.wire());
        array
    }
}

/// The parameters of LE Read Buffer Size.
#[derive(Clone, Copy, Debug)]
pub struct LEReadBufferSizeCmd {}

impl RBlueToU8Array for LEReadBufferSizeCmd {
    open spec fn wire(&self) -> Seq<u8> {
        Seq::empty()
    }

    fn to_u8_array(&self) -> (r: Vec<u8>) {
        let mut array: Vec<u8> = Vec::new();
        assert(array@ =~= self.wire());
        array
    }
}

impl HCICmdSend for LEReadBufferSizeCmd {
    open spec fn command_view(&self) -> CommandView {
        CommandView {
            packet: HCIPacket::Command,
            opcode: pack_spec(
                HCICmd::LEController.spec_ogf(),
                LEController::LEReadBufferSize.spec_ocf(),
            ),
            param: None,
        }
    }

    fn send(&self, hci: &mut HCI) {
        hci.send_cmd_no_param(HCICmd::LEController.ogf(), LEController::LEReadBufferSize.ocf());
    }
}

/// The return parameters of LE Read Buffer Size.
#[derive(Clone, Copy, Debug)]
pub struct LEReadBufferSizeRet {
    pub status: ControllerErrorCode,
    pub le_acl_data_packet_length: u16,
    pub total_num_le_acl_data_packets: u8,
}

impl RBlueToU8Array for LEReadBufferSizeRet {
    open spec fn wire(&self) -> Seq<u8> {
        seq![self.status.wire_code()]
            + u16_le(self.le_acl_data_packet_length)
            + seq![self.total_num_le_acl_data_packets]
    }

    fn to_u8_array(&self) -> (r: Vec<u8>) {
        let mut array: Vec<u8> = Vec::new();
        push_bytes(&mut array, &self.status.to_le_bytes());
        push_u16_le(&mut array, self.le_acl_data_packet_length);
        array.push(self.total_num_le_acl_data_packets);
        assert(array@ =~= self.wire());
        array
    }
}

/// The parameters of LE Read Local Supported Features.
#[derive(Clone, Copy, Debug)]
pub struct LEReadLocalSupportedFeaturesCmd {}

impl RBlueToU8Array for LEReadLocalSupportedFeaturesCmd {
    open spec fn wire(&self) -> Seq<u8> {
        Seq::empty()
    }

    fn to_u8_array(&self) -> (r: Vec<u8>) {
        let mut array: Vec<u8> = Vec::new();
        assert(array@ =~= self.wire());
        array
    }
}

impl HCICmdSend for LEReadLocalSupportedFeaturesCmd {
    open spec fn command_view(&self) -> CommandView {
        CommandView {
            packet: HCIPacket::Command,
            opcode: pack_spec(
                HCICmd::LEController.spec_ogf(),
                LEController::LEReadLocalSupportedFeatures.spec_ocf(),
            ),
            param: None,
        }
    }

    fn send(&self, hci: &mut HCI) {
        hci.send_cmd_no_param(
            HCICmd::LEController.ogf(),
            LEController::LEReadLocalSupportedFeatures.ocf(),
        );
    }
}

/// The return parameters of LE Read Local Supported Features.
#[derive(Clone, Copy, Debug)]
pub struct LEReadLocalSupportedFeaturesRet {
    pub status: ControllerErrorCode,
    pub le_features: u64,
}

impl RBlueToU8Array for LEReadLocalSupportedFeaturesRet {
    open spec fn wire(&self) -> Seq<u8> {
        seq![self.status.wire_code()]
            + u64_le(self.le_features)
    }

    fn to_u8_array(&self) -> (r: Vec<u8>) {
        let mut array: Vec<u8> = Vec::new();
        push_bytes(&mut array, &self.status.to_le_bytes());
        push_u64_le(&mut array, self.le_features);
        assert(array@ =~= self.wire());
        array
    }
}

/// The parameters of LE Set Advertising Parameters.
#[derive(Clone, Copy, Debug)]
pub struct LESetAdvertisingParametersCmd {
    pub advertising_interval_min: u16,
    pub advertising_interval_max: u16,
    pub advertising_type: AdvertisingType,
    pub own_address_type: LEAddressType,
    pub peer_address_type: LEAddressType2,
    pub peer_address: BDAddr,
    pub advertising_channel_map: u8,
    pub advertising_filter_policy: AdvertisingFilterPolicy,
}

impl RBlueToU8Array for LESetAdvertisingParametersCmd {
    open spec fn wire(&self) -> Seq<u8> {
        u16_le(self.advertising_interval_min)
            + u16_le(self.advertising_interval_max)
            + seq![self.advertising_type.wire_code()]
            + seq![self.own_address_type.wire_code()]
            + seq![self.peer_address_type.wire_code()]
            + self.peer_address@
            + seq![self.advertising_channel_map]
            + seq![self.advertising_filter_policy.wire_code()]
    }

    fn to_u8_array(&self) -> (r: Vec<u8>) {
        let mut array: Vec<u8> = Vec::new();
        push_u16_le(&mut array, self.advertising_interval_min);
        push_u16_le(&mut array, self.advertising_interval_max);
        push_bytes(&mut array, &self.advertising_type.to_le_bytes());
        push_bytes(&mut array, &self.own_address_type.to_le_bytes());
        push_bytes(&mut array, &self.peer_address_type.to_le_bytes());
        push_bytes(&mut array, &self.peer_address);
        array.push(self.advertising_channel_map);
        push_bytes(&mut array, &self.advertising_filter_policy.to_le_bytes());
        assert(array@ =~= self.wire());
        array
    }
}

impl HCICmdSend for LESetAdvertisingParametersCmd {
    open spec fn command_view(&self) -> CommandView {
        CommandView {
            packet: HCIPacket::Command,
            opcode: pack_spec(
                HCICmd::LEController.spec_ogf(),
                LEController::LESetAdvertisingParameters.spec_ocf(),
            ),
            param: Some(self.wire()),
        }
    }

    fn send(&self, hci: &mut HCI) {
        hci.send_cmd_with_param(
            HCICmd::LEController.ogf(),
            LEController::LESetAdvertisingParameters.ocf(),
            self.to_u8_array(),
        );
    }
}

/// The return parameters of LE Set Advertising Parameters.
#[derive(Clone, Copy, Debug)]
pub struct LESetAdvertisingParametersRet {
    pub status: ControllerErrorCode,
}

impl RBlueToU8Array for LESetAdvertisingParametersRet {
    open spec fn wire(&self) -> Seq<u8> {
        seq![self.status.wire_code()]
    }

    fn to_u8_array(&self) -> (r: Vec<u8>) {
        let mut array: Vec<u8> = Vec::new();
        push_bytes(&mut array, &self.status.to_le_bytes());
        assert(array@ =~= self.wire());
        array
    }
}

/// The parameters of LE Read Advertising Physical Channel Tx Power.
#[derive(Clone, Copy, Debug)]
pub struct LEReadAdvertisingPhysicalChannelTxPowerCmd {}

impl RBlueToU8Array for LEReadAdvertisingPhysicalChannelTxPowerCmd {
    open spec fn wire(&self) -> Seq<u8> {
        Seq::empty()
    }

    fn to_u8_array(&self) -> (r: Vec<u8>) {
        let mut array: Vec<u8> = Vec::new();
        assert(array@ =~= self.wire());
        array
    }
}

impl HCICmdSend for LEReadAdvertisingPhysicalChannelTxPowerCmd {
    open spec fn command_view(&self) -> CommandView {
        CommandView {
            packet: HCIPacket::Command,
            opcode: pack_spec(
                HCICmd::LEController.spec_ogf(),
                LEController::LEReadAdvertisingPhysicalChannelTxPower.spec_ocf(),
            ),
            param: None,
        }
    }

    fn send(&self, hci: &mut HCI) {
        hci.send_cmd_no_param(
            HCICmd::LEController.ogf(),
            LEController::LEReadAdvertisingPhysicalChannelTxPower.ocf(),
        );
    }
}

/// The return parameters of LE Read Advertising Physical Channel Tx Power.
#[derive(Clone, Copy, Debug)]
pub struct LEReadAdvertisingPhysicalChannelTxPowerRet {
    pub status: ControllerErrorCode,
    pub tx_power_level: u8,
}

impl RBlueToU8Array for LEReadAdvertisingPhysicalChannelTxPowerRet {
    open spec fn wire(&self) -> Seq<u8> {
        seq![self.status.wire_code()]
            + seq![self.tx_power_level]
    }

    fn to_u8_array(&self) -> (r: Vec<u8>) {
        let mut array: Vec<u8> = Vec::new();
        push_bytes(&mut array, &self.status.to_le_bytes());
        array.push(self.tx_power_level);
        assert(array@ =~= self.wire());
        array
    }
}

/// The parameters of LE Set Advertising Data.
#[derive(Clone, Copy, Debug)]
pub struct LESetAdvertisingDataCmd {
    pub advertising_data_length: u8,
    pub advertising_data: LEAdvPacket,
}

impl RBlueToU8Array for LESetAdvertisingDataCmd {
    open spec fn wire(&self) -> Seq<u8> {
        seq![self.advertising_data_length]
            + self.advertising_data@
    }

    fn to_u8_array(&self) -> (r: Vec<u8>) {
        let mut array: Vec<u8> = Vec::new();
        array.push(self.advertising_data_length);
        push_bytes(&mut array, &self.advertising_data);
        assert(array@ =~= self.wire());
        array
    }
}

impl HCICmdSend for LESetAdvertisingDataCmd {
    open spec fn command_view(&self) -> CommandView {
        CommandView {
            packet: HCIPacket::Command,
            opcode: pack_spec(
                HCICmd::LEController.spec_ogf(),
                LEController::LESetAdvertisingData.spec_ocf(),
            ),
            param: Some(self.wire()),
        }
    }

    fn send(&self, hci: &mut HCI) {
        hci.send_cmd_with_param(
            HCICmd::LEController.ogf(),
            LEController::LESetAdvertisingData.ocf(),
            self.to_u8_array(),
        );
    }
}

/// The return parameters of LE Set Advertising Data.
#[derive(Clone, Copy, Debug)]
pub struct LESetAdvertisingDataRet {
    pub status: ControllerErrorCode,
}

impl RBlueToU8Array for LESetAdvertisingDataRet {
    open spec fn wire(&self) -> Seq<u8> {
        seq![self.status.wire_code()]
    }

    fn to_u8_array(&self) -> (r: Vec<u8>) {
        let mut array: Vec<u8> = Vec::new();
        push_bytes(&mut array, &self.status.to_le_bytes());
        assert(array@ =~= self.wire());
        array
    }
}

/// The parameters of LE Set Scan Response Data.
#[derive(Clone, Copy, Debug)]
pub struct LESetScanResponseDataCmd {
    pub scan_response_data_length: u8,
    pub scan_response_data: LEAdvPacket,
}

impl RBlueToU8Array for LESetScanResponseDataCmd {
    open spec fn wire(&self) -> Seq<u8> {
        seq![self.scan_response_data_length]
            + self.scan_response_data@
    }

    fn to_u8_array(&self) -> (r: Vec<u8>) {
        let mut array: Vec<u8> = Vec::new();
        array.push(self.scan_response_data_length);
        push_bytes(&mut array, &self.scan_response_data);
        assert(array@ =~= self.wire());
        array
    }
}

impl HCICmdSend for LESetScanResponseDataCmd {
    open spec fn command_view(&self) -> CommandView {
        CommandView {
            packet: HCIPacket::Command,
            opcode: pack_spec(
                HCICmd::LEController.spec_ogf(),
                LEController::LESetScanResponseData.spec_ocf(),
            ),
            param: Some(self.wire()),
        }
    }

    fn send(&self, hci: &mut HCI) {
        hci.send_cmd_with_param(
            HCICmd::LEController.ogf(),
            LEController::LESetScanResponseData.ocf(),
            self.to_u8_array(),
        );
    }
}

/// The return parameters of LE Set Scan Response Data.
#[derive(Clone, Copy, Debug)]
pub struct LESetScanResponseDataRet {
    pub status: ControllerErrorCode,
}

impl RBlueToU8Array for LESetScanResponseDataRet {
    open spec fn wire(&self) -> Seq<u8> {
        seq![self.status.wire_code()]
    }

    fn to_u8_array(&self) -> (r: Vec<u8>) {
        let mut array: Vec<u8> = Vec::new();
        push_bytes(&mut array, &self.status.to_le_bytes());
        assert(array@ =~= self.wire());
        array
    }
}

/// The parameters of LE Set Advertising Enable.
#[derive(Clone, Copy, Debug)]
pub struct LESetAdvertisingEnableCmd {
    pub advertising_enable: bool,
}

impl RBlueToU8Array for LESetAdvertisingEnableCmd {
    open spec fn wire(&self) -> Seq<u8> {
        seq![if self.advertising_enable { 1u8 } else { 0u8 }]
    }

    fn to_u8_array(&self) -> (r: Vec<u8>) {
        let mut array: Vec<u8> = Vec::new();
        array.push(if self.advertising_enable { 1u8 } else { 0u8 });
        assert(array@ =~= self.wire());
        array
    }
}

impl HCICmdSend for LESetAdvertisingEnableCmd {
    open spec fn command_view(&self) -> CommandView {
        CommandView {
            packet: HCIPacket::Command,
            opcode: pack_spec(
                HCICmd::LEController.spec_ogf(),
                LEController::LESetAdvertisingEnable.spec_ocf(),
            ),
            param: Some(self.wire()),
        }
    }

    fn send(&self, hci: &mut HCI) {
        hci.send_cmd_with_param(
            HCICmd::LEController.ogf(),
            LEController::LESetAdvertisingEnable.ocf(),
            self.to_u8_array(),
        );
    }
}

/// The return parameters of LE Set Advertising Enable.
#[derive(Clone, Copy, Debug)]
pub struct LESetAdvertisingEnableRet {
    pub status: ControllerErrorCode,
}

impl RBlueToU8Array for LESetAdvertisingEnableRet {
    open spec fn wire(&self) -> Seq<u8> {
        seq![self.status.wire_code()]
    }

    fn to_u8_array(&self) -> (r: Vec<u8>) {
        let mut array: Vec<u8> = Vec::new();
        push_bytes(&mut array, &self.status.to_le_bytes());
        assert(array@ =~= self.wire());
        array
    }
}

/// The parameters of LE Create Connection.
#[derive(Clone, Copy, Debug)]
pub struct LECreateConnectionCmd {
    pub le_scan_interval: u16,
    pub le_scan_window: u16,
    pub initiator_filter_policy: bool,
    pub peer_address_type: LEAddressType,
    pub peer_address: BDAddr,
    pub own_address_type: LEAddressType,
    pub conn_interval_min: u16,
    pub conn_interval_max: u16,
    pub max_latency: u16,
    pub supervision_timeout: u16,
    pub min_ce_length: u16,
    pub max_ce_length: u16,
}

impl RBlueToU8Array for LECreateConnectionCmd {
    open spec fn wire(&self) -> Seq<u8> {
        u16_le(self.le_scan_interval)
            + u16_le(self.le_scan_window)
            + seq![if self.initiator_filter_policy { 1u8 } else { 0u8 }]
            + seq![self.peer_address_type.wire_code()]
            + self.peer_address@
            + seq![self.own_address_type.wire_code()]
            + u16_le(self.conn_interval_min)
            + u16_le(self.conn_interval_max)
            + u16_le(self.max_latency)
            + u16_le(self.supervision_timeout)
            + u16_le(self.min_ce_length)
            + u16_le(self.max_ce_length)
    }

    fn to_u8_array(&self) -> (r: Vec<u8>) {
        let mut array: Vec<u8> = Vec::new();
        push_u16_le(&mut array, self.le_scan_interval);
        push_u16_le(&mut array, self.le_scan_window);
        array.push(if self.initiator_filter_policy { 1u8 } else { 0u8 });
        push_bytes(&mut array, &self.peer_address_type.to_le_bytes());
        push_bytes(&mut array, &self.peer_address);
        push_bytes(&mut array, &self.own_address_type.to_le_bytes());
        push_u16_le(&mut array, self.conn_interval_min);
        push_u16_le(&mut array, self.conn_interval_max);
        push_u16_le(&mut array, self.max_latency);
        push_u16_le(&mut array, self.supervision_timeout);
        push_u16_le(&mut array, self.min_ce_length);
        push_u16_le(&mut array, self.max_ce_length);
        assert(array@ =~= self.wire());
        array
    }
}

impl HCICmdSend for LECreateConnectionCmd {
    open spec fn command_view(&self) -> CommandView {
        CommandView {
            packet: HCIPacket::Command,
            opcode: pack_spec(
                HCICmd::LEController.spec_ogf(),
                LEController::LECreateConnection.spec_ocf(),
            ),
            param: Some(self.wire()),
        }
    }

    fn send(&self, hci: &mut HCI) {
        hci.send_cmd_with_param(
            HCICmd::LEController.ogf(),
            LEController::LECreateConnection.ocf(),
            self.to_u8_array(),
        );
    }
}

impl RBlueFromU8Array for LESetAdvertisingEnableCmd {
    /// One octet; any value but zero turns advertising on.
    open spec fn parse(bytes: Seq<u8>) -> Option<LESetAdvertisingEnableCmd> {
        if bytes.len() == 1 {
            Some(LESetAdvertisingEnableCmd { advertising_enable: bytes[0] != 0 })
        } else {
            None
        }
    }

    proof fn lemma_parse_wire(r: LESetAdvertisingEnableCmd) {
    }

    fn from_u8_array(bytes: &[u8]) -> (r: Option<LESetAdvertisingEnableCmd>) {
        if bytes.len() != 1 {
            return None;
        }
        Some(LESetAdvertisingEnableCmd { advertising_enable: bytes[0] != 0 })
    }
}

impl RBlueFromU8Array for SetEventMaskCmd {
    /// Eight octets, least significant first.
    open spec fn parse(bytes: Seq<u8>) -> Option<SetEventMaskCmd> {
        if bytes.len() == 8 {
            Some(SetEventMaskCmd { event_mask: u64_from_le(bytes) })
        } else {
            None
        }
    }

    proof fn lemma_parse_wire(r: SetEventMaskCmd) {
        lemma_u64_le_round_trip(r.event_mask);
    }

    fn from_u8_array(bytes: &[u8]) -> (r: Option<SetEventMaskCmd>) {
        if bytes.len() != 8 {
            return None;
        }
        Some(SetEventMaskCmd { event_mask: read_u64_le(bytes) })
    }
}

impl RBlueFromU8Array for LESetEventMaskCmd {
    /// Eight octets, least significant first.
    open spec fn parse(bytes: Seq<u8>) -> Option<LESetEventMaskCmd> {
        if bytes.len() == 8 {
            Some(LESetEventMaskCmd { le_event_mask: u64_from_le(bytes) })
        } else {
            None
        }
    }

    proof fn lemma_parse_wire(r: LESetEventMaskCmd) {
        lemma_u64_le_round_trip(r.le_event_mask);
    }

    fn from_u8_array(bytes: &[u8]) -> (r: Option<LESetEventMaskCmd>) {
        if bytes.len() != 8 {
            return None;
        }
        Some(LESetEventMaskCmd { le_event_mask: read_u64_le(bytes) })
    }
}

} // verus!
