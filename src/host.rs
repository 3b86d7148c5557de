//! The host side of the stack: the boot state machine, the command pipeline,
//! the connection table and the LE advertising engine, with the parameter
//! enumerations and flag sets that they use.
use vstd::prelude::*;

pub mod hci;
pub mod hci_cmd;
pub mod opcode;

pub use crate::baseband::ControllerErrorCode;
pub use crate::BDAddr;
pub use hci::ControllerAndBaseband;
pub use hci::HCICmd;
pub use hci::InformationalParam;
pub use hci::LEController;
pub use hci::LinkControl;
use hci::{CommandView, HCI};

verus! {

/// A request to switch the host on or off.
#[derive(Clone, Copy, PartialEq, Eq, Structural, Debug)]
pub enum HCIPowerMode {
    On,
    Off,
}

pub const PACKET_TYPE_NO_USE_2_DH1: u16 = 0x0001;
pub const PACKET_TYPE_NO_USE_3_DH1: u16 = 0x0002;
pub const PACKET_TYPE_MAY_USE_DM1: u16 = 0x0004;
pub const PACKET_TYPE_MAY_USE_DH1: u16 = 0x0008;
pub const PACKET_TYPE_NO_USE_2_DH3: u16 = 0x0100;
pub const PACKET_TYPE_NO_USE_3_DH3: u16 = 0x0200;
pub const PACKET_TYPE_MAY_USE_DM3: u16 = 0x0400;
pub const PACKET_TYPE_MAY_USE_DH3: u16 = 0x0800;
pub const PACKET_TYPE_NO_USE_2_DH5: u16 = 0x1000;
pub const PACKET_TYPE_NO_USE_3_DH5: u16 = 0x2000;
pub const PACKET_TYPE_MAY_USE_DM5: u16 = 0x4000;
pub const PACKET_TYPE_MAY_USE_DH5: u16 = 0x8000;

/// The set of ACL packet types that a Create Connection allows, as the
/// bit set of the HCI parameter.
#[derive(Clone, Copy, PartialEq, Eq, Structural, Debug)]
pub struct PacketType {
    pub bits: u16,
}

/// The two octets of `x`, least significant first.
pub open spec fn u16_le(x: u16) -> Seq<u8> {
    seq![(x & 0xff) as u8, (x >> 8u16) as u8]
}

impl PacketType {
    /// The wire form: the bit set, least significant octet first.
    pub fn to_le_bytes(&self) -> (r: [u8; 2])
        ensures
            r@ == u16_le(self.bits),
    {
        let r = [(self.bits & 0xff) as u8, (self.bits >> 8u16) as u8];
        assert(r@ =~= u16_le(self.bits));
        r
    }
}

/// The page scan repetition mode of a remote device (R0, R1, R2).
#[derive(Clone, Copy, PartialEq, Eq, Structural, Debug)]
pub enum PageScanRepetitionMode {
    R0,
    R1,
    R2,
}

impl PageScanRepetitionMode {
    /// The octet that stands for this value on the wire.
    pub open spec fn wire_code(&self) -> u8 {
        match self {
            PageScanRepetitionMode::R0 => 0,
            PageScanRepetitionMode::R1 => 1,
            PageScanRepetitionMode::R2 => 2,
        }
    }

    /// The wire form: one octet.
    pub fn to_le_bytes(&self) -> (r: [u8; 1])
        ensures
            r@ == seq![self.wire_code()],
    {
        let r = match self {
            PageScanRepetitionMode::R0 => [0u8],
            PageScanRepetitionMode::R1 => [1u8],
            PageScanRepetitionMode::R2 => [2u8],
        };
        assert(r@ =~= seq![self.wire_code()]);
        r
    }
}

/// Which of inquiry scan and page scan are on.
#[derive(Clone, Copy, PartialEq, Eq, Structural, Debug)]
pub enum ScanEnable {
    NoScansEnable,
    InquiryEnablePageDisable,
    InquiryDisablePageEnable,
    InquiryEnablePageEnable,
}

impl ScanEnable {
    /// The octet that stands for this value on the wire.
    pub open spec fn wire_code(&self) -> u8 {
        match self {
            ScanEnable::NoScansEnable => 0,
            ScanEnable::InquiryEnablePageDisable => 1,
            ScanEnable::InquiryDisablePageEnable => 2,
            ScanEnable::InquiryEnablePageEnable => 3,
        }
    }

    /// The wire form: one octet.
    pub fn to_le_bytes(&self) -> (r: [u8; 1])
        ensures
            r@ == seq![self.wire_code()],
    {
        let r = match self {
            ScanEnable::NoScansEnable => [0u8],
            ScanEnable::InquiryEnablePageDisable => [1u8],
            ScanEnable::InquiryDisablePageEnable => [2u8],
            ScanEnable::InquiryEnablePageEnable => [3u8],
        };
        assert(r@ =~= seq![self.wire_code()]);
        r
    }
}

/// The type of an LE device address.
#[derive(Clone, Copy, PartialEq, Eq, Structural, Debug)]
pub enum LEAddressType {
    PublicDevice,
    RandomDevice,
    PublicIdentity,
    RandomIdentity,
}

impl LEAddressType {
    /// The octet that stands for this value on the wire.
    pub open spec fn wire_code(&self) -> u8 {
        match self {
            LEAddressType::PublicDevice => 0,
            LEAddressType::RandomDevice => 1,
            LEAddressType::PublicIdentity => 2,
            LEAddressType::RandomIdentity => 3,
        }
    }

    /// The wire form: one octet.
    pub fn to_le_bytes(&self) -> (r: [u8; 1])
        ensures
            r@ == seq![self.wire_code()],
    {
        let r = match self {
            LEAddressType::PublicDevice => [0u8],
            LEAddressType::RandomDevice => [1u8],
            LEAddressType::PublicIdentity => [2u8],
            LEAddressType::RandomIdentity => [3u8],
        };
        assert(r@ =~= seq![self.wire_code()]);
        r
    }
}

/// The peer address type of LE Set Advertising Parameters, which does not tell
/// a device address from an identity address.
#[derive(Clone, Copy, PartialEq, Eq, Structural, Debug)]
pub enum LEAddressType2 {
    PublicDeviceOrPublicIdentity,
    RandomDeviceOrRandomIdentity,
}

impl LEAddressType2 {
    /// The octet that stands for this value on the wire.
    pub open spec fn wire_code(&self) -> u8 {
        match self {
            LEAddressType2::PublicDeviceOrPublicIdentity => 0,
            LEAddressType2::RandomDeviceOrRandomIdentity => 1,
        }
    }

    /// The wire form: one octet.
    pub fn to_le_bytes(&self) -> (r: [u8; 1])
        ensures
            r@ == seq![self.wire_code()],
    {
        let r = match self {
            LEAddressType2::PublicDeviceOrPublicIdentity => [0u8],
            LEAddressType2::RandomDeviceOrRandomIdentity => [1u8],
        };
        assert(r@ =~= seq![self.wire_code()]);
        r
    }
}

/// The kind of LE advertising: connectable or not, scannable or not, and
/// the duty cycle of directed advertising.
#[derive(Clone, Copy, PartialEq, Eq, Structural, Debug)]
pub enum AdvertisingType {
    ConnectableAndScannable,
    ConnectableHighDuty,
    Scannable,
    NonConnectable,
    ConnectableLowDuty,
}

impl AdvertisingType {
    /// The octet that stands for this value on the wire.
    pub open spec fn wire_code(&self) -> u8 {
        match self {
            AdvertisingType::ConnectableAndScannable => 0,
            AdvertisingType::ConnectableHighDuty => 1,
            AdvertisingType::Scannable => 2,
            AdvertisingType::NonConnectable => 3,
            AdvertisingType::ConnectableLowDuty => 4,
        }
    }

    /// The wire form: one octet.
    pub fn to_le_bytes(&self) -> (r: [u8; 1])
        ensures
            r@ == seq![self.wire_code()],
    {
        let r = match self {
            AdvertisingType::ConnectableAndScannable => [0u8],
            AdvertisingType::ConnectableHighDuty => [1u8],
            AdvertisingType::Scannable => [2u8],
            AdvertisingType::NonConnectable => [3u8],
            AdvertisingType::ConnectableLowDuty => [4u8],
        };
        assert(r@ =~= seq![self.wire_code()]);
        r
    }
}

/// Which scan and connection requests an advertiser accepts: from anyone, or
/// only from devices on the filter accept list.
#[derive(Clone, Copy, PartialEq, Eq, Structural, Debug)]
pub enum AdvertisingFilterPolicy {
    UnFilter,
    FilterOnlyScan,
    FilterOnlyConnect,
    FilterBoth,
}

impl AdvertisingFilterPolicy {
    /// The octet that stands for this value on the wire.
    pub open spec fn wire_code(&self) -> u8 {
        match self {
            AdvertisingFilterPolicy::UnFilter => 0,
            AdvertisingFilterPolicy::FilterOnlyScan => 1,
            AdvertisingFilterPolicy::FilterOnlyConnect => 2,
            AdvertisingFilterPolicy::FilterBoth => 3,
        }
    }

    /// The wire form: one octet.
    pub fn to_le_bytes(&self) -> (r: [u8; 1])
        ensures
            r@ == seq![self.wire_code()],
    {
        let r = match self {
            AdvertisingFilterPolicy::UnFilter => [0u8],
            AdvertisingFilterPolicy::FilterOnlyScan => [1u8],
            AdvertisingFilterPolicy::FilterOnlyConnect => [2u8],
            AdvertisingFilterPolicy::FilterBoth => [3u8],
        };
        assert(r@ =~= seq![self.wire_code()]);
        r
    }
}

/// Standard or interlaced scanning.
#[derive(Clone, Copy, PartialEq, Eq, Structural, Debug)]
pub enum ScanType {
    Standard,
    Interlaced,
}

impl ScanType {
    /// The octet that stands for this value on the wire.
    pub open spec fn wire_code(&self) -> u8 {
        match self {
            ScanType::Standard => 0,
            ScanType::Interlaced => 1,
        }
    }

    /// The wire form: one octet.
    pub fn to_le_bytes(&self) -> (r: [u8; 1])
        ensures
            r@ == seq![self.wire_code()],
    {
        let r = match self {
            ScanType::Standard => [0u8],
            ScanType::Interlaced => [1u8],
        };
        assert(r@ =~= seq![self.wire_code()]);
        r
    }
}

/// The format of inquiry results.
#[derive(Clone, Copy, PartialEq, Eq, Structural, Debug)]
pub enum InquiryMode {
    Standard,
    WithRSSI,
    WithRSSIAndExtended,
}

impl InquiryMode {
    /// The octet that stands for this value on the wire.
    pub open spec fn wire_code(&self) -> u8 {
        match self {
            InquiryMode::Standard => 0,
            InquiryMode::WithRSSI => 1,
            InquiryMode::WithRSSIAndExtended => 2,
        }
    }

    /// The wire form: one octet.
    pub fn to_le_bytes(&self) -> (r: [u8; 1])
        ensures
            r@ == seq![self.wire_code()],
    {
        let r = match self {
            InquiryMode::Standard => [0u8],
            InquiryMode::WithRSSI => [1u8],
            InquiryMode::WithRSSIAndExtended => [2u8],
        };
        assert(r@ =~= seq![self.wire_code()]);
        r
    }
}

/// Whether the PIN is variable or fixed.
#[derive(Clone, Copy, PartialEq, Eq, Structural, Debug)]
pub enum PinType {
    Variable,
    Fixed,
}

impl PinType {
    /// The octet that stands for this value on the wire.
    pub open spec fn wire_code(&self) -> u8 {
        match self {
            PinType::Variable => 0,
            PinType::Fixed => 1,
        }
    }

    /// The wire form: one octet.
    pub fn to_le_bytes(&self) -> (r: [u8; 1])
        ensures
            r@ == seq![self.wire_code()],
    {
        let r = match self {
            PinType::Variable => [0u8],
            PinType::Fixed => [1u8],
        };
        assert(r@ =~= seq![self.wire_code()]);
        r
    }
}

/// Whether authentication is required on connection setup.
#[derive(Clone, Copy, PartialEq, Eq, Structural, Debug)]
pub enum AuthenticationEnable {
    NotRequired,
    Required,
}

impl AuthenticationEnable {
    /// The octet that stands for this value on the wire.
    pub open spec fn wire_code(&self) -> u8 {
        match self {
            AuthenticationEnable::NotRequired => 0,
            AuthenticationEnable::Required => 1,
        }
    }

    /// The wire form: one octet.
    pub fn to_le_bytes(&self) -> (r: [u8; 1])
        ensures
            r@ == seq![self.wire_code()],
    {
        let r = match self {
            AuthenticationEnable::NotRequired => [0u8],
            AuthenticationEnable::Required => [1u8],
        };
        assert(r@ =~= seq![self.wire_code()]);
        r
    }
}

/// What the device suspends while in hold mode.
#[derive(Clone, Copy, PartialEq, Eq, Structural, Debug)]
pub enum HoldModeActivity {
    PageScan,
    InquiryScan,
    PeriodicInquiries,
}

impl HoldModeActivity {
    /// The octet that stands for this value on the wire.
    pub open spec fn wire_code(&self) -> u8 {
        match self {
            HoldModeActivity::PageScan => 0,
            HoldModeActivity::InquiryScan => 1,
            HoldModeActivity::PeriodicInquiries => 2,
        }
    }

    /// The wire form: one octet.
    pub fn to_le_bytes(&self) -> (r: [u8; 1])
        ensures
            r@ == seq![self.wire_code()],
    {
        let r = match self {
            HoldModeActivity::PageScan => [0u8],
            HoldModeActivity::InquiryScan => [1u8],
            HoldModeActivity::PeriodicInquiries => [2u8],
        };
        assert(r@ =~= seq![self.wire_code()]);
        r
    }
}

/// Packet-based or data-block-based flow control.
#[derive(Clone, Copy, PartialEq, Eq, Structural, Debug)]
pub enum FlowControlMode {
    PacketBased,
    DataBlockBased,
}

impl FlowControlMode {
    /// The octet that stands for this value on the wire.
    pub open spec fn wire_code(&self) -> u8 {
        match self {
            FlowControlMode::PacketBased => 0,
            FlowControlMode::DataBlockBased => 1,
        }
    }

    /// The wire form: one octet.
    pub fn to_le_bytes(&self) -> (r: [u8; 1])
        ensures
            r@ == seq![self.wire_code()],
    {
        let r = match self {
            FlowControlMode::PacketBased => [0u8],
            FlowControlMode::DataBlockBased => [1u8],
        };
        assert(r@ =~= seq![self.wire_code()]);
        r
    }
}

/// The transport of a connection.
#[derive(Clone, Copy, PartialEq, Eq, Structural, Debug)]
pub enum BDAddrType {
    LEPublic,
    LERandom,
    Classic,
}

impl BDAddrType {
    /// The octet that stands for this value on the wire.
    pub open spec fn wire_code(&self) -> u8 {
        match self {
            BDAddrType::LEPublic => 0,
            BDAddrType::LERandom => 1,
            BDAddrType::Classic => 2,
        }
    }

    /// The wire form: one octet.
    pub fn to_le_bytes(&self) -> (r: [u8; 1])
        ensures
            r@ == seq![self.wire_code()],
    {
        let r = match self {
            BDAddrType::LEPublic => [0u8],
            BDAddrType::LERandom => [1u8],
            BDAddrType::Classic => [2u8],
        };
        assert(r@ =~= seq![self.wire_code()]);
        r
    }
}

impl LEAddressType2 {
    /// The reduced form of a full address type: public and public identity
    /// become one value, random and random identity the other.
    pub open spec fn reduce(t: LEAddressType) -> LEAddressType2 {
        match t {
            LEAddressType::PublicDevice => LEAddressType2::PublicDeviceOrPublicIdentity,
            LEAddressType::RandomDevice => LEAddressType2::RandomDeviceOrRandomIdentity,
            LEAddressType::PublicIdentity => LEAddressType2::PublicDeviceOrPublicIdentity,
            LEAddressType::RandomIdentity => LEAddressType2::RandomDeviceOrRandomIdentity,
        }
    }
}

impl From<LEAddressType> for LEAddressType2 {
    fn from(value: LEAddressType) -> (r: LEAddressType2)
        ensures
            r == LEAddressType2::reduce(value),
    {
        match value {
            LEAddressType::PublicDevice => LEAddressType2::PublicDeviceOrPublicIdentity,
            LEAddressType::RandomDevice => LEAddressType2::RandomDeviceOrRandomIdentity,
            LEAddressType::PublicIdentity => LEAddressType2::PublicDeviceOrPublicIdentity,
            LEAddressType::RandomIdentity => LEAddressType2::RandomDeviceOrRandomIdentity,
        }
    }
}

impl vstd::std_specs::convert::FromSpecImpl<LEAddressType> for LEAddressType2 {
    open spec fn obeys_from_spec() -> bool {
        true
    }

    open spec fn from_spec(v: LEAddressType) -> LEAddressType2 {
        LEAddressType2::reduce(v)
    }
}

/// The controller is advertising.
pub const LE_ADV_STATE_ACTIVE: u8 = 0x01;
/// The host wants advertising on.
pub const LE_ADV_STATE_ENABLED: u8 = 0x02;

/// What the host observes and wants of LE advertising, as a bit set over
/// `LE_ADV_STATE_ACTIVE` and `LE_ADV_STATE_ENABLED`.
#[derive(Clone, Copy, PartialEq, Eq, Structural, Debug)]
pub struct LEAdvertisementsState {
    pub bits: u8,
}

pub const LE_ADV_TODO_SET_ADV_DATA: u16 = 0x0001;
pub const LE_ADV_TODO_SET_SCAN_DATA: u16 = 0x0002;
pub const LE_ADV_TODO_SET_PARAMS: u16 = 0x0004;
pub const LE_ADV_TODO_SET_PERIODIC_PARAMS: u16 = 0x0008;
pub const LE_ADV_TODO_SET_PERIODIC_DATA: u16 = 0x0010;
pub const LE_ADV_TODO_REMOVE_SET: u16 = 0x0020;
pub const LE_ADV_TODO_SET_ADDRESS: u16 = 0x0040;
pub const LE_ADV_TODO_SET_ADDRESS_SET0: u16 = 0x0080;
pub const LE_ADV_TODO_PRIVACY_NOTIFY: u16 = 0x0100;

/// The advertising updates that wait to be sent, one bit per step of the
/// reconcile loop.
#[derive(Clone, Copy, PartialEq, Eq, Structural, Debug)]
pub struct LEAdvertisementsTodo {
    pub bits: u16,
}

/// Whether every bit of `flag` is set in `bits`.
pub open spec fn has_u8(bits: u8, flag: u8) -> bool {
    bits & flag == flag
}

/// Whether every bit of `flag` is set in `bits`.
pub open spec fn has_u16(bits: u16, flag: u16) -> bool {
    bits & flag == flag
}

impl LEAdvertisementsState {
    /// Whether every flag of `other` is set.
    pub fn contains(&self, other: LEAdvertisementsState) -> (r: bool)
        ensures
            r == has_u8(self.bits, other.bits),
    {
        self.bits & other.bits == other.bits
    }

    /// Sets the flags of `other`.
    pub fn insert(&mut self, other: LEAdvertisementsState)
        ensures
            final(self).bits == old(self).bits | other.bits,
    {
        self.bits = self.bits | other.bits;
    }

    /// Clears the flags of `other`.
    pub fn remove(&mut self, other: LEAdvertisementsState)
        ensures
            final(self).bits == old(self).bits & !other.bits,
    {
        self.bits = self.bits & !other.bits;
    }
}

impl LEAdvertisementsTodo {
    /// Whether every flag of `other` is set.
    pub fn contains(&self, other: LEAdvertisementsTodo) -> (r: bool)
        ensures
            r == has_u16(self.bits, other.bits),
    {
        self.bits & other.bits == other.bits
    }

    /// Sets the flags of `other`.
    pub fn insert(&mut self, other: LEAdvertisementsTodo)
        ensures
            final(self).bits == old(self).bits | other.bits,
    {
        self.bits = self.bits | other.bits;
    }

    /// Clears the flags of `other`.
    pub fn remove(&mut self, other: LEAdvertisementsTodo)
        ensures
            final(self).bits == old(self).bits & !other.bits,
    {
        self.bits = self.bits & !other.bits;
    }
}


/// A command record that the host can send.
pub trait HCICmdSend {
    /// The packet type, opcode and parameters that `send` hands on.
    spec fn command_view(&self) -> CommandView;

    fn send(&self, hci: &mut HCI)
        ensures
            final(hci)@ == old(hci)@.emit(self.command_view()),
    ;
}

} // verus!
