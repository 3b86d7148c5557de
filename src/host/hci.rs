//! The host: its boot state machine, its command pipeline, its connection
//! table and the LE advertising reconcile loop.
use vstd::prelude::*;

use super::hci_cmd::{
    CreateConnectionCmd, LECreateConnectionCmd, LEReadBufferSizeCmd,
    LEReadLocalSupportedFeaturesCmd, LESetAdvertisingEnableCmd, LESetAdvertisingParametersCmd,
    LESetEventMaskCmd, ReadBDAddrCmd, ReadBufferSizeCmd, ReadLocalSupportedCommandsCmd,
    ReadLocalSupportedFeaturesCmd, ResetCmd, SetEventMaskCmd, u64_le,
};
use super::opcode::{into_opcode, pack_spec};
pub use super::opcode::{opcode_to_ocf, opcode_to_ogf};
use super::{
    has_u16, has_u8, AdvertisingFilterPolicy, AdvertisingType, BDAddrType, HCICmdSend,
    HCIPowerMode, LEAddressType, LEAddressType2, LEAdvertisementsState, LEAdvertisementsTodo,
    PacketType, PageScanRepetitionMode, ScanEnable, LE_ADV_STATE_ACTIVE, LE_ADV_STATE_ENABLED,
    LE_ADV_TODO_SET_PARAMS, PACKET_TYPE_MAY_USE_DH1,
};
use crate::{bd_addr_eq, BDAddr};

verus! {

/// The command groups (OGF).
#[derive(Clone, Copy, PartialEq, Eq, Structural, Debug)]
pub enum HCICmd {
    LinkControl,
    LinkPolicy,
    ControllerAndBaseband,
    InformationalParam,
    StatusParam,
    TestingCommand,
    LEController,
}

impl HCICmd {
    /// The group field of this group.
    pub open spec fn spec_ogf(&self) -> u8 {
        match self {
            HCICmd::LinkControl => 1,
            HCICmd::LinkPolicy => 2,
            HCICmd::ControllerAndBaseband => 3,
            HCICmd::InformationalParam => 4,
            HCICmd::StatusParam => 5,
            HCICmd::TestingCommand => 6,
            HCICmd::LEController => 8,
        }
    }

    pub fn ogf(&self) -> (r: u8)
        ensures
            r == self.spec_ogf(),
    {
        match self {
            HCICmd::LinkControl => 1,
            HCICmd::LinkPolicy => 2,
            HCICmd::ControllerAndBaseband => 3,
            HCICmd::InformationalParam => 4,
            HCICmd::StatusParam => 5,
            HCICmd::TestingCommand => 6,
            HCICmd::LEController => 8,
        }
    }
}

/// The event codes that the host handles.
#[derive(Clone, Copy, PartialEq, Eq, Structural, Debug)]
pub enum HCIEvent {
    CommandComplete,
}

/// The event code of Command Complete.
pub const EVENT_COMMAND_COMPLETE: u8 = 0x0E;

impl HCIEvent {
    pub open spec fn spec_code(&self) -> u8 {
        match self {
            HCIEvent::CommandComplete => EVENT_COMMAND_COMPLETE,
        }
    }

    pub fn code(&self) -> (r: u8)
        ensures
            r == self.spec_code(),
    {
        match self {
            HCIEvent::CommandComplete => EVENT_COMMAND_COMPLETE,
        }
    }

    /// The event with code `code`, if the host knows it.
    pub fn from_u8(code: u8) -> (r: Option<HCIEvent>)
        ensures
            r == (if code == EVENT_COMMAND_COMPLETE {
                Some(HCIEvent::CommandComplete)
            } else {
                None
            }),
    {
        if code == EVENT_COMMAND_COMPLETE {
            Some(HCIEvent::CommandComplete)
        } else {
            None
        }
    }
}

/// The Link Control commands.
#[derive(Clone, Copy, PartialEq, Eq, Structural, Debug)]
pub enum LinkControl {
    Inquiry,
    InquiryCancel,
    PeriodicInquiryMod,
    ExitPeriodicInquiryMod,
    CreateConnection,
    Disconnect,
    AcceptConnectionRequest,
    RejectConnectionRequest,
}

impl LinkControl {
    /// The command field of this command.
    pub open spec fn spec_ocf(&self) -> u16 {
        match self {
            LinkControl::Inquiry => 0x0001,
            LinkControl::InquiryCancel => 0x0002,
            LinkControl::PeriodicInquiryMod => 0x0003,
            LinkControl::ExitPeriodicInquiryMod => 0x0004,
            LinkControl::CreateConnection => 0x0005,
            LinkControl::Disconnect => 0x0006,
            LinkControl::AcceptConnectionRequest => 0x0007,
            LinkControl::RejectConnectionRequest => 0x0008,
        }
    }

    pub fn ocf(&self) -> (r: u16)
        ensures
            r == self.spec_ocf(),
    {
        match self {
            LinkControl::Inquiry => 0x0001,
            LinkControl::InquiryCancel => 0x0002,
            LinkControl::PeriodicInquiryMod => 0x0003,
            LinkControl::ExitPeriodicInquiryMod => 0x0004,
            LinkControl::CreateConnection => 0x0005,
            LinkControl::Disconnect => 0x0006,
            LinkControl::AcceptConnectionRequest => 0x0007,
            LinkControl::RejectConnectionRequest => 0x0008,
        }
    }

    /// The opcode of this command.
    pub fn get_opcode(&self) -> (r: u16)
        ensures
            r == pack_spec(HCICmd::LinkControl.spec_ogf(), self.spec_ocf()),
    {
        into_opcode(HCICmd::LinkControl.ogf(), self.ocf())
    }
}

/// The Controller and Baseband commands.
#[derive(Clone, Copy, PartialEq, Eq, Structural, Debug)]
pub enum ControllerAndBaseband {
    SetEventMask,
    Reset,
}

impl ControllerAndBaseband {
    /// The command field of this command.
    pub open spec fn spec_ocf(&self) -> u16 {
        match self {
            ControllerAndBaseband::SetEventMask => 0x0001,
            ControllerAndBaseband::Reset => 0x0003,
        }
    }

    pub fn ocf(&self) -> (r: u16)
        ensures
            r == self.spec_ocf(),
    {
        match self {
            ControllerAndBaseband::SetEventMask => 0x0001,
            ControllerAndBaseband::Reset => 0x0003,
        }
    }

    /// The opcode of this command.
    pub fn get_opcode(&self) -> (r: u16)
        ensures
            r == pack_spec(HCICmd::ControllerAndBaseband.spec_ogf(), self.spec_ocf()),
    {
        into_opcode(HCICmd::ControllerAndBaseband.ogf(), self.ocf())
    }
}

/// The Informational Parameters commands.
#[derive(Clone, Copy, PartialEq, Eq, Structural, Debug)]
pub enum InformationalParam {
    ReadLocalSupportedCommands,
    ReadLocalSupportedFeatures,
    ReadLocalExtendedSupportedFeatures,
    ReadBufferSize,
    ReadBDAddr,
}

impl InformationalParam {
    /// The command field of this command.
    pub open spec fn spec_ocf(&self) -> u16 {
        match self {
            InformationalParam::ReadLocalSupportedCommands => 0x0002,
            InformationalParam::ReadLocalSupportedFeatures => 0x0003,
            InformationalParam::ReadLocalExtendedSupportedFeatures => 0x0004,
            InformationalParam::ReadBufferSize => 0x0005,
            InformationalParam::ReadBDAddr => 0x0009,
        }
    }

    pub fn ocf(&self) -> (r: u16)
        ensures
            r == self.spec_ocf(),
    {
        match self {
            InformationalParam::ReadLocalSupportedCommands => 0x0002,
            InformationalParam::ReadLocalSupportedFeatures => 0x0003,
            InformationalParam::ReadLocalExtendedSupportedFeatures => 0x0004,
            InformationalParam::ReadBufferSize => 0x0005,
            InformationalParam::ReadBDAddr => 0x0009,
        }
    }

    /// The opcode of this command.
    pub fn get_opcode(&self) -> (r: u16)
        ensures
            r == pack_spec(HCICmd::InformationalParam.spec_ogf(), self.spec_ocf()),
    {
        into_opcode(HCICmd::InformationalParam.ogf(), self.ocf())
    }
}

/// The LE Controller commands.
#[derive(Clone, Copy, PartialEq, Eq, Structural, Debug)]
pub enum LEController {
    LESetEventMask,
    LEReadBufferSize,
    LEReadLocalSupportedFeatures,
    LESetRandomAddress,
    LESetAdvertisingParameters,
    LEReadAdvertisingPhysicalChannelTxPower,
    LESetAdvertisingData,
    LESetScanResponseData,
    LESetAdvertisingEnable,
    LECreateConnection,
}

impl LEController {
    /// The command field of this command.
    pub open spec fn spec_ocf(&self) -> u16 {
        match self {
            LEController::LESetEventMask => 0x0001,
            LEController::LEReadBufferSize => 0x0002,
            LEController::LEReadLocalSupportedFeatures => 0x0003,
            LEController::LESetRandomAddress => 0x0005,
            LEController::LESetAdvertisingParameters => 0x0006,
            LEController::LEReadAdvertisingPhysicalChannelTxPower => 0x0007,
            LEController::LESetAdvertisingData => 0x0008,
            LEController::LESetScanResponseData => 0x0009,
            LEController::LESetAdvertisingEnable => 0x000A,
            LEController::LECreateConnection => 0x000D,
        }
    }

    pub fn ocf(&self) -> (r: u16)
        ensures
            r == self.spec_ocf(),
    {
        match self {
            LEController::LESetEventMask => 0x0001,
            LEController::LEReadBufferSize => 0x0002,
            LEController::LEReadLocalSupportedFeatures => 0x0003,
            LEController::LESetRandomAddress => 0x0005,
            LEController::LESetAdvertisingParameters => 0x0006,
            LEController::LEReadAdvertisingPhysicalChannelTxPower => 0x0007,
            LEController::LESetAdvertisingData => 0x0008,
            LEController::LESetScanResponseData => 0x0009,
            LEController::LESetAdvertisingEnable => 0x000A,
            LEController::LECreateConnection => 0x000D,
        }
    }

    /// The opcode of this command.
    pub fn get_opcode(&self) -> (r: u16)
        ensures
            r == pack_spec(HCICmd::LEController.spec_ogf(), self.spec_ocf()),
    {
        into_opcode(HCICmd::LEController.ogf(), self.ocf())
    }
}

/// The type of a framed packet, its first octet: Command is 1, ACL 2, SCO 3
/// and Event 4, as on the HCI UART transport.
#[derive(Clone, Copy, PartialEq, Eq, Structural, Debug)]
pub enum HCIPacket {
    Command,
    ACL,
    SCO,
    Event,
}

impl HCIPacket {
    pub open spec fn spec_code(&self) -> u8 {
        match self {
            HCIPacket::Command => 1,
            HCIPacket::ACL => 2,
            HCIPacket::SCO => 3,
            HCIPacket::Event => 4,
        }
    }

    pub fn to_u8(&self) -> (r: u8)
        ensures
            r == self.spec_code(),
    {
        match self {
            HCIPacket::Command => 1,
            HCIPacket::ACL => 2,
            HCIPacket::SCO => 3,
            HCIPacket::Event => 4,
        }
    }

    /// The packet type whose first octet is `code`, if any.
    pub fn from_u8(code: u8) -> (r: Option<HCIPacket>)
        ensures
            match r {
                Some(p) => p.spec_code() == code,
                None => !(1 <= code <= 4),
            },
    {
        match code {
            1 => Some(HCIPacket::Command),
            2 => Some(HCIPacket::ACL),
            3 => Some(HCIPacket::SCO),
            4 => Some(HCIPacket::Event),
            _ => None,
        }
    }
}

/// A packet that the host hands to the transport: its type, its opcode and
/// its parameters, if it has any.
pub struct HCICommandPacket {
    pub packet: HCIPacket,
    pub opcode: u16,
    pub param: Option<Vec<u8>>,
}

/// The mathematical form of an `HCICommandPacket`.
pub struct CommandView {
    pub packet: HCIPacket,
    pub opcode: u16,
    pub param: Option<Seq<u8>>,
}

impl View for HCICommandPacket {
    type V = CommandView;

    open spec fn view(&self) -> CommandView {
        CommandView {
            packet: self.packet,
            opcode: self.opcode,
            param: match self.param {
                Some(p) => Some(p@),
                None => None,
            },
        }
    }
}

/// The octets of a packet's parameters.
pub open spec fn param_octets(c: CommandView) -> Seq<u8> {
    match c.param {
        Some(p) => p,
        None => Seq::empty(),
    }
}

/// A command packet on the wire: its type, the opcode least significant octet
/// first, the length of the parameters and the parameters.
pub open spec fn frame_spec(c: CommandView) -> Seq<u8> {
    seq![c.packet.spec_code(), (c.opcode & 0xff) as u8, (c.opcode >> 8u16) as u8,
        param_octets(c).len() as u8] + param_octets(c)
}

/// Frames a packet for the transport.
pub fn frame_command(c: &HCICommandPacket) -> (r: Vec<u8>)
    requires
        param_octets(c@).len() < 256,
    ensures
        r@ == frame_spec(c@),
{
    let mut r: Vec<u8> = Vec::new();
    r.push(c.packet.to_u8());
    r.push((c.opcode & 0xff) as u8);
    r.push((c.opcode >> 8u16) as u8);
    match &c.param {
        Some(p) => {
            r.push(p.len() as u8);
            let mut i: usize = 0;
            while i < p.len()
                invariant
                    i <= p@.len(),
                    p@.len() < 256,
                    r@ == seq![c.packet.spec_code(), (c.opcode & 0xff) as u8,
                        (c.opcode >> 8u16) as u8, p@.len() as u8] + p@.subrange(0, i as int),
                decreases p@.len() - i,
            {
                r.push(p[i]);
                i = i + 1;
                assert(r@ =~= seq![c.packet.spec_code(), (c.opcode & 0xff) as u8,
                    (c.opcode >> 8u16) as u8, p@.len() as u8] + p@.subrange(0, i as int));
            }
            assert(p@.subrange(0, i as int) =~= p@);
        },
        None => {
            r.push(0u8);
            assert(r@ =~= frame_spec(c@));
        },
    }
    r
}

/// A connection that the host has asked for.
#[derive(Clone, Copy, Debug)]
pub struct HCIConnection {
    pub remote: BDAddr,
    pub addr_type: BDAddrType,
}

/// The power state of the host.
#[derive(Clone, Copy, PartialEq, Eq, Structural, Debug)]
pub enum HCIState {
    Off,
    Initializing,
    Working,
}

/// The step of the boot sequence: each command X is sent in `SendX`, after
/// which the host waits in `W4SendX` for its Command Complete.
#[derive(Clone, Copy, PartialEq, Eq, Structural, Debug)]
pub enum HCISubState {
    SendReset,
    W4SendReset,
    SendReadLocalSupportedCommands,
    W4SendReadLocalSupportedCommands,
    SendReadLocalSupportedFeatures,
    W4SendReadLocalSupportedFeatures,
    SendSetEventMask,
    W4SendSetEventMask,
    SendLESetEventMask,
    W4SendLESetEventMask,
    SendLEReadBufferSize,
    W4SendLEReadBufferSize,
    SendReadBufferSize,
    W4SendReadBufferSize,
    SendLEReadLocalSupportedFeatures,
    W4SendLEReadLocalSupportedFeatures,
    SendReadBDAddr,
    W4SendReadBDAddr,
    End,
}


impl HCISubState {
    /// The place of this step in the boot sequence: the k-th command (from 0)
    /// is sent at 2k and waited for at 2k + 1; `End` is last.
    pub open spec fn ordinal(self) -> nat {
        match self {
            HCISubState::SendReset => 0,
            HCISubState::W4SendReset => 1,
            HCISubState::SendReadLocalSupportedCommands => 2,
            HCISubState::W4SendReadLocalSupportedCommands => 3,
            HCISubState::SendReadLocalSupportedFeatures => 4,
            HCISubState::W4SendReadLocalSupportedFeatures => 5,
            HCISubState::SendSetEventMask => 6,
            HCISubState::W4SendSetEventMask => 7,
            HCISubState::SendLESetEventMask => 8,
            HCISubState::W4SendLESetEventMask => 9,
            HCISubState::SendLEReadBufferSize => 10,
            HCISubState::W4SendLEReadBufferSize => 11,
            HCISubState::SendReadBufferSize => 12,
            HCISubState::W4SendReadBufferSize => 13,
            HCISubState::SendLEReadLocalSupportedFeatures => 14,
            HCISubState::W4SendLEReadLocalSupportedFeatures => 15,
            HCISubState::SendReadBDAddr => 16,
            HCISubState::W4SendReadBDAddr => 17,
            HCISubState::End => 18,
        }
    }

    /// The step that follows this one; `End` is followed by itself.
    pub open spec fn successor(self) -> HCISubState {
        match self {
            HCISubState::SendReset => HCISubState::W4SendReset,
            HCISubState::W4SendReset => HCISubState::SendReadLocalSupportedCommands,
            HCISubState::SendReadLocalSupportedCommands => {
                HCISubState::W4SendReadLocalSupportedCommands
            },
            HCISubState::W4SendReadLocalSupportedCommands => {
                HCISubState::SendReadLocalSupportedFeatures
            },
            HCISubState::SendReadLocalSupportedFeatures => {
                HCISubState::W4SendReadLocalSupportedFeatures
            },
            HCISubState::W4SendReadLocalSupportedFeatures => HCISubState::SendSetEventMask,
            HCISubState::SendSetEventMask => HCISubState::W4SendSetEventMask,
            HCISubState::W4SendSetEventMask => HCISubState::SendLESetEventMask,
            HCISubState::SendLESetEventMask => HCISubState::W4SendLESetEventMask,
            HCISubState::W4SendLESetEventMask => HCISubState::SendLEReadBufferSize,
            HCISubState::SendLEReadBufferSize => HCISubState::W4SendLEReadBufferSize,
            HCISubState::W4SendLEReadBufferSize => HCISubState::SendReadBufferSize,
            HCISubState::SendReadBufferSize => HCISubState::W4SendReadBufferSize,
            HCISubState::W4SendReadBufferSize => HCISubState::SendLEReadLocalSupportedFeatures,
            HCISubState::SendLEReadLocalSupportedFeatures => {
                HCISubState::W4SendLEReadLocalSupportedFeatures
            },
            HCISubState::W4SendLEReadLocalSupportedFeatures => HCISubState::SendReadBDAddr,
            HCISubState::SendReadBDAddr => HCISubState::W4SendReadBDAddr,
            HCISubState::W4SendReadBDAddr => HCISubState::End,
            HCISubState::End => HCISubState::End,
        }
    }

    /// This step sends a command.
    pub open spec fn is_send(self) -> bool {
        self.ordinal() % 2 == 0 && self.ordinal() < 18
    }

    /// This step waits for a Command Complete.
    pub open spec fn is_w4(self) -> bool {
        self.ordinal() % 2 == 1
    }

    /// The index of the boot command that this step sends or waits for.
    pub open spec fn command_index(self) -> nat {
        self.ordinal() / 2
    }

    /// How many boot commands have been sent on reaching this step.
    pub open spec fn sent_count(self) -> nat {
        (self.ordinal() + 1) / 2
    }
}

/// The opcode of the k-th boot command: Reset, Read Local Supported Commands,
/// Read Local Supported Features, Set Event Mask, LE Set Event Mask, LE Read
/// Buffer Size, Read Buffer Size, LE Read Local Supported Features and Read
/// BD_ADDR.
pub open spec fn boot_opcode(k: nat) -> u16 {
    if k == 0 {
        pack_spec(3, 3)
    } else if k == 1 {
        pack_spec(4, 2)
    } else if k == 2 {
        pack_spec(4, 3)
    } else if k == 3 {
        pack_spec(3, 1)
    } else if k == 4 {
        pack_spec(8, 1)
    } else if k == 5 {
        pack_spec(8, 2)
    } else if k == 6 {
        pack_spec(4, 5)
    } else if k == 7 {
        pack_spec(8, 3)
    } else {
        pack_spec(4, 9)
    }
}

/// The parameters of the k-th boot command: the two event masks are sent as
/// zero, the other commands have none.
pub open spec fn boot_param(k: nat) -> Option<Seq<u8>> {
    if k == 3 || k == 4 {
        Some(u64_le(0))
    } else {
        None
    }
}

/// The opcodes of the first `n` boot commands.
pub open spec fn boot_prefix(n: nat) -> Seq<u16> {
    Seq::new(n, |k: int| boot_opcode(k as nat))
}

/// A command packet with the given opcode and parameters.
pub open spec fn command(opcode: u16, param: Option<Seq<u8>>) -> CommandView {
    CommandView { packet: HCIPacket::Command, opcode, param }
}

/// The LE advertising parameters that the host holds.
#[derive(Clone, Copy, Debug)]
pub struct LEAdvertisingParams {
    pub interval_min: u16,
    pub interval_max: u16,
    pub adv_type: AdvertisingType,
    pub own_address_type: LEAddressType,
    pub peer_address_type: LEAddressType,
    pub peer_address: BDAddr,
    pub channel_map: u8,
    pub filter_policy: AdvertisingFilterPolicy,
}

/// The mathematical form of the host.
pub struct HostView {
    pub state: HCIState,
    pub sub_state: HCISubState,
    /// Whether a transport is attached; without one, packets are dropped.
    pub attached: bool,
    /// The packets handed to the transport and not yet taken.
    pub outbox: Seq<CommandView>,
    /// The opcodes of the boot commands sent since the host entered
    /// `Initializing`.
    pub boot_sent: Seq<u16>,
    pub connections: Seq<HCIConnection>,
    pub bd_addr: BDAddr,
    pub scan_enable: ScanEnable,
    pub adv: LEAdvertisingParams,
    pub adv_state: u8,
    pub adv_todo: u16,
}

impl HostView {
    /// The host after handing `c` to the transport.
    pub open spec fn emit(self, c: CommandView) -> HostView {
        if self.attached {
            HostView { outbox: self.outbox.push(c), ..self }
        } else {
            self
        }
    }

    /// Whether the connection table holds `addr`.
    pub open spec fn has_connection(self, addr: Seq<u8>) -> bool {
        exists|i: int|
            0 <= i < self.connections.len() && #[trigger] self.connections[i].remote@ == addr
    }

    /// The connection table is keyed by address; while booting, the boot
    /// commands sent are exactly those up to the current step; and before
    /// power-on the boot sequence has not started.
    pub open spec fn wf(self) -> bool {
        &&& forall|i: int, j: int|
            0 <= i < j < self.connections.len() ==> #[trigger] self.connections[i].remote@
                != #[trigger] self.connections[j].remote@
        &&& self.state == HCIState::Initializing ==> self.boot_sent == boot_prefix(
            self.sub_state.sent_count(),
        )
        &&& self.state == HCIState::Off ==> self.sub_state == HCISubState::SendReset
    }
}

/// The host.
pub struct HCI {
    state: HCIState,
    sub_state: HCISubState,
    attached: bool,
    outbox: Vec<HCICommandPacket>,
    boot_sent: Ghost<Seq<u16>>,
    connections: Vec<HCIConnection>,
    bd_addr: BDAddr,
    scan_enable: ScanEnable,
    le_adv: LEAdvertisingParams,
    le_advertisements_state: LEAdvertisementsState,
    le_advertisements_todo: LEAdvertisementsTodo,
}

impl View for HCI {
    type V = HostView;

    closed spec fn view(&self) -> HostView {
        HostView {
            state: self.state,
            sub_state: self.sub_state,
            attached: self.attached,
            outbox: self.outbox@.map_values(|c: HCICommandPacket| c@),
            boot_sent: self.boot_sent@,
            connections: self.connections@,
            bd_addr: self.bd_addr,
            scan_enable: self.scan_enable,
            adv: self.le_adv,
            adv_state: self.le_advertisements_state.bits,
            adv_todo: self.le_advertisements_todo.bits,
        }
    }
}

/// The LE Set Advertising Parameters record for the parameters `a`.
pub open spec fn adv_params_record(a: LEAdvertisingParams) -> LESetAdvertisingParametersCmd {
    LESetAdvertisingParametersCmd {
        advertising_interval_min: a.interval_min,
        advertising_interval_max: a.interval_max,
        advertising_type: a.adv_type,
        own_address_type: a.own_address_type,
        peer_address_type: LEAddressType2::reduce(a.peer_address_type),
        peer_address: a.peer_address,
        advertising_channel_map: a.channel_map,
        advertising_filter_policy: a.filter_policy,
    }
}

/// The LE Set Advertising Enable command that turns advertising on or off.
pub open spec fn adv_enable_command(enable: bool) -> CommandView {
    (LESetAdvertisingEnableCmd { advertising_enable: enable }).command_view()
}

impl HostView {
    /// One step of the boot sequence: a `SendX` step sends X and waits for it,
    /// `End` makes the host `Working`, and a waiting step does nothing.
    pub open spec fn boot_step(self) -> HostView {
        let s = self.sub_state;
        if s == HCISubState::End {
            HostView { state: HCIState::Working, ..self }
        } else if s.is_send() {
            let k = s.command_index();
            HostView {
                sub_state: s.successor(),
                boot_sent: self.boot_sent.push(boot_opcode(k)),
                ..self.emit(command(boot_opcode(k), boot_param(k)))
            }
        } else {
            self
        }
    }

    /// A Command Complete for `opcode` during boot: it ends the wait for the
    /// command awaited, and is ignored otherwise.
    pub open spec fn boot_event(self, opcode: u16) -> HostView {
        if self.sub_state.is_w4() && opcode == boot_opcode(self.sub_state.command_index()) {
            HostView { sub_state: self.sub_state.successor(), ..self }
        } else {
            self
        }
    }

    /// Whether the advertising reconcile loop stops advertising first: it is
    /// on, and either an update waits or the host no longer wants it.
    pub open spec fn gap_must_stop(self) -> bool {
        has_u8(self.adv_state, LE_ADV_STATE_ACTIVE) && (has_u16(
            self.adv_todo,
            LE_ADV_TODO_SET_PARAMS,
        ) || !has_u8(self.adv_state, LE_ADV_STATE_ENABLED))
    }

    /// The stop phase of the reconcile loop.
    pub open spec fn gap_stop(self) -> HostView {
        if self.gap_must_stop() {
            HostView {
                adv_state: self.adv_state & !LE_ADV_STATE_ACTIVE,
                ..self.emit(adv_enable_command(false))
            }
        } else {
            self
        }
    }

    /// The modify phase of the reconcile loop.
    pub open spec fn gap_modify(self) -> HostView {
        if has_u16(self.adv_todo, LE_ADV_TODO_SET_PARAMS) {
            HostView {
                adv_todo: self.adv_todo & !LE_ADV_TODO_SET_PARAMS,
                ..self.emit(adv_params_record(self.adv).command_view())
            }
        } else {
            self
        }
    }

    /// The restore phase of the reconcile loop.
    pub open spec fn gap_restore(self) -> HostView {
        if has_u8(self.adv_state, LE_ADV_STATE_ENABLED) && !has_u8(
            self.adv_state,
            LE_ADV_STATE_ACTIVE,
        ) {
            HostView {
                adv_state: self.adv_state | LE_ADV_STATE_ACTIVE,
                ..self.emit(adv_enable_command(true))
            }
        } else {
            self
        }
    }

    /// One tick of the LE advertising reconcile loop.
    pub open spec fn gap_step(self) -> HostView {
        self.gap_stop().gap_modify().gap_restore()
    }

    /// One tick of the engine: the boot sequence while `Initializing`, the
    /// advertising loop otherwise.
    pub open spec fn run_step(self) -> HostView {
        if self.state == HCIState::Initializing {
            self.boot_step()
        } else {
            self.gap_step()
        }
    }

    /// A power request, before the engine runs: `On` while `Off` starts the
    /// boot sequence; every other request changes nothing.
    pub open spec fn power_request(self, mode: HCIPowerMode) -> HostView {
        if self.state == HCIState::Off && mode == HCIPowerMode::On {
            HostView {
                state: HCIState::Initializing,
                sub_state: HCISubState::SendReset,
                boot_sent: Seq::empty(),
                ..self
            }
        } else {
            self
        }
    }

    /// The host with the `Enabled` wish set or cleared.
    pub open spec fn with_enabled(self, enable: bool) -> HostView {
        HostView {
            adv_state: if enable {
                self.adv_state | LE_ADV_STATE_ENABLED
            } else {
                self.adv_state & !LE_ADV_STATE_ENABLED
            },
            ..self
        }
    }

    /// An inbound event packet, type octet included: a Command Complete
    /// before the host is `Working` goes to the boot sequence; anything else
    /// is ignored.
    pub open spec fn on_event(self, p: Seq<u8>) -> HostView {
        if p.len() >= 6 && p[1] == EVENT_COMMAND_COMPLETE && self.state != HCIState::Working {
            self.boot_event(le_u16_at(p, 4))
        } else {
            self
        }
    }

    /// An inbound packet: Command, ACL and Event packets are taken in and the
    /// engine runs; an empty packet or one of another type is dropped.
    pub open spec fn on_packet(self, p: Seq<u8>) -> HostView {
        if p.len() == 0 {
            self
        } else if p[0] == 1 || p[0] == 2 {
            self.run_step()
        } else if p[0] == 4 {
            self.on_event(p).run_step()
        } else {
            self
        }
    }
}

/// The 16-bit value at offset `i` of `p`, least significant octet first.
pub open spec fn le_u16_at(p: Seq<u8>, i: int) -> u16 {
    (p[i] + p[i + 1] * 256) as u16
}

/// Reads the 16-bit value at offset `i` of `p`, least significant octet
/// first.
pub fn read_u16_le(p: &Vec<u8>, i: usize) -> (r: u16)
    requires
        i + 1 < p@.len(),
    ensures
        r == le_u16_at(p@, i as int),
{
    let n = p.len();
    assert(i + 1 < n);
    let lo = p[i];
    let hi = p[i + 1];
    assert((lo as u16 | ((hi as u16) << 8u16)) as int == lo as int + hi as int * 256)
        by (bit_vector);
    lo as u16 | ((hi as u16) << 8u16)
}

/// Facts of the boot sequence's step numbering.
proof fn lemma_sub_state_order(s: HCISubState)
    ensures
        s.ordinal() <= 18,
        s != HCISubState::End ==> s.successor().ordinal() == s.ordinal() + 1,
        s == HCISubState::End <==> s.ordinal() == 18,
{
}

impl HCI {
    /// The host's invariant.
    pub open spec fn wf(&self) -> bool {
        self@.wf()
    }

    /// A host that is `Off`, with no transport, no connections, nothing to
    /// advertise and the default advertising parameters: 0x0800 for both
    /// intervals, connectable and scannable, public addresses, the three
    /// advertising channels and no filter.
    pub fn new(bd_addr: BDAddr) -> (r: HCI)
        ensures
            r.wf(),
            r@.state == HCIState::Off,
            r@.sub_state == HCISubState::SendReset,
            !r@.attached,
            r@.outbox.len() == 0,
            r@.connections.len() == 0,
            r@.bd_addr == bd_addr,
            r@.scan_enable == ScanEnable::NoScansEnable,
            r@.adv.interval_min == 0x0800,
            r@.adv.interval_max == 0x0800,
            r@.adv.adv_type == AdvertisingType::ConnectableAndScannable,
            r@.adv.own_address_type == LEAddressType::PublicDevice,
            r@.adv.peer_address_type == LEAddressType::PublicDevice,
            r@.adv.peer_address@ == seq![0u8, 0u8, 0u8, 0u8, 0u8, 0u8],
            r@.adv.channel_map == 0x07,
            r@.adv.filter_policy == AdvertisingFilterPolicy::UnFilter,
            r@.adv_state == 0,
            r@.adv_todo == 0,
    {
        let r = HCI {
            state: HCIState::Off,
            sub_state: HCISubState::SendReset,
            attached: false,
            outbox: Vec::new(),
            boot_sent: Ghost(Seq::empty()),
            connections: Vec::new(),
            bd_addr,
            scan_enable: ScanEnable::NoScansEnable,
            le_adv: LEAdvertisingParams {
                interval_min: 0x0800,
                interval_max: 0x0800,
                adv_type: AdvertisingType::ConnectableAndScannable,
                own_address_type: LEAddressType::PublicDevice,
                peer_address_type: LEAddressType::PublicDevice,
                peer_address: [0u8; 6],
                channel_map: 0x07,
                filter_policy: AdvertisingFilterPolicy::UnFilter,
            },
            le_advertisements_state: LEAdvertisementsState { bits: 0 },
            le_advertisements_todo: LEAdvertisementsTodo { bits: 0 },
        };
        assert(r@.outbox =~= Seq::empty());
        assert(r.le_adv.peer_address@ =~= seq![0u8, 0u8, 0u8, 0u8, 0u8, 0u8]);
        r
    }

    /// The local device address.
    pub fn get_bd_addr(&self) -> (r: BDAddr)
        ensures
            r == self@.bd_addr,
    {
        self.bd_addr
    }

    /// Attaches the transport: from now on the host's packets are queued for
    /// it, where before they were dropped.
    pub fn set_send_packet(&mut self)
        ensures
            final(self)@ == (HostView { attached: true, ..old(self)@ }),
    {
        self.attached = true;
    }

    /// Hands the queued packets to the caller, oldest first.
    pub fn take_outbound(&mut self) -> (r: Vec<HCICommandPacket>)
        ensures
            r@.map_values(|c: HCICommandPacket| c@) == old(self)@.outbox,
            final(self)@ == (HostView { outbox: Seq::empty(), ..old(self)@ }),
    {
        let mut r: Vec<HCICommandPacket> = Vec::new();
        r.append(&mut self.outbox);
        assert(r@ =~= old(self).outbox@);
        assert(self@.outbox =~= Seq::empty());
        r
    }

    /// The power state.
    pub fn state(&self) -> (r: HCIState)
        ensures
            r == self@.state,
    {
        self.state
    }

    /// The step of the boot sequence.
    pub fn sub_state(&self) -> (r: HCISubState)
        ensures
            r == self@.sub_state,
    {
        self.sub_state
    }

    /// What the host observes and wants of advertising.
    pub fn le_advertisements_state(&self) -> (r: LEAdvertisementsState)
        ensures
            r.bits == self@.adv_state,
    {
        self.le_advertisements_state
    }

    /// The advertising updates that wait to be sent.
    pub fn le_advertisements_todo(&self) -> (r: LEAdvertisementsTodo)
        ensures
            r.bits == self@.adv_todo,
    {
        self.le_advertisements_todo
    }

    /// The number of connections in the table.
    pub fn connection_count(&self) -> (r: usize)
        ensures
            r == self@.connections.len(),
    {
        self.connections.len()
    }

    fn push_packet(&mut self, packet: HCIPacket, opcode: u16, param: Option<Vec<u8>>)
        ensures
            final(self)@ == old(self)@.emit(
                CommandView {
                    packet,
                    opcode,
                    param: match param {
                        Some(p) => Some(p@),
                        None => None,
                    },
                },
            ),
    {
        if self.attached {
            let c = HCICommandPacket { packet, opcode, param };
            self.outbox.push(c);
            assert(self@.outbox =~= old(self)@.outbox.push(c@));
        }
    }

    /// Sends the command `(ogf, ocf)` without parameters.
    pub fn send_cmd_no_param(&mut self, ogf: u8, ocf: u16)
        ensures
            final(self)@ == old(self)@.emit(command(pack_spec(ogf, ocf), None)),
    {
        let opcode = into_opcode(ogf, ocf);
        self.push_packet(HCIPacket::Command, opcode, None);
    }

    /// Sends the command `(ogf, ocf)` with parameters `param`.
    pub fn send_cmd_with_param(&mut self, ogf: u8, ocf: u16, param: Vec<u8>)
        ensures
            final(self)@ == old(self)@.emit(command(pack_spec(ogf, ocf), Some(param@))),
    {
        let opcode = into_opcode(ogf, ocf);
        self.push_packet(HCIPacket::Command, opcode, Some(param));
    }

    fn run(&mut self)
        requires
            old(self).wf(),
        ensures
            final(self).wf(),
            final(self)@ == old(self)@.run_step(),
    {
        if self.state == HCIState::Initializing {
            self.init_process();
            return;
        }
        self.run_gap_le();
    }

    fn init_process(&mut self)
        requires
            old(self).wf(),
            old(self)@.state == HCIState::Initializing,
        ensures
            final(self).wf(),
            final(self)@ == old(self)@.boot_step(),
    {
        proof {
            lemma_sub_state_order(self.sub_state);
        }
        let ghost before = self@;
        match self.sub_state {
            HCISubState::SendReset => {
                self.sub_state = HCISubState::W4SendReset;
                let arg = ResetCmd {};
                arg.send(self);
            },
            HCISubState::SendReadLocalSupportedCommands => {
                self.sub_state = HCISubState::W4SendReadLocalSupportedCommands;
                let arg = ReadLocalSupportedCommandsCmd {};
                arg.send(self);
            },
            HCISubState::SendReadLocalSupportedFeatures => {
                self.sub_state = HCISubState::W4SendReadLocalSupportedFeatures;
                let arg = ReadLocalSupportedFeaturesCmd {};
                arg.send(self);
            },
            HCISubState::SendSetEventMask => {
                self.sub_state = HCISubState::W4SendSetEventMask;
                let arg = SetEventMaskCmd { event_mask: 0 };
                arg.send(self);
            },
            HCISubState::SendLESetEventMask => {
                self.sub_state = HCISubState::W4SendLESetEventMask;
                let arg = LESetEventMaskCmd { le_event_mask: 0 };
                arg.send(self);
            },
            HCISubState::SendLEReadBufferSize => {
                self.sub_state = HCISubState::W4SendLEReadBufferSize;
                let arg = LEReadBufferSizeCmd {};
                arg.send(self);
            },
            HCISubState::SendReadBufferSize => {
                self.sub_state = HCISubState::W4SendReadBufferSize;
                let arg = ReadBufferSizeCmd {};
                arg.send(self);
            },
            HCISubState::SendLEReadLocalSupportedFeatures => {
                self.sub_state = HCISubState::W4SendLEReadLocalSupportedFeatures;
                let arg = LEReadLocalSupportedFeaturesCmd {};
                arg.send(self);
            },
            HCISubState::SendReadBDAddr => {
                self.sub_state = HCISubState::W4SendReadBDAddr;
                let arg = ReadBDAddrCmd {};
                arg.send(self);
            },
            HCISubState::End => {
                self.state = HCIState::Working;
            },
            _ => {},
        }
        proof {
            if before.sub_state.is_send() {
                let k = before.sub_state.command_index();
                self.boot_sent = Ghost(self.boot_sent@.push(boot_opcode(k)));
                assert(self@.boot_sent =~= boot_prefix(self@.sub_state.sent_count()));
            }
        }
    }

    fn init_process_event(&mut self, opcode: u16)
        requires
            old(self).wf(),
        ensures
            final(self).wf(),
            final(self)@ == old(self)@.boot_event(opcode),
    {
        proof {
            lemma_sub_state_order(self.sub_state);
        }
        match self.sub_state {
            HCISubState::W4SendReset => {
                if opcode == ControllerAndBaseband::Reset.get_opcode() {
                    self.sub_state = HCISubState::SendReadLocalSupportedCommands;
                }
            },
            HCISubState::W4SendReadLocalSupportedCommands => {
                if opcode == InformationalParam::ReadLocalSupportedCommands.get_opcode() {
                    self.sub_state = HCISubState::SendReadLocalSupportedFeatures;
                }
            },
            HCISubState::W4SendReadLocalSupportedFeatures => {
                if opcode == InformationalParam::ReadLocalSupportedFeatures.get_opcode() {
                    self.sub_state = HCISubState::SendSetEventMask;
                }
            },
            HCISubState::W4SendSetEventMask => {
                if opcode == ControllerAndBaseband::SetEventMask.get_opcode() {
                    self.sub_state = HCISubState::SendLESetEventMask;
                }
            },
            HCISubState::W4SendLESetEventMask => {
                if opcode == LEController::LESetEventMask.get_opcode() {
                    self.sub_state = HCISubState::SendLEReadBufferSize;
                }
            },
            HCISubState::W4SendLEReadBufferSize => {
                if opcode == LEController::LEReadBufferSize.get_opcode() {
                    self.sub_state = HCISubState::SendReadBufferSize;
                }
            },
            HCISubState::W4SendReadBufferSize => {
                if opcode == InformationalParam::ReadBufferSize.get_opcode() {
                    self.sub_state = HCISubState::SendLEReadLocalSupportedFeatures;
                }
            },
            HCISubState::W4SendLEReadLocalSupportedFeatures => {
                if opcode == LEController::LEReadLocalSupportedFeatures.get_opcode() {
                    self.sub_state = HCISubState::SendReadBDAddr;
                }
            },
            HCISubState::W4SendReadBDAddr => {
                if opcode == InformationalParam::ReadBDAddr.get_opcode() {
                    self.sub_state = HCISubState::End;
                }
            },
            _ => {},
        }
    }

    fn run_gap_le(&mut self)
        requires
            old(self).wf(),
        ensures
            final(self).wf(),
            final(self)@ == old(self)@.gap_step(),
    {
        let active = LEAdvertisementsState { bits: LE_ADV_STATE_ACTIVE };
        let enabled = LEAdvertisementsState { bits: LE_ADV_STATE_ENABLED };
        let set_params = LEAdvertisementsTodo { bits: LE_ADV_TODO_SET_PARAMS };

        // Collect: decide whether advertising must be off during this tick.
        let mut advertising_stop = false;
        if self.le_advertisements_state.contains(active) {
            if self.le_advertisements_todo.contains(set_params)
                || !self.le_advertisements_state.contains(enabled) {
                advertising_stop = true;
            }
        }
        let ghost v0 = self@;
        assert(advertising_stop == v0.gap_must_stop());

        // Stop.
        if advertising_stop {
            self.le_advertisements_state.remove(active);
            let cmd = LESetAdvertisingEnableCmd { advertising_enable: false };
            cmd.send(self);
        }
        let ghost v1 = self@;
        assert(v1 == v0.gap_stop());

        // Modify.
        if self.le_advertisements_todo.contains(set_params) {
            self.le_advertisements_todo.remove(set_params);
            let cmd = LESetAdvertisingParametersCmd {
                advertising_interval_min: self.le_adv.interval_min,
                advertising_interval_max: self.le_adv.interval_max,
                advertising_type: self.le_adv.adv_type,
                own_address_type: self.le_adv.own_address_type,
                peer_address_type: LEAddressType2::from(self.le_adv.peer_address_type),
                peer_address: self.le_adv.peer_address,
                advertising_channel_map: self.le_adv.channel_map,
                advertising_filter_policy: self.le_adv.filter_policy,
            };
            cmd.send(self);
        }
        let ghost v2 = self@;
        assert(v2 == v1.gap_modify());

        // Restore.
        if self.le_advertisements_state.contains(enabled) && !self.le_advertisements_state.contains(
            active,
        ) {
            self.le_advertisements_state.insert(active);
            let cmd = LESetAdvertisingEnableCmd { advertising_enable: true };
            cmd.send(self);
        }
    }

    /// Handles a power request, then runs the engine: `On` while `Off` starts
    /// the boot sequence by sending Reset.
    pub fn power_control(&mut self, control: HCIPowerMode)
        requires
            old(self).wf(),
        ensures
            final(self).wf(),
            final(self)@ == old(self)@.power_request(control).run_step(),
    {
        match self.state {
            HCIState::Off => self.power_control_off(control),
            _ => {},
        }
        self.run();
    }

    fn power_control_off(&mut self, control: HCIPowerMode)
        requires
            old(self).wf(),
            old(self)@.state == HCIState::Off,
        ensures
            final(self).wf(),
            final(self)@ == old(self)@.power_request(control),
    {
        match control {
            HCIPowerMode::On => {
                self.power_enter_initializing_state();
            },
            _ => {},
        }
    }

    fn power_enter_initializing_state(&mut self)
        requires
            old(self).wf(),
        ensures
            final(self).wf(),
            final(self)@ == (HostView {
                state: HCIState::Initializing,
                sub_state: HCISubState::SendReset,
                boot_sent: Seq::empty(),
                ..old(self)@
            }),
    {
        self.state = HCIState::Initializing;
        self.sub_state = HCISubState::SendReset;
        self.boot_sent = Ghost(Seq::empty());
        assert(boot_prefix(0) =~= Seq::empty());
    }

    /// Takes in a framed packet from the controller, then runs the engine.
    /// Command, ACL and Event packets are taken in; a Command Complete
    /// advances the boot sequence when it acknowledges the command awaited.
    /// An empty packet or one of another type is dropped.
    pub fn recv_packet(&mut self, packet: Vec<u8>)
        requires
            old(self).wf(),
        ensures
            final(self).wf(),
            final(self)@ == old(self)@.on_packet(packet@),
    {
        if packet.len() == 0 {
            return;
        }
        // Command and ACL packets carry nothing that this core acts on; they
        // only give the engine a tick.
        match HCIPacket::from_u8(packet[0]) {
            Some(HCIPacket::Command) | Some(HCIPacket::ACL) => {},
            Some(HCIPacket::Event) => self.recv_event_data(&packet),
            _ => {
                return;
            },
        }
        self.run();
    }

    fn recv_event_data(&mut self, packet: &Vec<u8>)
        requires
            old(self).wf(),
        ensures
            final(self).wf(),
            final(self)@ == old(self)@.on_event(packet@),
    {
        if packet.len() < 6 {
            return;
        }
        match HCIEvent::from_u8(packet[1]) {
            Some(HCIEvent::CommandComplete) => {
                let opcode = read_u16_le(packet, 4);
                if self.state != HCIState::Working {
                    self.init_process_event(opcode);
                }
            },
            _ => {},
        }
    }

    fn set_adv_params(
        &mut self,
        adv_int_min: u16,
        adv_int_max: u16,
        adv_type: AdvertisingType,
        peer_addr_type: LEAddressType,
        peer_addr: BDAddr,
        channel_map: u8,
        filter_policy: AdvertisingFilterPolicy,
    )
        requires
            old(self).wf(),
        ensures
            final(self).wf(),
            final(self)@ == (HostView {
                adv: LEAdvertisingParams {
                    interval_min: adv_int_min,
                    interval_max: adv_int_max,
                    adv_type,
                    peer_address_type: peer_addr_type,
                    peer_address: peer_addr,
                    channel_map,
                    filter_policy,
                    ..old(self)@.adv
                },
                adv_todo: old(self)@.adv_todo | LE_ADV_TODO_SET_PARAMS,
                ..old(self)@
            }),
    {
        self.le_adv.interval_min = adv_int_min;
        self.le_adv.interval_max = adv_int_max;
        self.le_adv.adv_type = adv_type;
        self.le_adv.peer_address_type = peer_addr_type;
        self.le_adv.peer_address = peer_addr;
        self.le_adv.channel_map = channel_map;
        self.le_adv.filter_policy = filter_policy;
        self.le_advertisements_todo.insert(LEAdvertisementsTodo { bits: LE_ADV_TODO_SET_PARAMS });
    }

    fn set_adv_enabled(&mut self, enable: bool)
        requires
            old(self).wf(),
        ensures
            final(self).wf(),
            final(self)@ == old(self)@.with_enabled(enable),
    {
        let enabled = LEAdvertisementsState { bits: LE_ADV_STATE_ENABLED };
        if enable {
            self.le_advertisements_state.insert(enabled);
        } else {
            self.le_advertisements_state.remove(enabled);
        }
    }

    /// Whether the connection table holds `addr`.
    fn find_connection(&self, addr: &BDAddr) -> (r: bool)
        ensures
            r == self@.has_connection(addr@),
    {
        let mut i: usize = 0;
        while i < self.connections.len()
            invariant
                i <= self.connections@.len(),
                forall|k: int| 0 <= k < i ==> self.connections@[k].remote@ != addr@,
            decreases self.connections@.len() - i,
        {
            if bd_addr_eq(&self.connections[i].remote, addr) {
                assert(self@.connections[i as int].remote@ == addr@);
                return true;
            }
            i = i + 1;
        }
        false
    }

    fn add_connection(&mut self, conn: HCIConnection)
        requires
            old(self).wf(),
            !old(self)@.has_connection(conn.remote@),
        ensures
            final(self).wf(),
            final(self)@ == (HostView {
                connections: old(self)@.connections.push(conn),
                ..old(self)@
            }),
    {
        self.connections.push(conn);
        assert forall|i: int, j: int|
            0 <= i < j < self@.connections.len() implies #[trigger] self@.connections[i].remote@
            != #[trigger] self@.connections[j].remote@ by {
            if j == self@.connections.len() - 1 {
                assert(old(self)@.connections[i].remote@ == self@.connections[i].remote@);
            }
        }
    }
}


/// Stores new LE advertising parameters, marks them to be sent, and runs the
/// engine. While advertising is on, the reconcile loop turns it off around
/// the update and back on after it.
pub fn gap_advertisements_set_params(
    hci: &mut HCI,
    adv_int_min: u16,
    adv_int_max: u16,
    adv_type: AdvertisingType,
    peer_addr_type: LEAddressType,
    peer_addr: BDAddr,
    channel_map: u8,
    filter_policy: AdvertisingFilterPolicy,
)
    requires
        old(hci).wf(),
    ensures
        final(hci).wf(),
        final(hci)@ == (HostView {
            adv: LEAdvertisingParams {
                interval_min: adv_int_min,
                interval_max: adv_int_max,
                adv_type,
                peer_address_type: peer_addr_type,
                peer_address: peer_addr,
                channel_map,
                filter_policy,
                ..old(hci)@.adv
            },
            adv_todo: old(hci)@.adv_todo | LE_ADV_TODO_SET_PARAMS,
            ..old(hci)@
        }).run_step(),
{
    hci.set_adv_params(
        adv_int_min,
        adv_int_max,
        adv_type,
        peer_addr_type,
        peer_addr,
        channel_map,
        filter_policy,
    );
    hci.run();
}

/// Sets or clears the host's wish to advertise, and runs the engine.
pub fn gap_advertisements_enable(hci: &mut HCI, enable: bool)
    requires
        old(hci).wf(),
    ensures
        final(hci).wf(),
        final(hci)@ == old(hci)@.with_enabled(enable).run_step(),
{
    hci.set_adv_enabled(enable);
    hci.run();
}

/// A request from the application.
#[derive(Clone, Copy, Debug)]
pub enum BTCmd {
    On,
    Off,
    Connect(BDAddr),
    LEAdvertise(bool),
    LEConnect(BDAddr),
}

/// The Create Connection record for a Classic connection to `addr`.
pub open spec fn create_connection_record(addr: BDAddr) -> CreateConnectionCmd {
    CreateConnectionCmd {
        bd_addr: addr,
        packet_type: PacketType { bits: PACKET_TYPE_MAY_USE_DH1 },
        page_scan_repetition_mode: PageScanRepetitionMode::R0,
        reserved: 0,
        clock_offset: 0,
        allow_role_switch: 1,
    }
}

/// The LE Create Connection record for a connection to `addr`.
pub open spec fn le_create_connection_record(addr: BDAddr) -> LECreateConnectionCmd {
    LECreateConnectionCmd {
        le_scan_interval: 16,
        le_scan_window: 16,
        initiator_filter_policy: false,
        peer_address_type: LEAddressType::PublicDevice,
        peer_address: addr,
        own_address_type: LEAddressType::PublicDevice,
        conn_interval_min: 6,
        conn_interval_max: 7,
        max_latency: 0,
        supervision_timeout: 10,
        min_ce_length: 0,
        max_ce_length: 0,
    }
}

impl HostView {
    /// The host after the application request `cmd`.
    pub open spec fn exec_spec(self, cmd: BTCmd) -> HostView {
        match cmd {
            BTCmd::On => self.power_request(HCIPowerMode::On).run_step(),
            BTCmd::Off => self.power_request(HCIPowerMode::Off).run_step(),
            BTCmd::Connect(addr) => if self.has_connection(addr@) {
                self
            } else {
                HostView {
                    connections: self.connections.push(
                        HCIConnection { remote: addr, addr_type: BDAddrType::Classic },
                    ),
                    ..self
                }.emit(create_connection_record(addr).command_view())
            },
            BTCmd::LEAdvertise(enable) => self.with_enabled(enable).run_step(),
            BTCmd::LEConnect(addr) => if self.has_connection(addr@) {
                self
            } else {
                self.emit(le_create_connection_record(addr).command_view())
            },
        }
    }
}

impl BTCmd {
    /// Carries out the request on the host. `On` and `Off` are power
    /// requests. `Connect` records a Classic connection and sends Create
    /// Connection; `LEConnect` sends LE Create Connection; either is dropped
    /// when the table already holds the address. `LEAdvertise` sets or clears
    /// the wish to advertise.
    pub fn exec(&self, hci: &mut HCI)
        requires
            old(hci).wf(),
        ensures
            final(hci).wf(),
            final(hci)@ == old(hci)@.exec_spec(*self),
    {
        match self {
            BTCmd::On => hci.power_control(HCIPowerMode::On),
            BTCmd::Off => hci.power_control(HCIPowerMode::Off),
            BTCmd::Connect(addr) => {
                if hci.find_connection(addr) {
                    return;
                }
                hci.add_connection(HCIConnection { remote: *addr, addr_type: BDAddrType::Classic });
                let arg = CreateConnectionCmd {
                    bd_addr: *addr,
                    packet_type: PacketType { bits: PACKET_TYPE_MAY_USE_DH1 },
                    page_scan_repetition_mode: PageScanRepetitionMode::R0,
                    reserved: 0,
                    clock_offset: 0,
                    allow_role_switch: 1,
                };
                arg.send(hci);
            },
            BTCmd::LEAdvertise(enable) => gap_advertisements_enable(hci, *enable),
            BTCmd::LEConnect(addr) => {
                if hci.find_connection(addr) {
                    return;
                }
                let arg = LECreateConnectionCmd {
                    le_scan_interval: 16,
                    le_scan_window: 16,
                    initiator_filter_policy: false,
                    peer_address_type: LEAddressType::PublicDevice,
                    peer_address: *addr,
                    own_address_type: LEAddressType::PublicDevice,
                    conn_interval_min: 6,
                    conn_interval_max: 7,
                    max_latency: 0,
                    supervision_timeout: 10,
                    min_ce_length: 0,
                    max_ce_length: 0,
                };
                arg.send(hci);
            },
        }
    }
}


/// While the host boots and waits for a Command Complete, exactly one boot
/// command is in flight: of the boot commands sent since power-on, all but
/// the last were acknowledged, and the last one is the command that the
/// current step waits for.
pub proof fn lemma_one_boot_command_in_flight(v: HostView)
    requires
        v.wf(),
        v.state == HCIState::Initializing,
        v.sub_state.is_w4(),
    ensures
        v.boot_sent.len() == v.sub_state.command_index() + 1,
        v.boot_sent.subrange(v.sub_state.command_index() as int, v.boot_sent.len() as int)
            == seq![boot_opcode(v.sub_state.command_index())],
        forall|k: int|
            0 <= k < v.sub_state.command_index() ==> v.boot_sent[k] == boot_opcode(k as nat),
{
    lemma_sub_state_order(v.sub_state);
    let k = v.sub_state.command_index();
    assert(v.boot_sent.subrange(k as int, v.boot_sent.len() as int) =~= seq![boot_opcode(k)]);
}

/// Once the host no longer wants to advertise, one tick of the engine outside
/// the boot sequence leaves advertising off.
pub proof fn lemma_disable_clears_active(v: HostView)
    requires
        v.state != HCIState::Initializing,
    ensures
        !has_u8(v.with_enabled(false).run_step().adv_state, LE_ADV_STATE_ACTIVE),
{
    let a = v.adv_state;
    assert(!has_u8(a & !LE_ADV_STATE_ENABLED, LE_ADV_STATE_ENABLED)) by (bit_vector);
    assert(!has_u8((a & !LE_ADV_STATE_ENABLED) & !LE_ADV_STATE_ACTIVE, LE_ADV_STATE_ACTIVE))
        by (bit_vector);
    assert(!has_u8((a & !LE_ADV_STATE_ENABLED) & !LE_ADV_STATE_ACTIVE, LE_ADV_STATE_ENABLED))
        by (bit_vector);
}


/// Events advance the boot sequence only while the host is `Initializing`.
pub proof fn lemma_no_advance_outside_boot(v: HostView, p: Seq<u8>)
    requires
        v.wf(),
        v.state != HCIState::Initializing,
    ensures
        v.on_event(p) == v,
{
    lemma_sub_state_order(v.sub_state);
}


/// After a tick of the advertising loop, advertising is on only if the host
/// wants it: `Active` without `Enabled` does not outlast a tick.
pub proof fn lemma_active_implies_enabled(v: HostView)
    ensures
        has_u8(v.gap_step().adv_state, LE_ADV_STATE_ACTIVE) ==> has_u8(
            v.gap_step().adv_state,
            LE_ADV_STATE_ENABLED,
        ),
{
    let a = v.adv_state;
    let a1 = v.gap_stop().adv_state;
    assert(!has_u8(a & !LE_ADV_STATE_ACTIVE, LE_ADV_STATE_ACTIVE)) by (bit_vector);
    assert(has_u8(a1, LE_ADV_STATE_ENABLED) ==> has_u8(
        a1 | LE_ADV_STATE_ACTIVE,
        LE_ADV_STATE_ENABLED,
    )) by (bit_vector);
}

} // verus!
