//! The controller's dispatch table: one row per command group, one column per
//! command field, each live entry naming its handler and its place in the
//! supported-commands bit map. The bit map is computed from the table itself.
use vstd::prelude::*;

use super::{Control, ControlView, ControllerErrorCode};
use crate::host::hci_cmd::{
    u64_le, CommandCompleteEvt, LEReadAdvertisingPhysicalChannelTxPowerRet, LEReadBufferSizeRet,
    LEReadLocalSupportedFeaturesRet, LESetAdvertisingDataRet, LESetAdvertisingEnableRet,
    LESetAdvertisingParametersRet, LESetEventMaskRet, LESetScanResponseDataRet,
    RBlueToU8Array, ReadBDAddrRet, ReadBufferSizeRet, ReadLocalSupportedCommandsRet,
    ReadLocalSupportedFeaturesRet, ResetRet, SetEventMaskRet, SupportedCommands,
};
use crate::host::hci::HCIEvent;
use crate::host::u16_le;

verus! {

/// The command handlers of the controller.
#[derive(Clone, Copy, PartialEq, Eq, Structural, Debug)]
pub enum CmdHandler {
    SetEventMask,
    Reset,
    ReadLocalSupportedCommands,
    ReadLocalSupportedFeatures,
    ReadBufferSize,
    ReadBDAddress,
    LESetEventMask,
    LEReadBufferSize,
    LEReadLocalSupportedFeatures,
    LESetAdvertisingParameters,
    LEReadAdvertisingPhysicalChannelTxPower,
    LESetAdvertisingData,
    LESetScanResponseData,
    LESetAdvertisingEnable,
}

/// An entry of the dispatch table: the place of its command in the
/// supported-commands bit map (octet in the high half of `flag`, bit mask in
/// the low half) and its handler.
#[derive(Clone, Copy, Debug)]
pub struct HCICmdTable {
    pub flag: u16,
    pub handle: CmdHandler,
}

/// The flag of the octet `byten` and bit mask `bit`.
pub open spec fn flag_spec(byten: u8, bit: u8) -> u16 {
    (((byten as u16) << 8u16) | (bit as u16)) as u16
}

/// The octet of the bit map that a flag names.
pub open spec fn flag_byte(flag: u16) -> int {
    (flag >> 8u16) as int
}

/// The bit mask within its octet that a flag names.
pub open spec fn flag_mask(flag: u16) -> u8 {
    (flag & 0xffu16) as u8
}

/// Packs an octet index and a bit mask into a flag.
pub fn compute_hci_cmd_flag(byten: u8, bit: u8) -> (r: u16)
    ensures
        r == flag_spec(byten, bit),
        flag_byte(r) == byten,
        flag_mask(r) == bit,
{
    proof {
        lemma_flag_parts(byten, bit);
    }
    ((byten as u16) << 8u16) | (bit as u16)
}

proof fn lemma_flag_parts(byten: u8, bit: u8)
    ensures
        flag_byte(flag_spec(byten, bit)) == byten,
        flag_mask(flag_spec(byten, bit)) == bit,
{
    assert(((((byten as u16) << 8u16) | (bit as u16)) as u16 >> 8u16) == byten as u16)
        by (bit_vector);
    assert((((((byten as u16) << 8u16) | (bit as u16)) as u16 & 0xffu16) as u8) == bit)
        by (bit_vector);
}

// The masks of the commands in the supported-commands bit map: octet 5 holds
// Set Event Mask and Reset, octets 14 and 15 the informational parameters,
// octets 25 and 26 the LE commands.
pub const HCI_SET_EVENT_MASK_BIT: u8 = 0x40;
pub const HCI_RESET_BIT: u8 = 0x80;
pub const HCI_READ_LOCAL_SUPPORTED_COMMANDS_BIT: u8 = 0x10;
pub const HCI_READ_LOCAL_SUPPORTED_FEATURES_BIT: u8 = 0x20;
pub const HCI_READ_BUFFER_SIZE_BIT: u8 = 0x80;
pub const HCI_READ_BD_ADDR_BIT: u8 = 0x02;
pub const HCI_LE_SET_EVENT_MASK_BIT: u8 = 0x01;
pub const HCI_LE_READ_BUFFER_SIZE_BIT: u8 = 0x02;
pub const HCI_LE_READ_LOCAL_SUPPORTED_FEATURES_BIT: u8 = 0x04;
pub const HCI_LE_SET_ADVERTISING_PARAMETERS_BIT: u8 = 0x20;
pub const HCI_LE_READ_ADVERTISING_PHYSICAL_CHANNEL_TX_POWER_BIT: u8 = 0x40;
pub const HCI_LE_SET_ADVERTISING_DATA_BIT: u8 = 0x80;
pub const HCI_LE_SET_SCAN_RESPONSE_DATA_BIT: u8 = 0x01;
pub const HCI_LE_SET_ADVERTISING_ENABLE_BIT: u8 = 0x02;

/// The live entry for the command at octet `byten`, mask `bit`, handled by `h`.
pub open spec fn table_entry(byten: u8, bit: u8, h: CmdHandler) -> Option<HCICmdTable> {
    Some(HCICmdTable { flag: flag_spec(byten, bit), handle: h })
}

fn create_hci_cmd_table(byten: u8, bit: u8, h: CmdHandler) -> (r: Option<HCICmdTable>)
    ensures
        r == table_entry(byten, bit, h),
{
    Some(HCICmdTable { flag: compute_hci_cmd_flag(byten, bit), handle: h })
}

/// The dispatch table: row `ogf - 1`, column `ocf - 1`.
pub open spec fn table_spec() -> Seq<Seq<Option<HCICmdTable>>> {
    seq![
        Seq::empty(),
        Seq::empty(),
        seq![
            table_entry(5, HCI_SET_EVENT_MASK_BIT, CmdHandler::SetEventMask),
            None,
            table_entry(5, HCI_RESET_BIT, CmdHandler::Reset),
        ],
        seq![
            None,
            table_entry(
                14,
                HCI_READ_LOCAL_SUPPORTED_COMMANDS_BIT,
                CmdHandler::ReadLocalSupportedCommands,
            ),
            table_entry(
                14,
                HCI_READ_LOCAL_SUPPORTED_FEATURES_BIT,
                CmdHandler::ReadLocalSupportedFeatures,
            ),
            None,
            table_entry(14, HCI_READ_BUFFER_SIZE_BIT, CmdHandler::ReadBufferSize),
            None,
            None,
            None,
            table_entry(15, HCI_READ_BD_ADDR_BIT, CmdHandler::ReadBDAddress),
        ],
        Seq::empty(),
        Seq::empty(),
        Seq::empty(),
        seq![
            table_entry(25, HCI_LE_SET_EVENT_MASK_BIT, CmdHandler::LESetEventMask),
            table_entry(25, HCI_LE_READ_BUFFER_SIZE_BIT, CmdHandler::LEReadBufferSize),
            table_entry(
                25,
                HCI_LE_READ_LOCAL_SUPPORTED_FEATURES_BIT,
                CmdHandler::LEReadLocalSupportedFeatures,
            ),
            None,
            None,
            table_entry(
                25,
                HCI_LE_SET_ADVERTISING_PARAMETERS_BIT,
                CmdHandler::LESetAdvertisingParameters,
            ),
            table_entry(
                25,
                HCI_LE_READ_ADVERTISING_PHYSICAL_CHANNEL_TX_POWER_BIT,
                CmdHandler::LEReadAdvertisingPhysicalChannelTxPower,
            ),
            table_entry(25, HCI_LE_SET_ADVERTISING_DATA_BIT, CmdHandler::LESetAdvertisingData),
            table_entry(26, HCI_LE_SET_SCAN_RESPONSE_DATA_BIT, CmdHandler::LESetScanResponseData),
            table_entry(26, HCI_LE_SET_ADVERTISING_ENABLE_BIT, CmdHandler::LESetAdvertisingEnable),
        ],
    ]
}

/// The rows of a table as sequences.
pub open spec fn table_view(t: Vec<Vec<Option<HCICmdTable>>>) -> Seq<Seq<Option<HCICmdTable>>> {
    t@.map_values(|row: Vec<Option<HCICmdTable>>| row@)
}

/// Builds the dispatch table.
pub fn hci_cmd_table() -> (r: Vec<Vec<Option<HCICmdTable>>>)
    ensures
        table_view(r) == table_spec(),
{
    let row0: Vec<Option<HCICmdTable>> = Vec::new();
    let row1: Vec<Option<HCICmdTable>> = Vec::new();
    let row2: Vec<Option<HCICmdTable>> = vec![
        create_hci_cmd_table(5, HCI_SET_EVENT_MASK_BIT, CmdHandler::SetEventMask),
        None,
        create_hci_cmd_table(5, HCI_RESET_BIT, CmdHandler::Reset),
    ];
    let row3: Vec<Option<HCICmdTable>> = vec![
        None,
        create_hci_cmd_table(
            14,
            HCI_READ_LOCAL_SUPPORTED_COMMANDS_BIT,
            CmdHandler::ReadLocalSupportedCommands,
        ),
        create_hci_cmd_table(
            14,
            HCI_READ_LOCAL_SUPPORTED_FEATURES_BIT,
            CmdHandler::ReadLocalSupportedFeatures,
        ),
        None,
        create_hci_cmd_table(14, HCI_READ_BUFFER_SIZE_BIT, CmdHandler::ReadBufferSize),
        None,
        None,
        None,
        create_hci_cmd_table(15, HCI_READ_BD_ADDR_BIT, CmdHandler::ReadBDAddress),
    ];
    let row4: Vec<Option<HCICmdTable>> = Vec::new();
    let row5: Vec<Option<HCICmdTable>> = Vec::new();
    let row6: Vec<Option<HCICmdTable>> = Vec::new();
    let row7: Vec<Option<HCICmdTable>> = vec![
        create_hci_cmd_table(25, HCI_LE_SET_EVENT_MASK_BIT, CmdHandler::LESetEventMask),
        create_hci_cmd_table(25, HCI_LE_READ_BUFFER_SIZE_BIT, CmdHandler::LEReadBufferSize),
        create_hci_cmd_table(
            25,
            HCI_LE_READ_LOCAL_SUPPORTED_FEATURES_BIT,
            CmdHandler::LEReadLocalSupportedFeatures,
        ),
        None,
        None,
        create_hci_cmd_table(
            25,
            HCI_LE_SET_ADVERTISING_PARAMETERS_BIT,
            CmdHandler::LESetAdvertisingParameters,
        ),
        create_hci_cmd_table(
            25,
            HCI_LE_READ_ADVERTISING_PHYSICAL_CHANNEL_TX_POWER_BIT,
            CmdHandler::LEReadAdvertisingPhysicalChannelTxPower,
        ),
        create_hci_cmd_table(25, HCI_LE_SET_ADVERTISING_DATA_BIT, CmdHandler::LESetAdvertisingData),
        create_hci_cmd_table(
            26,
            HCI_LE_SET_SCAN_RESPONSE_DATA_BIT,
            CmdHandler::LESetScanResponseData,
        ),
        create_hci_cmd_table(
            26,
            HCI_LE_SET_ADVERTISING_ENABLE_BIT,
            CmdHandler::LESetAdvertisingEnable,
        ),
    ];
    let r = vec![row0, row1, row2, row3, row4, row5, row6, row7];
    assert(table_view(r) =~= table_spec());
    r
}

/// The entry that a table holds for `opcode`, if any.
pub open spec fn lookup_spec(t: Seq<Seq<Option<HCICmdTable>>>, opcode: u16) -> Option<HCICmdTable> {
    let ogf = opcode / 1024;
    let ocf = opcode % 1024;
    if 1 <= ogf <= t.len() && 1 <= ocf <= t[ogf - 1].len() {
        t[ogf - 1][ocf - 1]
    } else {
        None
    }
}

/// Every entry of a table names an octet of the 64-octet bit map.
pub open spec fn table_wf(t: Seq<Seq<Option<HCICmdTable>>>) -> bool {
    forall|i: int, j: int|
        0 <= i < t.len() && 0 <= j < t[i].len() && (#[trigger] t[i][j]) is Some ==> 0 <= flag_byte(
            t[i][j]->Some_0.flag,
        ) < 64
}

/// The mask that entry `e` contributes to octet `k`.
pub open spec fn entry_mask(e: Option<HCICmdTable>, k: int) -> u8 {
    match e {
        Some(c) => if flag_byte(c.flag) == k {
            flag_mask(c.flag)
        } else {
            0
        },
        None => 0,
    }
}

/// The union of the masks that the first `n` entries of `row` contribute to
/// octet `k`.
pub open spec fn row_mask(row: Seq<Option<HCICmdTable>>, n: int, k: int) -> u8
    decreases n,
{
    if n <= 0 {
        0
    } else {
        row_mask(row, n - 1, k) | entry_mask(row[n - 1], k)
    }
}

/// The union of the masks that the first `n` rows of `t` contribute to octet
/// `k`.
pub open spec fn table_mask(t: Seq<Seq<Option<HCICmdTable>>>, n: int, k: int) -> u8
    decreases n,
{
    if n <= 0 {
        0
    } else {
        table_mask(t, n - 1, k) | row_mask(t[n - 1], t[n - 1].len() as int, k)
    }
}

/// The supported-commands bit map of a table.
pub open spec fn supported_commands_spec(t: Seq<Seq<Option<HCICmdTable>>>) -> Seq<u8> {
    Seq::new(64, |k: int| table_mask(t, t.len() as int, k))
}

proof fn lemma_or_facts(x: u8, y: u8, z: u8)
    ensures
        (x | y) | z == x | (y | z),
        x | 0u8 == x,
        0u8 | 0u8 == 0u8,
{
    assert((x | y) | z == x | (y | z)) by (bit_vector);
    assert(x | 0u8 == x) by (bit_vector);
    assert(0u8 | 0u8 == 0u8) by (bit_vector);
}

/// Computes the supported-commands bit map of a table: octet `k` is the
/// union of the masks of the entries that name octet `k`.
pub fn compute_hci_cmd_support(table: &Vec<Vec<Option<HCICmdTable>>>) -> (r: SupportedCommands)
    requires
        table_wf(table_view(*table)),
    ensures
        r@ == supported_commands_spec(table_view(*table)),
{
    let ghost t = table_view(*table);
    let mut support: [u8; 64] = [0u8; 64];
    proof {
        lemma_or_facts(0, 0, 0);
    }
    let mut i: usize = 0;
    while i < table.len()
        invariant
            t == table_view(*table),
            table_wf(t),
            i <= t.len(),
            support@.len() == 64,
            forall|k: int| 0 <= k < 64 ==> support@[k] == table_mask(t, i as int, k),
        decreases t.len() - i,
    {
        let sub = &table[i];
        assert(sub@ == t[i as int]);
        assert forall|k: int| 0 <= k < 64 implies support@[k] == table_mask(t, i as int, k)
            | row_mask(sub@, 0, k) by {
            lemma_or_facts(table_mask(t, i as int, k), 0, 0);
        }
        let mut j: usize = 0;
        while j < sub.len()
            invariant
                t == table_view(*table),
                table_wf(t),
                i < t.len(),
                sub@ == t[i as int],
                j <= sub@.len(),
                support@.len() == 64,
                forall|k: int|
                    0 <= k < 64 ==> support@[k] == table_mask(t, i as int, k) | row_mask(
                        sub@,
                        j as int,
                        k,
                    ),
            decreases sub@.len() - j,
        {
            if let Some(cmd) = sub[j] {
                let byte = cmd.flag >> 8u16;
                let bit = #[verifier::truncate] ((cmd.flag & 0xffu16) as u8);
                assert(t[i as int][j as int] is Some);
                let ghost before = support@;
                support[byte as usize] = support[byte as usize] | bit;
                assert forall|k: int| 0 <= k < 64 implies support@[k] == table_mask(
                    t,
                    i as int,
                    k,
                ) | row_mask(sub@, j + 1, k) by {
                    lemma_or_facts(
                        table_mask(t, i as int, k),
                        row_mask(sub@, j as int, k),
                        entry_mask(sub@[j as int], k),
                    );
                    lemma_or_facts(row_mask(sub@, j as int, k), 0, 0);
                }
            } else {
                assert forall|k: int| 0 <= k < 64 implies support@[k] == table_mask(
                    t,
                    i as int,
                    k,
                ) | row_mask(sub@, j + 1, k) by {
                    lemma_or_facts(row_mask(sub@, j as int, k), 0, 0);
                }
            }
            j = j + 1;
        }
        i = i + 1;
    }
    assert(support@ =~= supported_commands_spec(t));
    support
}

/// Whether bit `b` of `x` is set.
pub open spec fn has_bit(x: u8, b: u8) -> bool {
    (x >> b) & 1u8 == 1u8
}

proof fn lemma_bit_of_or(x: u8, y: u8, b: u8)
    requires
        b < 8,
    ensures
        has_bit(x | y, b) == (has_bit(x, b) || has_bit(y, b)),
        !has_bit(0u8, b),
{
    assert(((x | y) >> b) & 1u8 == 1u8 <==> ((x >> b) & 1u8 == 1u8 || (y >> b) & 1u8 == 1u8))
        by (bit_vector)
        requires
            b < 8,
    ;
    assert((0u8 >> b) & 1u8 != 1u8) by (bit_vector);
}

proof fn lemma_row_mask_bit(row: Seq<Option<HCICmdTable>>, n: int, k: int, b: u8)
    requires
        0 <= n <= row.len(),
        b < 8,
    ensures
        has_bit(row_mask(row, n, k), b) <==> exists|j: int|
            0 <= j < n && #[trigger] row[j] is Some && flag_byte(row[j]->Some_0.flag) == k
                && has_bit(flag_mask(row[j]->Some_0.flag), b),
    decreases n,
{
    if n > 0 {
        lemma_row_mask_bit(row, n - 1, k, b);
        lemma_bit_of_or(row_mask(row, n - 1, k), entry_mask(row[n - 1], k), b);
        if has_bit(entry_mask(row[n - 1], k), b) {
            assert(row[n - 1] is Some);
        }
    } else {
        lemma_bit_of_or(0, 0, b);
    }
}

proof fn lemma_table_mask_bit(t: Seq<Seq<Option<HCICmdTable>>>, n: int, k: int, b: u8)
    requires
        0 <= n <= t.len(),
        b < 8,
    ensures
        has_bit(table_mask(t, n, k), b) <==> exists|i: int, j: int|
            0 <= i < n && 0 <= j < t[i].len() && #[trigger] t[i][j] is Some && flag_byte(
                t[i][j]->Some_0.flag,
            ) == k && has_bit(flag_mask(t[i][j]->Some_0.flag), b),
    decreases n,
{
    if n > 0 {
        lemma_table_mask_bit(t, n - 1, k, b);
        lemma_row_mask_bit(t[n - 1], t[n - 1].len() as int, k, b);
        lemma_bit_of_or(table_mask(t, n - 1, k), row_mask(t[n - 1], t[n - 1].len() as int, k), b);
        if has_bit(row_mask(t[n - 1], t[n - 1].len() as int, k), b) {
            let j = choose|j: int|
                0 <= j < t[n - 1].len() && #[trigger] t[n - 1][j] is Some && flag_byte(
                    t[n - 1][j]->Some_0.flag,
                ) == k && has_bit(flag_mask(t[n - 1][j]->Some_0.flag), b);
            assert(t[n - 1][j] is Some);
        }
        assert forall|i: int, j: int|
            0 <= i < n && 0 <= j < t[i].len() && #[trigger] t[i][j] is Some && flag_byte(
                t[i][j]->Some_0.flag,
            ) == k && has_bit(flag_mask(t[i][j]->Some_0.flag), b) implies has_bit(
            table_mask(t, n, k),
            b,
        ) by {
            if i == n - 1 {
                assert(t[n - 1][j] is Some);
            }
        }
    } else {
        lemma_bit_of_or(0, 0, b);
    }
}

/// The supported-commands bit map is an exact image of the table: every bit
/// of every entry's mask is set in the octet that the entry names, and every
/// bit set in the map belongs to the mask of an entry that names its octet.
pub proof fn lemma_supported_commands_exact(t: Seq<Seq<Option<HCICmdTable>>>)
    requires
        table_wf(t),
    ensures
        forall|i: int, j: int, b: u8|
            0 <= i < t.len() && 0 <= j < t[i].len() && b < 8 && (#[trigger] t[i][j]) is Some
                && #[trigger] has_bit(flag_mask(t[i][j]->Some_0.flag), b) ==> has_bit(
                supported_commands_spec(t)[flag_byte(t[i][j]->Some_0.flag)],
                b,
            ),
        forall|k: int, b: u8|
            0 <= k < 64 && b < 8 && #[trigger] has_bit(supported_commands_spec(t)[k], b)
                ==> exists|i: int, j: int|
                0 <= i < t.len() && 0 <= j < t[i].len() && #[trigger] t[i][j] is Some
                    && flag_byte(t[i][j]->Some_0.flag) == k && has_bit(
                    flag_mask(t[i][j]->Some_0.flag),
                    b,
                ),
{
    assert forall|i: int, j: int, b: u8|
        0 <= i < t.len() && 0 <= j < t[i].len() && b < 8 && (#[trigger] t[i][j]) is Some
            && #[trigger] has_bit(flag_mask(t[i][j]->Some_0.flag), b) implies has_bit(
        supported_commands_spec(t)[flag_byte(t[i][j]->Some_0.flag)],
        b,
    ) by {
        let k = flag_byte(t[i][j]->Some_0.flag);
        lemma_table_mask_bit(t, t.len() as int, k, b);
    }
    assert forall|k: int, b: u8|
        0 <= k < 64 && b < 8 && #[trigger] has_bit(supported_commands_spec(t)[k], b) implies exists|
        i: int,
        j: int,
    |
        0 <= i < t.len() && 0 <= j < t[i].len() && #[trigger] t[i][j] is Some && flag_byte(
            t[i][j]->Some_0.flag,
        ) == k && has_bit(flag_mask(t[i][j]->Some_0.flag), b) by {
        lemma_table_mask_bit(t, t.len() as int, k, b);
    }
}

/// The controller's own table names only octets of the bit map.
proof fn lemma_table_spec_wf()
    ensures
        table_wf(table_spec()),
{
    lemma_flag_parts(5, HCI_SET_EVENT_MASK_BIT);
    lemma_flag_parts(5, HCI_RESET_BIT);
    lemma_flag_parts(14, HCI_READ_LOCAL_SUPPORTED_COMMANDS_BIT);
    lemma_flag_parts(14, HCI_READ_LOCAL_SUPPORTED_FEATURES_BIT);
    lemma_flag_parts(14, HCI_READ_BUFFER_SIZE_BIT);
    lemma_flag_parts(15, HCI_READ_BD_ADDR_BIT);
    lemma_flag_parts(25, HCI_LE_SET_EVENT_MASK_BIT);
    lemma_flag_parts(25, HCI_LE_READ_BUFFER_SIZE_BIT);
    lemma_flag_parts(25, HCI_LE_READ_LOCAL_SUPPORTED_FEATURES_BIT);
    lemma_flag_parts(25, HCI_LE_SET_ADVERTISING_PARAMETERS_BIT);
    lemma_flag_parts(25, HCI_LE_READ_ADVERTISING_PHYSICAL_CHANNEL_TX_POWER_BIT);
    lemma_flag_parts(25, HCI_LE_SET_ADVERTISING_DATA_BIT);
    lemma_flag_parts(26, HCI_LE_SET_SCAN_RESPONSE_DATA_BIT);
    lemma_flag_parts(26, HCI_LE_SET_ADVERTISING_ENABLE_BIT);
    let t = table_spec();
    assert forall|i: int, j: int|
        0 <= i < t.len() && 0 <= j < t[i].len() && (#[trigger] t[i][j]) is Some implies 0
        <= flag_byte(t[i][j]->Some_0.flag) < 64 by {
        assert(0 <= i < 8);
    }
}

/// The controller's supported-commands bit map.
pub fn supported_commands() -> (r: SupportedCommands)
    ensures
        r@ == supported_commands_spec(table_spec()),
{
    let table = hci_cmd_table();
    proof {
        lemma_table_spec_wf();
    }
    compute_hci_cmd_support(&table)
}

proof fn lemma_zero_le()
    ensures
        u16_le(0) == zeros(2),
        u64_le(0) == zeros(8),
{
    assert(0u16 & 0xffu16 == 0u16) by (bit_vector);
    assert(0u16 >> 8u16 == 0u16) by (bit_vector);
    assert(0u64 >> 8u64 == 0u64) by (bit_vector);
    assert(0u64 >> 16u64 == 0u64) by (bit_vector);
    assert(0u64 >> 24u64 == 0u64) by (bit_vector);
    assert(0u64 >> 32u64 == 0u64) by (bit_vector);
    assert(0u64 >> 40u64 == 0u64) by (bit_vector);
    assert(0u64 >> 48u64 == 0u64) by (bit_vector);
    assert(0u64 >> 56u64 == 0u64) by (bit_vector);
    assert(u16_le(0) =~= zeros(2));
    assert(u64_le(0) =~= zeros(8));
}

/// `n` zero octets.
pub open spec fn zeros(n: nat) -> Seq<u8> {
    Seq::new(n, |i: int| 0u8)
}

/// The return parameters with which a handler answers.
pub open spec fn handler_return(h: CmdHandler) -> Seq<u8> {
    match h {
        CmdHandler::SetEventMask => seq![0u8],
        CmdHandler::Reset => seq![0u8],
        CmdHandler::ReadLocalSupportedCommands => seq![0u8] + supported_commands_spec(table_spec()),
        CmdHandler::ReadLocalSupportedFeatures => seq![0u8] + zeros(8),
        CmdHandler::ReadBufferSize => seq![0u8] + zeros(7),
        CmdHandler::ReadBDAddress => seq![0u8] + zeros(6),
        CmdHandler::LESetEventMask => seq![0u8],
        CmdHandler::LEReadBufferSize => seq![0u8] + zeros(3),
        CmdHandler::LEReadLocalSupportedFeatures => seq![0u8] + zeros(8),
        CmdHandler::LESetAdvertisingParameters => seq![0u8],
        CmdHandler::LEReadAdvertisingPhysicalChannelTxPower => seq![0u8] + zeros(1),
        CmdHandler::LESetAdvertisingData => seq![0u8],
        CmdHandler::LESetScanResponseData => seq![0u8],
        CmdHandler::LESetAdvertisingEnable => seq![0u8],
    }
}

impl ControlView {
    /// The controller after handler `h` answered `opcode`: a Command Complete
    /// with its return parameters; Reset also clears the power flag.
    pub open spec fn handle(self, h: CmdHandler, opcode: u16) -> ControlView {
        let v = if h == CmdHandler::Reset {
            ControlView { powered: false, ..self }
        } else {
            self
        };
        v.complete(opcode, handler_return(h))
    }
}

/// The number of commands that the host may send, which each Command
/// Complete advertises.
pub const NUM_HCI_COMMAND_PACKETS: u8 = 5;

fn bb_send_event<T: RBlueToU8Array>(bb: &mut Control, opcode: u16, ret: T)
    requires
        ret.wire().len() < 200,
    ensures
        final(bb)@ == old(bb)@.complete(opcode, ret.wire()),
{
    let evt = CommandCompleteEvt {
        num_hci_command_packets: NUM_HCI_COMMAND_PACKETS,
        opcode,
        return_param: ret,
    };
    let bytes = evt.to_u8_array();
    assert(bytes@ =~= seq![NUM_HCI_COMMAND_PACKETS] + u16_le(opcode) + ret.wire());
    bb.send_event(HCIEvent::CommandComplete.code(), bytes);
}

/// Runs handler `h` for `opcode`.
pub fn dispatch(bb: &mut Control, h: CmdHandler, opcode: u16)
    ensures
        final(bb)@ == old(bb)@.handle(h, opcode),
{
    match h {
        CmdHandler::SetEventMask => set_event_mask(bb, opcode),
        CmdHandler::Reset => reset(bb, opcode),
        CmdHandler::ReadLocalSupportedCommands => read_local_supported_commands(bb, opcode),
        CmdHandler::ReadLocalSupportedFeatures => read_local_supported_features(bb, opcode),
        CmdHandler::ReadBufferSize => read_buffer_size(bb, opcode),
        CmdHandler::ReadBDAddress => read_bd_address(bb, opcode),
        CmdHandler::LESetEventMask => le_set_event_mask(bb, opcode),
        CmdHandler::LEReadBufferSize => le_read_buffer_size(bb, opcode),
        CmdHandler::LEReadLocalSupportedFeatures => le_read_local_supported_features(bb, opcode),
        CmdHandler::LESetAdvertisingParameters => le_set_advertising_parameters(bb, opcode),
        CmdHandler::LEReadAdvertisingPhysicalChannelTxPower => {
            le_read_advertising_physical_channel_tx_power(bb, opcode)
        },
        CmdHandler::LESetAdvertisingData => le_set_advertising_data(bb, opcode),
        CmdHandler::LESetScanResponseData => le_set_scan_response_data(bb, opcode),
        CmdHandler::LESetAdvertisingEnable => le_set_advertising_enable(bb, opcode),
    }
}

// Controller and Baseband commands

fn set_event_mask(bb: &mut Control, opcode: u16)
    ensures
        final(bb)@ == old(bb)@.handle(CmdHandler::SetEventMask, opcode),
{
    let ret = SetEventMaskRet { status: ControllerErrorCode::Success };
    assert(ret.wire() =~= handler_return(CmdHandler::SetEventMask));
    bb_send_event(bb, opcode, ret);
}

fn reset(bb: &mut Control, opcode: u16)
    ensures
        final(bb)@ == old(bb)@.handle(CmdHandler::Reset, opcode),
{
    bb.power_on();
    let ret = ResetRet { status: ControllerErrorCode::Success };
    assert(ret.wire() =~= handler_return(CmdHandler::Reset));
    bb_send_event(bb, opcode, ret);
}

// Informational parameters

fn read_local_supported_commands(bb: &mut Control, opcode: u16)
    ensures
        final(bb)@ == old(bb)@.handle(CmdHandler::ReadLocalSupportedCommands, opcode),
{
    let ret = ReadLocalSupportedCommandsRet {
        status: ControllerErrorCode::Success,
        supported_commands: supported_commands(),
    };
    assert(ret.wire() =~= handler_return(CmdHandler::ReadLocalSupportedCommands));
    bb_send_event(bb, opcode, ret);
}

fn read_local_supported_features(bb: &mut Control, opcode: u16)
    ensures
        final(bb)@ == old(bb)@.handle(CmdHandler::ReadLocalSupportedFeatures, opcode),
{
    let ret = ReadLocalSupportedFeaturesRet {
        status: ControllerErrorCode::Success,
        lmp_feature: [0u8; 8],
    };
    assert(ret.wire() =~= handler_return(CmdHandler::ReadLocalSupportedFeatures));
    bb_send_event(bb, opcode, ret);
}

fn read_buffer_size(bb: &mut Control, opcode: u16)
    ensures
        final(bb)@ == old(bb)@.handle(CmdHandler::ReadBufferSize, opcode),
{
    let ret = ReadBufferSizeRet {
        status: ControllerErrorCode::Success,
        acl_data_packet_length: 0,
        synchronous_data_packet_length: 0,
        total_num_acl_data_packets: 0,
        total_num_synchronous_data_packets: 0,
    };
    proof {
        lemma_zero_le();
    }
    assert(ret.wire() =~= handler_return(CmdHandler::ReadBufferSize));
    bb_send_event(bb, opcode, ret);
}

fn read_bd_address(bb: &mut Control, opcode: u16)
    ensures
        final(bb)@ == old(bb)@.handle(CmdHandler::ReadBDAddress, opcode),
{
    let ret = ReadBDAddrRet { status: ControllerErrorCode::Success, bd_addr: [0u8; 6] };
    assert(ret.wire() =~= handler_return(CmdHandler::ReadBDAddress));
    bb_send_event(bb, opcode, ret);
}

// LE Controller commands

fn le_set_event_mask(bb: &mut Control, opcode: u16)
    ensures
        final(bb)@ == old(bb)@.handle(CmdHandler::LESetEventMask, opcode),
{
    let ret = LESetEventMaskRet { status: ControllerErrorCode::Success };
    assert(ret.wire() =~= handler_return(CmdHandler::LESetEventMask));
    bb_send_event(bb, opcode, ret);
}

fn le_read_buffer_size(bb: &mut Control, opcode: u16)
    ensures
        final(bb)@ == old(bb)@.handle(CmdHandler::LEReadBufferSize, opcode),
{
    let ret = LEReadBufferSizeRet {
        status: ControllerErrorCode::Success,
        le_acl_data_packet_length: 0,
        total_num_le_acl_data_packets: 0,
    };
    proof {
        lemma_zero_le();
    }
    assert(ret.wire() =~= handler_return(CmdHandler::LEReadBufferSize));
    bb_send_event(bb, opcode, ret);
}

fn le_read_local_supported_features(bb: &mut Control, opcode: u16)
    ensures
        final(bb)@ == old(bb)@.handle(CmdHandler::LEReadLocalSupportedFeatures, opcode),
{
    let ret = LEReadLocalSupportedFeaturesRet {
        status: ControllerErrorCode::Success,
        le_features: 0,
    };
    proof {
        lemma_zero_le();
    }
    assert(ret.wire() =~= handler_return(CmdHandler::LEReadLocalSupportedFeatures));
    bb_send_event(bb, opcode, ret);
}

fn le_set_advertising_parameters(bb: &mut Control, opcode: u16)
    ensures
        final(bb)@ == old(bb)@.handle(CmdHandler::LESetAdvertisingParameters, opcode),
{
    let ret = LESetAdvertisingParametersRet { status: ControllerErrorCode::Success };
    assert(ret.wire() =~= handler_return(CmdHandler::LESetAdvertisingParameters));
    bb_send_event(bb, opcode, ret);
}

fn le_read_advertising_physical_channel_tx_power(bb: &mut Control, opcode: u16)
    ensures
        final(bb)@ == old(bb)@.handle(CmdHandler::LEReadAdvertisingPhysicalChannelTxPower, opcode),
{
    let ret = LEReadAdvertisingPhysicalChannelTxPowerRet {
        status: ControllerErrorCode::Success,
        tx_power_level: 0,
    };
    assert(ret.wire() =~= handler_return(CmdHandler::LEReadAdvertisingPhysicalChannelTxPower));
    bb_send_event(bb, opcode, ret);
}

fn le_set_advertising_data(bb: &mut Control, opcode: u16)
    ensures
        final(bb)@ == old(bb)@.handle(CmdHandler::LESetAdvertisingData, opcode),
{
    let ret = LESetAdvertisingDataRet { status: ControllerErrorCode::Success };
    assert(ret.wire() =~= handler_return(CmdHandler::LESetAdvertisingData));
    bb_send_event(bb, opcode, ret);
}

fn le_set_scan_response_data(bb: &mut Control, opcode: u16)
    ensures
        final(bb)@ == old(bb)@.handle(CmdHandler::LESetScanResponseData, opcode),
{
    let ret = LESetScanResponseDataRet { status: ControllerErrorCode::Success };
    assert(ret.wire() =~= handler_return(CmdHandler::LESetScanResponseData));
    bb_send_event(bb, opcode, ret);
}

fn le_set_advertising_enable(bb: &mut Control, opcode: u16)
    ensures
        final(bb)@ == old(bb)@.handle(CmdHandler::LESetAdvertisingEnable, opcode),
{
    let ret = LESetAdvertisingEnableRet { status: ControllerErrorCode::Success };
    assert(ret.wire() =~= handler_return(CmdHandler::LESetAdvertisingEnable));
    bb_send_event(bb, opcode, ret);
}

} // verus!
