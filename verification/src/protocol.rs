//! The bus protocol shared by the actuator modules.
//!
//! Every module on the control bus uses the same fixed frame layouts, so
//! any module can decode any other's fault report. Payloads open with two
//! magic bytes; frames whose identifier does not belong to a module's
//! feature set, or whose payload is malformed, are dropped silently.

use vstd::prelude::*;

verus! {

pub const OSCC_MAGIC_BYTE_0: u8 = 0x05;

pub const OSCC_MAGIC_BYTE_1: u8 = 0xCC;

pub const OSCC_THROTTLE_ENABLE_CAN_ID: u32 = 0x90;

pub const OSCC_THROTTLE_DISABLE_CAN_ID: u32 = 0x91;

pub const OSCC_THROTTLE_COMMAND_CAN_ID: u32 = 0x92;

pub const OSCC_THROTTLE_REPORT_CAN_ID: u32 = 0x93;

pub const OSCC_FAULT_REPORT_CAN_ID: u32 = 0xAF;

pub const FAULT_ORIGIN_BRAKE: u8 = 0;

pub const FAULT_ORIGIN_STEERING: u8 = 1;

pub const FAULT_ORIGIN_THROTTLE: u8 = 2;

/// Diagnostic trouble code bit position: the sensor pair read an invalid
/// (grounded) value.
pub const OSCC_THROTTLE_DTC_INVALID_SENSOR_VAL: u8 = 0;

/// Diagnostic trouble code bit position: the operator overrode autonomy.
pub const OSCC_THROTTLE_DTC_OPERATOR_OVERRIDE: u8 = 1;

/// A bitfield with one diagnostic trouble code raised.
pub open spec fn with_dtc(dtcs: u8, bit: u8) -> u8 {
    dtcs | (1u8 << bit)
}

/// Raises one diagnostic trouble code in the bitfield.
pub fn set_dtc(dtcs: u8, bit: u8) -> (r: u8)
    requires
        bit < 8,
    ensures
        r == with_dtc(dtcs, bit),
{
    dtcs | (1u8 << bit)
}

/// A data frame on the control bus: an identifier and an 8-byte payload.
#[derive(Clone, Debug)]
pub struct CanDataFrame {
    pub id: u32,
    pub data: Vec<u8>,
}

/// A remote frame: an identifier with no payload.
#[derive(Clone, Copy, Debug)]
pub struct CanRemoteFrame {
    pub id: u32,
}

/// A frame received from or queued for the control bus.
#[derive(Clone, Debug)]
pub enum CanFrame {
    Data(CanDataFrame),
    Remote(CanRemoteFrame),
}

impl CanFrame {
    /// The bus identifier, whatever the frame kind.
    pub open spec fn spec_id(&self) -> u32 {
        match self {
            CanFrame::Data(f) => f.id,
            CanFrame::Remote(f) => f.id,
        }
    }

    pub fn id(&self) -> (r: u32)
        ensures
            r == self.spec_id(),
    {
        match self {
            CanFrame::Data(f) => f.id,
            CanFrame::Remote(f) => f.id,
        }
    }
}

/// Periodic status snapshot of one actuator module.
#[derive(Clone, Copy, Debug, PartialEq, Eq, Structural)]
pub struct OsccThrottleReport {
    pub enabled: bool,
    pub operator_override: bool,
    pub dtcs: u8,
}

impl OsccThrottleReport {
    pub fn new() -> (r: Self)
        ensures
            r == (OsccThrottleReport { enabled: false, operator_override: false, dtcs: 0u8 }),
    {
        OsccThrottleReport { enabled: false, operator_override: false, dtcs: 0 }
    }
}

/// A fault announcement: which module faulted and with which codes.
#[derive(Clone, Copy, Debug, PartialEq, Eq, Structural)]
pub struct OsccFaultReport {
    pub fault_origin_id: u8,
    pub dtcs: u8,
}

impl OsccFaultReport {
    pub fn new() -> (r: Self)
        ensures
            r == (OsccFaultReport { fault_origin_id: 0u8, dtcs: 0u8 }),
    {
        OsccFaultReport { fault_origin_id: 0, dtcs: 0 }
    }
}

/// An autonomy command: the requested target position in thousandths of
/// full actuation, signed so an out-of-range request can be recognised and
/// clamped rather than wrapped.
#[derive(Clone, Copy, Debug, PartialEq, Eq, Structural)]
pub struct OsccThrottleCommand {
    pub target_request: i32,
}

/// Whether a payload opens with the protocol's magic bytes.
pub open spec fn frame_magic_ok(data: Seq<u8>) -> bool {
    data.len() >= 2 && data[0] == OSCC_MAGIC_BYTE_0 && data[1] == OSCC_MAGIC_BYTE_1
}

/// A command payload: full 8 bytes opening with the magic pair.
pub open spec fn well_formed_command_data(data: Seq<u8>) -> bool {
    data.len() == 8 && frame_magic_ok(data)
}

/// A fault-report payload: full 8 bytes opening with the magic pair.
pub open spec fn well_formed_fault_data(data: Seq<u8>) -> bool {
    data.len() == 8 && frame_magic_ok(data)
}

/// The signed 16-bit value a little-endian byte pair carries, in two's
/// complement.
pub open spec fn sign_extend_16(raw: u16) -> int {
    if raw < 0x8000 {
        raw as int
    } else {
        raw - 0x10000
    }
}

/// The target request a command payload carries: bytes 2 and 3,
/// little-endian, two's complement.
pub open spec fn command_target_of(data: Seq<u8>) -> int {
    sign_extend_16((data[2] as u16) | ((data[3] as u16) << 8))
}

/// Payload of the periodic status report.
pub open spec fn bool_byte(b: bool) -> u8 {
    if b {
        1u8
    } else {
        0u8
    }
}

/// Byte layout of a status report: magic pair, enabled flag, operator
/// override flag, diagnostic codes, three reserved bytes.
pub open spec fn throttle_report_data(enabled: bool, operator_override: bool, dtcs: u8) -> Seq<
    u8,
> {
    seq![
        OSCC_MAGIC_BYTE_0,
        OSCC_MAGIC_BYTE_1,
        bool_byte(enabled),
        bool_byte(operator_override),
        dtcs,
        0u8,
        0u8,
        0u8,
    ]
}

/// Byte layout of a fault report: magic pair, origin identifier,
/// diagnostic codes, four reserved bytes.
pub open spec fn fault_report_data(fault_origin_id: u8, dtcs: u8) -> Seq<u8> {
    seq![OSCC_MAGIC_BYTE_0, OSCC_MAGIC_BYTE_1, fault_origin_id, dtcs, 0u8, 0u8, 0u8, 0u8]
}

/// Builds the periodic status frame for the given snapshot.
pub fn build_throttle_report_frame(enabled: bool, operator_override: bool, dtcs: u8) -> (r:
    CanFrame)
    ensures
        r matches CanFrame::Data(f) && f.id == OSCC_THROTTLE_REPORT_CAN_ID && f.data@
            == throttle_report_data(enabled, operator_override, dtcs),
{
    let enabled_byte: u8 = if enabled { 1 } else { 0 };
    let override_byte: u8 = if operator_override { 1 } else { 0 };
    let data: Vec<u8> = vec![
        OSCC_MAGIC_BYTE_0,
        OSCC_MAGIC_BYTE_1,
        enabled_byte,
        override_byte,
        dtcs,
        0,
        0,
        0,
    ];
    proof {
        assert(data@ =~= throttle_report_data(enabled, operator_override, dtcs));
    }
    CanFrame::Data(CanDataFrame { id: OSCC_THROTTLE_REPORT_CAN_ID, data })
}

/// Builds the fault announcement frame for the given origin and codes.
pub fn build_fault_report_frame(fault_origin_id: u8, dtcs: u8) -> (r: CanFrame)
    ensures
        r matches CanFrame::Data(f) && f.id == OSCC_FAULT_REPORT_CAN_ID && f.data@
            == fault_report_data(fault_origin_id, dtcs),
{
    let data: Vec<u8> = vec![
        OSCC_MAGIC_BYTE_0,
        OSCC_MAGIC_BYTE_1,
        fault_origin_id,
        dtcs,
        0,
        0,
        0,
        0,
    ];
    proof {
        assert(data@ =~= fault_report_data(fault_origin_id, dtcs));
    }
    CanFrame::Data(CanDataFrame { id: OSCC_FAULT_REPORT_CAN_ID, data })
}

/// Extracts a command from a data frame; a malformed payload is reported
/// as `None` and dropped by the caller.
pub fn parse_throttle_command(frame: &CanDataFrame) -> (r: Option<OsccThrottleCommand>)
    ensures
        r is Some <==> well_formed_command_data(frame.data@),
        r matches Some(c) ==> c.target_request == command_target_of(frame.data@),
{
    if frame.data.len() == 8 && frame.data[0] == OSCC_MAGIC_BYTE_0 && frame.data[1]
        == OSCC_MAGIC_BYTE_1 {
        let raw: u16 = (frame.data[2] as u16) | ((frame.data[3] as u16) << 8);
        let target: i32 = if raw < 0x8000 {
            raw as i32
        } else {
            (raw as i32) - 0x10000
        };
        Some(OsccThrottleCommand { target_request: target })
    } else {
        None
    }
}

/// Extracts a fault report from a data frame; a malformed payload is
/// reported as `None` and dropped by the caller.
pub fn parse_fault_report(frame: &CanDataFrame) -> (r: Option<OsccFaultReport>)
    ensures
        r is Some <==> well_formed_fault_data(frame.data@),
        r matches Some(rep) ==> rep.fault_origin_id == frame.data@[2] && rep.dtcs
            == frame.data@[3],
{
    if frame.data.len() == 8 && frame.data[0] == OSCC_MAGIC_BYTE_0 && frame.data[1]
        == OSCC_MAGIC_BYTE_1 {
        Some(
            OsccFaultReport {
                fault_origin_id: frame.data[2],
                dtcs: frame.data[3],
            },
        )
    } else {
        None
    }
}

} // verus!
