//! Enumerations and configuration records shared with the native library.
//!
//! Each enumeration is identified on the native side by a fixed code, given by
//! its `code` method; where the library reads a code back, `from_code` gives
//! the variant.

use vstd::prelude::*;

verus! {

/// Size (in bytes) of an error description string.
pub const BM_ERROR_DESC_MAX_SIZE: usize = 255;

/// Size (in bytes) of the envelope header, which holds type, routing, length and timestamp.
pub const BM_DATA_HEADER_SIZE: usize = 8;

/// Size (in bytes) of the envelope payload, which holds one concrete message.
pub const BM_DATA_PAYLOAD_MAX_SIZE: usize = 72;

/// Size (in bytes) of a whole envelope.
pub const BM_DATA_MAX_SIZE: usize = BM_DATA_HEADER_SIZE + BM_DATA_PAYLOAD_MAX_SIZE;

/// Size (in bytes) of the payload buffer of a CAN message, classic or FD.
pub const BM_CAN_PAYLOAD_MAX_SIZE: usize = 64;

/// Library log level.
#[derive(Clone, Copy, Debug, PartialEq, Eq, Structural)]
pub enum BMLogLevel {
    /// Show nothing on the debug console.
    Off,
    /// Show only error messages.
    Error,
    /// Show error and warning messages.
    Warning,
    /// Show error, warning and information messages.
    Info,
    /// Show all messages, debug messages included.
    Debug,
}

impl BMLogLevel {
    pub open spec fn spec_code(self) -> u32 {
        match self {
            BMLogLevel::Off => 0,
            BMLogLevel::Error => 1,
            BMLogLevel::Warning => 2,
            BMLogLevel::Info => 3,
            BMLogLevel::Debug => 4,
        }
    }

    pub fn code(self) -> (r: u32)
        ensures
            r == self.spec_code(),
    {
        match self {
            BMLogLevel::Off => 0,
            BMLogLevel::Error => 1,
            BMLogLevel::Warning => 2,
            BMLogLevel::Info => 3,
            BMLogLevel::Debug => 4,
        }
    }

    /// The level with the given code, if there is one.
    pub fn from_code(code: u32) -> (r: Option<BMLogLevel>)
        ensures
            match r {
                Some(l) => l.spec_code() == code,
                None => code > 4,
            },
    {
        match code {
            0 => Some(BMLogLevel::Off),
            1 => Some(BMLogLevel::Error),
            2 => Some(BMLogLevel::Warning),
            3 => Some(BMLogLevel::Info),
            4 => Some(BMLogLevel::Debug),
            _ => None,
        }
    }
}

/// Kind of the payload carried by an envelope.
#[derive(Clone, Copy, Debug, PartialEq, Eq, Structural)]
pub enum BMDataType {
    /// Unknown data type.
    Unknown,
    /// LIN message.
    Lin,
    /// CAN or CAN-FD message (see the FDF flag).
    Can,
    /// FlexRay message.
    FlexRay,
    /// ModBus message.
    ModBus,
    /// Ethernet message.
    Ethernet,
    /// Acknowledge from the bus: a transmit-complete event for CAN.
    Ack,
}

impl BMDataType {
    pub open spec fn spec_code(self) -> u8 {
        match self {
            BMDataType::Unknown => 0,
            BMDataType::Lin => 1,
            BMDataType::Can => 2,
            BMDataType::FlexRay => 3,
            BMDataType::ModBus => 4,
            BMDataType::Ethernet => 5,
            BMDataType::Ack => 8,
        }
    }

    pub fn code(self) -> (r: u8)
        ensures
            r == self.spec_code(),
            r < 16,
    {
        match self {
            BMDataType::Unknown => 0,
            BMDataType::Lin => 1,
            BMDataType::Can => 2,
            BMDataType::FlexRay => 3,
            BMDataType::ModBus => 4,
            BMDataType::Ethernet => 5,
            BMDataType::Ack => 8,
        }
    }

    /// The kind with the given code; codes of no defined kind give `None`.
    pub fn from_code(code: u8) -> (r: Option<BMDataType>)
        ensures
            match r {
                Some(k) => k.spec_code() == code,
                None => code == 6 || code == 7 || code > 8,
            },
    {
        match code {
            0 => Some(BMDataType::Unknown),
            1 => Some(BMDataType::Lin),
            2 => Some(BMDataType::Can),
            3 => Some(BMDataType::FlexRay),
            4 => Some(BMDataType::ModBus),
            5 => Some(BMDataType::Ethernet),
            8 => Some(BMDataType::Ack),
            _ => None,
        }
    }
}

/// Device and operation status, as returned by most native entry points.
#[derive(Clone, Copy, Debug, PartialEq, Eq, Structural)]
pub enum BMStatus {
    /// No error occurred.
    Success,
    /// Low level transmit buffer is full.
    XmtFull,
    /// Bus overrun: the device cannot keep up with the bus throughput.
    Overrun,
    /// CAN bus communication is light.
    BusLight,
    /// CAN bus communication is in warning state.
    BusWarning,
    /// CAN node is in passive state.
    BusPassive,
    /// CAN node failed to transmit a message within the given time.
    BusTimeout,
    /// CAN bus is in BUS-OFF state.
    BusOff,
    /// Some CAN bus error occurred.
    AnyBusError,
    /// Receive buffer is empty; not an error when polling.
    ReceiveBufferEmpty,
    /// Internal queue overrun.
    QueueOverrun,
    /// High level transmit queue is full.
    TransmitQueueFull,
    /// Reserved.
    RegTest,
    /// Reserved.
    NoDriver,
    /// Hardware is in use by another application.
    HardwareInUse,
    /// Reserved.
    NetInUse,
    /// Hardware error or invalid hardware handle.
    HardwareError,
    /// Invalid bus.
    InvalidBus,
    /// Invalid client.
    InvalidClient,
    /// Out of resources.
    OutOfResources,
    /// Invalid parameter type in a call.
    InvalidParameterType,
    /// Invalid parameter value in a call.
    InvalidParameterValue,
    /// Unknown error, also given for a code that names no status.
    Unknown,
    /// Invalid data received or transmitted.
    InvalidData,
    /// Reserved.
    Caution,
    /// The device or library is not initialized.
    NotInitialized,
    /// Invalid operation.
    InvalidOperation,
}

impl BMStatus {
    pub open spec fn spec_code(self) -> u32 {
        match self {
            BMStatus::Success => 0x00000,
            BMStatus::XmtFull => 0x00001,
            BMStatus::Overrun => 0x00002,
            BMStatus::BusLight => 0x00004,
            BMStatus::BusWarning => 0x00008,
            BMStatus::BusPassive => 0x40000,
            BMStatus::BusTimeout => 0x80000,
            BMStatus::BusOff => 0x00010,
            BMStatus::AnyBusError => 0x4001C,
            BMStatus::ReceiveBufferEmpty => 0x00020,
            BMStatus::QueueOverrun => 0x00040,
            BMStatus::TransmitQueueFull => 0x00080,
            BMStatus::RegTest => 0x00100,
            BMStatus::NoDriver => 0x00200,
            BMStatus::HardwareInUse => 0x00400,
            BMStatus::NetInUse => 0x00800,
            BMStatus::HardwareError => 0x01400,
            BMStatus::InvalidBus => 0x01800,
            BMStatus::InvalidClient => 0x01C00,
            BMStatus::OutOfResources => 0x02000,
            BMStatus::InvalidParameterType => 0x04000,
            BMStatus::InvalidParameterValue => 0x08000,
            BMStatus::Unknown => 0x10000,
            BMStatus::InvalidData => 0x20000,
            BMStatus::Caution => 0x2000000,
            BMStatus::NotInitialized => 0x4000000,
            BMStatus::InvalidOperation => 0x8000000,
        }
    }

    /// The status that a native code stands for: `Unknown` where no status has it.
    pub open spec fn spec_from_code(code: u32) -> BMStatus {
        match code {
            0x00000 => BMStatus::Success,
            0x00001 => BMStatus::XmtFull,
            0x00002 => BMStatus::Overrun,
            0x00004 => BMStatus::BusLight,
            0x00008 => BMStatus::BusWarning,
            0x40000 => BMStatus::BusPassive,
            0x80000 => BMStatus::BusTimeout,
            0x00010 => BMStatus::BusOff,
            0x4001C => BMStatus::AnyBusError,
            0x00020 => BMStatus::ReceiveBufferEmpty,
            0x00040 => BMStatus::QueueOverrun,
            0x00080 => BMStatus::TransmitQueueFull,
            0x00100 => BMStatus::RegTest,
            0x00200 => BMStatus::NoDriver,
            0x00400 => BMStatus::HardwareInUse,
            0x00800 => BMStatus::NetInUse,
            0x01400 => BMStatus::HardwareError,
            0x01800 => BMStatus::InvalidBus,
            0x01C00 => BMStatus::InvalidClient,
            0x02000 => BMStatus::OutOfResources,
            0x04000 => BMStatus::InvalidParameterType,
            0x08000 => BMStatus::InvalidParameterValue,
            0x10000 => BMStatus::Unknown,
            0x20000 => BMStatus::InvalidData,
            0x2000000 => BMStatus::Caution,
            0x4000000 => BMStatus::NotInitialized,
            0x8000000 => BMStatus::InvalidOperation,
            _ => BMStatus::Unknown,
        }
    }

    pub fn code(self) -> (r: u32)
        ensures
            r == self.spec_code(),
    {
        match self {
            BMStatus::Success => 0x00000,
            BMStatus::XmtFull => 0x00001,
            BMStatus::Overrun => 0x00002,
            BMStatus::BusLight => 0x00004,
            BMStatus::BusWarning => 0x00008,
            BMStatus::BusPassive => 0x40000,
            BMStatus::BusTimeout => 0x80000,
            BMStatus::BusOff => 0x00010,
            BMStatus::AnyBusError => 0x4001C,
            BMStatus::ReceiveBufferEmpty => 0x00020,
            BMStatus::QueueOverrun => 0x00040,
            BMStatus::TransmitQueueFull => 0x00080,
            BMStatus::RegTest => 0x00100,
            BMStatus::NoDriver => 0x00200,
            BMStatus::HardwareInUse => 0x00400,
            BMStatus::NetInUse => 0x00800,
            BMStatus::HardwareError => 0x01400,
            BMStatus::InvalidBus => 0x01800,
            BMStatus::InvalidClient => 0x01C00,
            BMStatus::OutOfResources => 0x02000,
            BMStatus::InvalidParameterType => 0x04000,
            BMStatus::InvalidParameterValue => 0x08000,
            BMStatus::Unknown => 0x10000,
            BMStatus::InvalidData => 0x20000,
            BMStatus::Caution => 0x2000000,
            BMStatus::NotInitialized => 0x4000000,
            BMStatus::InvalidOperation => 0x8000000,
        }
    }

    /// Translates a native status code.
    pub fn from_code(code: u32) -> (r: BMStatus)
        ensures
            r == BMStatus::spec_from_code(code),
    {
        let r = match code {
            0x00000 => BMStatus::Success,
            0x00001 => BMStatus::XmtFull,
            0x00002 => BMStatus::Overrun,
            0x00004 => BMStatus::BusLight,
            0x00008 => BMStatus::BusWarning,
            0x40000 => BMStatus::BusPassive,
            0x80000 => BMStatus::BusTimeout,
            0x00010 => BMStatus::BusOff,
            0x4001C => BMStatus::AnyBusError,
            0x00020 => BMStatus::ReceiveBufferEmpty,
            0x00040 => BMStatus::QueueOverrun,
            0x00080 => BMStatus::TransmitQueueFull,
            0x00100 => BMStatus::RegTest,
            0x00200 => BMStatus::NoDriver,
            0x00400 => BMStatus::HardwareInUse,
            0x00800 => BMStatus::NetInUse,
            0x01400 => BMStatus::HardwareError,
            0x01800 => BMStatus::InvalidBus,
            0x01C00 => BMStatus::InvalidClient,
            0x02000 => BMStatus::OutOfResources,
            0x04000 => BMStatus::InvalidParameterType,
            0x08000 => BMStatus::InvalidParameterValue,
            0x10000 => BMStatus::Unknown,
            0x20000 => BMStatus::InvalidData,
            0x2000000 => BMStatus::Caution,
            0x4000000 => BMStatus::NotInitialized,
            0x8000000 => BMStatus::InvalidOperation,
            _ => BMStatus::Unknown,
        };
        r
    }

    /// Distinct statuses have distinct codes.
    pub proof fn lemma_code_injective()
        ensures
            forall|a: BMStatus, b: BMStatus| #[trigger] a.spec_code() == #[trigger] b.spec_code() ==> a == b,
    {
    }

    /// Translating the code of a status gives that status back.
    pub proof fn lemma_from_code_of_code(s: BMStatus)
        ensures
            BMStatus::spec_from_code(s.spec_code()) == s,
    {
        BMStatus::lemma_code_injective();
    }
}

/// CAN operation mode, set on an open channel.
#[derive(Clone, Copy, Debug, PartialEq, Eq, Structural)]
pub enum BMCanMode {
    /// Running normally, able to handle CAN and CAN-FD messages.
    Normal,
    /// Logically disconnected from the bus.
    BufOff,
    /// Looping messages back internally without touching the bus.
    InternalLoopback,
    /// Receiving without acknowledging on the bus.
    ListenOnly,
    /// Under configuration, for internal use only.
    Configuration,
    /// Echoing every transmitted message.
    ExternalLoopback,
    /// Running normally with classic CAN 2.0 messages only.
    Classic,
    /// Reserved.
    Restricted,
}

impl BMCanMode {
    pub open spec fn spec_code(self) -> u32 {
        match self {
            BMCanMode::Normal => 0x00,
            BMCanMode::BufOff => 0x01,
            BMCanMode::InternalLoopback => 0x02,
            BMCanMode::ListenOnly => 0x03,
            BMCanMode::Configuration => 0x04,
            BMCanMode::ExternalLoopback => 0x05,
            BMCanMode::Classic => 0x06,
            BMCanMode::Restricted => 0x07,
        }
    }

    /// The native code of this value.
    pub fn code(self) -> (r: u32)
        ensures
            r == self.spec_code(),
    {
        match self {
            BMCanMode::Normal => 0x00,
            BMCanMode::BufOff => 0x01,
            BMCanMode::InternalLoopback => 0x02,
            BMCanMode::ListenOnly => 0x03,
            BMCanMode::Configuration => 0x04,
            BMCanMode::ExternalLoopback => 0x05,
            BMCanMode::Classic => 0x06,
            BMCanMode::Restricted => 0x07,
        }
    }
}

/// Terminal resistor setting of a CAN channel.
#[derive(Clone, Copy, Debug, PartialEq, Eq, Structural)]
pub enum BMTerminalResistor {
    /// Reserved, currently unsupported.
    Auto,
    /// 60 Ohm, currently unsupported.
    Enabled60,
    /// 120 Ohm.
    Enabled120,
    /// Terminal resistor off.
    Disabled,
}

impl BMTerminalResistor {
    pub open spec fn spec_code(self) -> u32 {
        match self {
            BMTerminalResistor::Auto => 0,
            BMTerminalResistor::Enabled60 => 60,
            BMTerminalResistor::Enabled120 => 120,
            BMTerminalResistor::Disabled => 0xFFFF,
        }
    }

    /// The native code of this value.
    pub fn code(self) -> (r: u32)
        ensures
            r == self.spec_code(),
    {
        match self {
            BMTerminalResistor::Auto => 0,
            BMTerminalResistor::Enabled60 => 60,
            BMTerminalResistor::Enabled120 => 120,
            BMTerminalResistor::Disabled => 0xFFFF,
        }
    }
}

/// CAN message flags, as used by filters and transmit tasks.
#[derive(Clone, Copy, Debug, PartialEq, Eq, Structural)]
pub enum BMMessageFlags {
    /// Normal CAN message.
    Normal,
    /// Extended CAN message.
    Extended,
    /// Remote CAN message.
    Remote,
    /// CAN-FD bit rate switching enabled.
    BitRateSwitching,
    /// CAN-FD message.
    CanFD,
    /// Reserved for gateways.
    Esi,
}

impl BMMessageFlags {
    pub open spec fn spec_code(self) -> u8 {
        match self {
            BMMessageFlags::Normal => 0,
            BMMessageFlags::Extended => 1,
            BMMessageFlags::Remote => 2,
            BMMessageFlags::BitRateSwitching => 4,
            BMMessageFlags::CanFD => 8,
            BMMessageFlags::Esi => 16,
        }
    }

    /// The native code of this value.
    pub fn code(self) -> (r: u8)
        ensures
            r == self.spec_code(),
    {
        match self {
            BMMessageFlags::Normal => 0,
            BMMessageFlags::Extended => 1,
            BMMessageFlags::Remote => 2,
            BMMessageFlags::BitRateSwitching => 4,
            BMMessageFlags::CanFD => 8,
            BMMessageFlags::Esi => 16,
        }
    }
}

/// Receive filter kinds.
#[derive(Clone, Copy, Debug, PartialEq, Eq, Structural)]
pub enum BMRxFilterType {
    /// Unused filter entry.
    Invalid,
    /// Acceptance filter on the message identifier mask.
    Basic,
    /// Filter on both identifier and payload.
    Advanced,
    /// Accept only messages that passed E2E checking.
    E2EPass,
    /// Accept only messages that failed E2E checking.
    E2EFail,
}

impl BMRxFilterType {
    pub open spec fn spec_code(self) -> u32 {
        match self {
            BMRxFilterType::Invalid => 0,
            BMRxFilterType::Basic => 1,
            BMRxFilterType::Advanced => 2,
            BMRxFilterType::E2EPass => 3,
            BMRxFilterType::E2EFail => 4,
        }
    }

    /// The native code of this value.
    pub fn code(self) -> (r: u32)
        ensures
            r == self.spec_code(),
    {
        match self {
            BMRxFilterType::Invalid => 0,
            BMRxFilterType::Basic => 1,
            BMRxFilterType::Advanced => 2,
            BMRxFilterType::E2EPass => 3,
            BMRxFilterType::E2EFail => 4,
        }
    }
}

/// Transmit task kinds.
#[derive(Clone, Copy, Debug, PartialEq, Eq, Structural)]
pub enum BMTxTaskType {
    /// Unused task entry.
    Invalid,
    /// Fixed identifier and payload.
    Fixed,
    /// Self-incrementing data.
    IncData,
    /// Self-incrementing identifier.
    IncId,
    /// Random data.
    RandomData,
    /// Random identifier.
    RandomId,
}

impl BMTxTaskType {
    pub open spec fn spec_code(self) -> u32 {
        match self {
            BMTxTaskType::Invalid => 0,
            BMTxTaskType::Fixed => 1,
            BMTxTaskType::IncData => 2,
            BMTxTaskType::IncId => 3,
            BMTxTaskType::RandomData => 4,
            BMTxTaskType::RandomId => 5,
        }
    }

    /// The native code of this value.
    pub fn code(self) -> (r: u32)
        ensures
            r == self.spec_code(),
    {
        match self {
            BMTxTaskType::Invalid => 0,
            BMTxTaskType::Fixed => 1,
            BMTxTaskType::IncData => 2,
            BMTxTaskType::IncId => 3,
            BMTxTaskType::RandomData => 4,
            BMTxTaskType::RandomId => 5,
        }
    }
}

/// Runtime statistics items.
#[derive(Clone, Copy, Debug, PartialEq, Eq, Structural)]
pub enum BMStatType {
    /// No statistics item.
    Nothing,
    /// Number of transmitted messages.
    TxMessage,
    /// Number of received messages.
    RxMessage,
    /// Number of transmitted bytes.
    TxByte,
    /// Number of received bytes.
    RxByte,
    /// Number of transmit errors.
    TxError,
    /// Number of receive errors.
    RxError,
}

impl BMStatType {
    pub open spec fn spec_code(self) -> u32 {
        match self {
            BMStatType::Nothing => 0,
            BMStatType::TxMessage => 1,
            BMStatType::RxMessage => 2,
            BMStatType::TxByte => 3,
            BMStatType::RxByte => 4,
            BMStatType::TxError => 5,
            BMStatType::RxError => 6,
        }
    }

    /// The native code of this value.
    pub fn code(self) -> (r: u32)
        ensures
            r == self.spec_code(),
    {
        match self {
            BMStatType::Nothing => 0,
            BMStatType::TxMessage => 1,
            BMStatType::RxMessage => 2,
            BMStatType::TxByte => 3,
            BMStatType::RxByte => 4,
            BMStatType::TxError => 5,
            BMStatType::RxError => 6,
        }
    }
}

/// ISO-TP operation mode.
#[derive(Clone, Copy, Debug, PartialEq, Eq, Structural)]
pub enum BMIsotpMode {
    /// Normal addressing, UDS client.
    NormalTester,
    /// Normal addressing, UDS server.
    NormalEcu,
    /// Extended addressing, UDS client (unsupported).
    ExtendedTester,
    /// Extended addressing, UDS server (unsupported).
    ExtendedEcu,
}

impl BMIsotpMode {
    pub open spec fn spec_code(self) -> u32 {
        match self {
            BMIsotpMode::NormalTester => 0,
            BMIsotpMode::NormalEcu => 1,
            BMIsotpMode::ExtendedTester => 2,
            BMIsotpMode::ExtendedEcu => 3,
        }
    }

    /// The native code of this value.
    pub fn code(self) -> (r: u32)
        ensures
            r == self.spec_code(),
    {
        match self {
            BMIsotpMode::NormalTester => 0,
            BMIsotpMode::NormalEcu => 1,
            BMIsotpMode::ExtendedTester => 2,
            BMIsotpMode::ExtendedEcu => 3,
        }
    }
}

/// Capability flags of a device, as reported by enumeration. The associated
/// constants are the bits of the single flags.
#[derive(Clone, Copy, Debug, PartialEq, Eq, Structural)]
pub struct BMCapability {
    /// The flag bits.
    pub bits: u16,
}

impl BMCapability {
    /// No capability.
    pub const NONE: u16 = 0x0000;
    /// Handles LIN messages.
    pub const LIN: u16 = 0x0001;
    /// Handles CAN messages.
    pub const CAN: u16 = 0x0002;
    /// Handles CAN-FD (and CAN) messages.
    pub const CAN_FD: u16 = 0x0004;
    /// Handles FlexRay messages.
    pub const FLEXRAY: u16 = 0x0008;
    /// Handles ModBus messages.
    pub const MODBUS: u16 = 0x0010;
    /// Handles Ethernet messages.
    pub const ETHERNET: u16 = 0x0020;
    /// Every flag, for masking.
    pub const ALL: u16 = 0xFFFF;

    /// The flag bits.
    pub fn bits(&self) -> (r: u16)
        ensures
            r == self.bits,
    {
        self.bits
    }

    /// The flags with the given bits.
    pub fn from_bits(bits: u16) -> (r: BMCapability)
        ensures
            r.bits == bits,
    {
        BMCapability { bits }
    }

    /// Every flag of `flags` (bits such as `BMCapability::CAN`) is set.
    pub fn contains(&self, flags: u16) -> (r: bool)
        ensures
            r == (self.bits & flags == flags),
    {
        self.bits & flags == flags
    }
}

/// Description of one channel, produced by enumeration and never changed.
#[derive(Clone, Copy, Debug)]
pub struct BMChannelInfo {
    /// Full device name, a zero-terminated string.
    pub name: [u8; 64],
    /// Serial number.
    pub sn: [u8; 16],
    /// Unique id.
    pub uid: [u8; 12],
    /// Firmware version.
    pub version: [u8; 4],
    /// USB vendor id.
    pub vid: u16,
    /// USB product id.
    pub pid: u16,
    /// Port index (0 to 7) of the channel on its device.
    pub port: u16,
    /// Capability flags.
    pub cap: BMCapability,
    /// Reserved.
    pub reserved: [u8; 4],
}

/// Detailed CAN status of a channel.
#[derive(Clone, Copy, Debug, PartialEq, Eq, Structural)]
pub struct BMCanStatusInfo {
    /// The channel is in BUS-OFF state.
    pub tx_bus_off: u8,
    /// Reserved.
    pub reserved: u8,
    /// The channel is in transmit bus passive state.
    pub tx_bus_passive: u8,
    /// The channel is in receive bus passive state.
    pub rx_bus_passive: u8,
    /// The channel is in transmit warning state.
    pub tx_warn: u8,
    /// The channel is in receive warning state.
    pub rx_warn: u8,
    /// Transmit error counter.
    pub tx_errors: u8,
    /// Receive error counter.
    pub rx_errors: u8,
}

/// Bitrate configuration of a CAN channel.
#[derive(Clone, Copy, Debug, PartialEq, Eq, Structural)]
pub struct BMBitrate {
    /// Nominal bitrate in kbps; the only one used in classic CAN mode.
    pub n_bitrate: u16,
    /// Data bitrate in kbps; not used in classic CAN mode.
    pub d_bitrate: u16,
    /// Nominal sample position, in percent.
    pub n_sample_pos: u8,
    /// Data sample position, in percent.
    pub d_sample_pos: u8,
    /// CAN controller clock in MHz; set with the register values below, it
    /// overrides the bitrates.
    pub clock_freq: u8,
    /// Reserved.
    pub reserved: u8,
    /// Nominal BTR0 register value.
    pub n_btr0: u8,
    /// Nominal BTR1 register value.
    pub n_btr1: u8,
    /// Data BTR0 register value.
    pub d_btr0: u8,
    /// Data BTR1 register value.
    pub d_btr1: u8,
}

/// Receive filter entry: a message is accepted where flags, identifier and
/// payload, each masked, equal the given values.
#[derive(Clone, Copy, Debug)]
pub struct BMRxFilter {
    /// Filter kind code, see `BMRxFilterType`.
    pub kind: u8,
    /// Reserved.
    pub unused: u8,
    /// Mask on the message flags, see `BMMessageFlags`.
    pub flags_mask: u8,
    /// Value of the masked message flags.
    pub flags_value: u8,
    /// Reserved.
    pub reserved: [u8; 4],
    /// Mask on the message identifier.
    pub id_mask: u32,
    /// Value of the masked message identifier.
    pub id_value: u32,
    /// Mask on the first 8 payload bytes.
    pub payload_mask: [u8; 8],
    /// Value of the masked first 8 payload bytes.
    pub payload_value: [u8; 8],
}

/// Pattern of a self-incrementing data transmit task.
#[derive(Clone, Copy, Debug, PartialEq, Eq, Structural)]
pub struct BMTxTaskIncDataPattern {
    /// First bit of the incremented data, 8-bit aligned.
    pub start_bit: u16,
    /// Number of incremented bits (32).
    pub nbits: u8,
    /// Byte order: 0x80 Intel, 0x00 Motorola.
    pub format: u8,
    /// Lowest value.
    pub min: u32,
    /// Highest value.
    pub max: u32,
    /// Increment.
    pub step: u32,
}

/// Pattern of a self-incrementing identifier transmit task.
#[derive(Clone, Copy, Debug, PartialEq, Eq, Structural)]
pub struct BMTxTaskIncIdPattern {
    /// Lowest value.
    pub min: u32,
    /// Highest value.
    pub max: u32,
    /// Increment.
    pub step: u32,
}

/// Pattern of a random data transmit task.
#[derive(Clone, Copy, Debug, PartialEq, Eq, Structural)]
pub struct BMTxTaskRndDataPattern {
    /// First bit of the random data, 8-bit aligned.
    pub start_bit: u16,
    /// Number of random bits (32).
    pub nbits: u8,
    /// Byte order: 0x80 Intel, 0x00 Motorola.
    pub format: u8,
    /// Lowest value.
    pub min: u32,
    /// Highest value.
    pub max: u32,
    /// Seed.
    pub seed: u32,
}

/// Pattern of a random identifier transmit task.
#[derive(Clone, Copy, Debug, PartialEq, Eq, Structural)]
pub struct BMTxTaskRndIdPattern {
    /// Lowest value.
    pub min: u32,
    /// Highest value.
    pub max: u32,
    /// Seed.
    pub seed: u32,
}

/// Transmit task entry, run by the device on its own.
#[derive(Clone, Copy, Debug)]
pub struct BMTxTask {
    /// Task kind code, see `BMTxTaskType`.
    pub kind: u8,
    /// Reserved.
    pub unused: u8,
    /// Message flags, see `BMMessageFlags`.
    pub flags: u8,
    /// Payload length in bytes (not a data length code).
    pub length: u8,
    /// Index in the E2E table (unsupported).
    pub e2e: u8,
    /// Reserved.
    pub reserved: u8,
    /// Delay between rounds, in ms.
    pub cycle: u16,
    /// Number of rounds.
    pub n_rounds: u16,
    /// Messages per round.
    pub n_messages: u16,
    /// Message identifier, see `BMMessageId`.
    pub id: u32,
    /// Task pattern data.
    pub pattern: u32,
    /// Default payload, also the template of the unchanged part.
    pub payload: [u8; 64],
}

/// ISO-TP progress report.
#[derive(Clone, Copy, Debug)]
pub struct BMIsoTPStatus {
    /// Always 0x01.
    pub version: u8,
    /// Flow control status: 0 continue, 1 wait, 2 overflow, 0xff timeout.
    pub flow_control: u8,
    /// Minimum separation time.
    pub st_min: u8,
    /// Block size.
    pub block_size: u8,
    /// Bytes transferred so far.
    pub transferred_bytes: u32,
    /// Bytes in all.
    pub total_bytes: u32,
    /// Device timestamp.
    pub timestamp: u32,
    /// Reserved.
    pub reserved: [u32; 4],
}

/// ISO-TP timeouts, in milliseconds.
#[derive(Clone, Copy, Debug, PartialEq, Eq, Structural)]
pub struct BMIsotpTimeoutConfig {
    /// `A` timeout.
    pub a: u16,
    /// `B` timeout.
    pub b: u16,
    /// `C` timeout.
    pub c: u16,
}

/// ISO-TP flow control settings, used when the device acts as server.
#[derive(Clone, Copy, Debug, PartialEq, Eq, Structural)]
pub struct BMIsotpFlowControlConfig {
    /// Minimum separation time, raw value.
    pub st_min: u8,
    /// Block size; 0 for no further flow control.
    pub block_size: u8,
    /// Flow control frame length in bytes.
    pub fc_frame_length: u8,
    /// Reserved.
    pub reserved: u8,
}

} // verus!
