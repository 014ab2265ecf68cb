//! JTAG interface: scan formats, port properties and the checks made on the
//! arguments of each native call.

use vstd::prelude::*;
use crate::adept::{require_caps, DeviceCaps, Error, ERC_INVALID_PARAMETER, ERC_NOT_SUPPORTED};

verus! {

/// Scan format of an IEEE 1149.7 port.
#[derive(Clone, Copy, Debug, PartialEq, Eq, Structural)]
pub enum ScanFormat {
    /// No format (also given for a code of no format).
    NoFormat,
    JScan0,
    JScan1,
    JScan2,
    JScan3,
    MScan,
    OScan0,
    OScan1,
    OScan2,
    OScan3,
    OScan4,
    OScan5,
    OScan6,
    OScan7,
}

impl ScanFormat {
    pub open spec fn spec_code(self) -> u8 {
        match self {
            ScanFormat::NoFormat => 0,
            ScanFormat::JScan0 => 1,
            ScanFormat::JScan1 => 2,
            ScanFormat::JScan2 => 3,
            ScanFormat::JScan3 => 4,
            ScanFormat::MScan => 5,
            ScanFormat::OScan0 => 6,
            ScanFormat::OScan1 => 7,
            ScanFormat::OScan2 => 8,
            ScanFormat::OScan3 => 9,
            ScanFormat::OScan4 => 10,
            ScanFormat::OScan5 => 11,
            ScanFormat::OScan6 => 12,
            ScanFormat::OScan7 => 13,
        }
    }

    /// The native code of the format.
    pub fn code(self) -> (r: u8)
        ensures
            r == self.spec_code(),
    {
        match self {
            ScanFormat::NoFormat => 0,
            ScanFormat::JScan0 => 1,
            ScanFormat::JScan1 => 2,
            ScanFormat::JScan2 => 3,
            ScanFormat::JScan3 => 4,
            ScanFormat::MScan => 5,
            ScanFormat::OScan0 => 6,
            ScanFormat::OScan1 => 7,
            ScanFormat::OScan2 => 8,
            ScanFormat::OScan3 => 9,
            ScanFormat::OScan4 => 10,
            ScanFormat::OScan5 => 11,
            ScanFormat::OScan6 => 12,
            ScanFormat::OScan7 => 13,
        }
    }

    /// The format with the given native code; `NoFormat` for a code of none.
    pub fn from_code(code: u8) -> (r: ScanFormat)
        ensures
            code <= 13 ==> r.spec_code() == code,
            code > 13 ==> r == ScanFormat::NoFormat,
    {
        match code {
            1 => ScanFormat::JScan0,
            2 => ScanFormat::JScan1,
            3 => ScanFormat::JScan2,
            4 => ScanFormat::JScan3,
            5 => ScanFormat::MScan,
            6 => ScanFormat::OScan0,
            7 => ScanFormat::OScan1,
            8 => ScanFormat::OScan2,
            9 => ScanFormat::OScan3,
            10 => ScanFormat::OScan4,
            11 => ScanFormat::OScan5,
            12 => ScanFormat::OScan6,
            13 => ScanFormat::OScan7,
            _ => ScanFormat::NoFormat,
        }
    }
}

/// The scan format reported by a port, and whether it shifts the
/// instruction register.
pub fn scan_format(fmt: u8, shift_xr: i32) -> (r: (ScanFormat, bool))
    ensures
        r.0 == ScanFormat::spec_from_code_total(fmt),
        r.1 == (shift_xr > 0),
{
    (ScanFormat::from_code(fmt), shift_xr > 0)
}

impl ScanFormat {
    /// The format that a native code stands for.
    pub open spec fn spec_from_code_total(code: u8) -> ScanFormat {
        if 1 <= code <= 13 {
            choose|f: ScanFormat| f.spec_code() == code
        } else {
            ScanFormat::NoFormat
        }
    }
}

/// Properties of a JTAG port.
#[derive(Clone, Copy, Debug, PartialEq, Eq, Structural)]
pub struct PortProperties {
    /// The property bits.
    pub bits: u32,
}

impl PortProperties {
    /// Supports setting the speed.
    pub const SET_SPEED: u32 = 0x00000001;
    /// Fully supports setting the pin states.
    pub const SET_PIN_STATE: u32 = 0x00000002;
    /// Supports transaction buffering.
    pub const TRANS_BUFFERING: u32 = 0x00000004;
    /// Supports waiting.
    pub const WAIT: u32 = 0x00000008;
    /// Supports the delay count.
    pub const DELAY_CNT: u32 = 0x00000010;
    /// Supports the ready count.
    pub const READY_CNT: u32 = 0x00000020;
    /// Supports escapes.
    pub const ESCAPE: u32 = 0x00000040;
    /// Supports the MScan format.
    pub const MSCAN: u32 = 0x00000080;
    /// Supports the OScan0 format.
    pub const OSCAN0: u32 = 0x00000100;
    /// Supports the OScan1 format.
    pub const OSCAN1: u32 = 0x00000200;
    /// Supports the OScan2 format.
    pub const OSCAN2: u32 = 0x00000400;
    /// Supports the OScan3 format.
    pub const OSCAN3: u32 = 0x00000800;
    /// Supports the OScan4 format.
    pub const OSCAN4: u32 = 0x00001000;
    /// Supports the OScan5 format.
    pub const OSCAN5: u32 = 0x00002000;
    /// Supports the OScan6 format.
    pub const OSCAN6: u32 = 0x00004000;
    /// Supports the OScan7 format.
    pub const OSCAN7: u32 = 0x00008000;
    /// Supports packet checks.
    pub const CHECK_PACKET: u32 = 0x00010000;
    /// Supports batches.
    pub const BATCH: u32 = 0x00020000;
    /// Supports the auxiliary reset.
    pub const SET_AUX_RESET: u32 = 0x00040000;
    /// Supports general purpose IO.
    pub const SET_GET_GPIO: u32 = 0x00080000;

    /// The known properties among the given bits.
    pub fn from_bits_truncate(bits: u32) -> (r: PortProperties)
        ensures
            r.bits == bits & 0x000F_FFFF,
    {
        PortProperties { bits: bits & 0x000F_FFFF }
    }

    /// Every property of `flags` is present.
    pub fn contains(&self, flags: u32) -> (r: bool)
        ensures
            r == (self.bits & flags == flags),
    {
        self.bits & flags == flags
    }
}

/// Properties of batches on a JTAG port.
#[derive(Clone, Copy, Debug, PartialEq, Eq, Structural)]
pub struct BatchProperties {
    /// The property bits.
    pub bits: u32,
}

impl BatchProperties {
    /// Supports waiting in microseconds.
    pub const WAIT_US: u32 = 0x00000001;
    /// Supports the auxiliary reset.
    pub const SET_AUX_RESET: u32 = 0x00000002;
    /// Supports general purpose IO.
    pub const SET_GET_GPIO: u32 = 0x00000004;

    /// The known properties among the given bits.
    pub fn from_bits_truncate(bits: u32) -> (r: BatchProperties)
        ensures
            r.bits == bits & 0x7,
    {
        BatchProperties { bits: bits & 0x7 }
    }
}

/// The JTAG interface opens only on a device with the JTAG capability.
pub fn check_jtag(caps: DeviceCaps) -> (r: Result<(), Error>)
    ensures
        r == (if caps.bits & DeviceCaps::JTAG == DeviceCaps::JTAG {
            Ok(())
        } else {
            Err(Error(ERC_NOT_SUPPORTED))
        }),
{
    require_caps(caps, DeviceCaps::JTAG)
}

/// The native count of a transfer of `count` items (bits, or bit pairs)
/// from or into a buffer of `buf_len` bytes that holds `per_byte` items in
/// each byte: `ERC_INVALID_PARAMETER` where the count does not fit 32 bits or
/// the buffer.
pub fn check_bit_count(count: usize, buf_len: usize, per_byte: usize) -> (r: Result<u32, Error>)
    requires
        per_byte <= 8,
    ensures
        r == (if count <= u32::MAX && count <= buf_len * per_byte {
            Ok(count as u32)
        } else {
            Err(Error(ERC_INVALID_PARAMETER))
        }),
{
    if count > u32::MAX as usize {
        return Err(Error(ERC_INVALID_PARAMETER));
    }
    assert((buf_len as u128) * (per_byte as u128) <= 0xFFFF_FFFF_FFFF_FFFFu128 * 8) by (nonlinear_arith)
        requires
            buf_len <= 0xFFFF_FFFF_FFFF_FFFFu64,
            per_byte <= 8,
    ;
    let room: u128 = buf_len as u128 * per_byte as u128;
    if count as u128 > room {
        Err(Error(ERC_INVALID_PARAMETER))
    } else {
        Ok(count as u32)
    }
}

/// The native lengths of a batch: both buffers must fit 32-bit lengths.
pub fn batch_lengths(send_len: usize, recv_len: usize) -> (r: Result<(u32, u32), Error>)
    ensures
        r == (if send_len <= u32::MAX && recv_len <= u32::MAX {
            Ok((send_len as u32, recv_len as u32))
        } else {
            Err(Error(ERC_INVALID_PARAMETER))
        }),
{
    if send_len > u32::MAX as usize || recv_len > u32::MAX as usize {
        Err(Error(ERC_INVALID_PARAMETER))
    } else {
        Ok((send_len as u32, recv_len as u32))
    }
}

} // verus!
