//! Device management rules of the Digilent Adept interface: capability and
//! device type flags, product ids, error codes, and device enumeration.

use vstd::prelude::*;
use crate::error::{c_prefix, string_from_c_chars, utf8_lossy};

verus! {

/// Error code: no error occurred.
pub const ERC_NO_ERC: i32 = 0;
/// Error code: capability or function not supported by the device.
pub const ERC_NOT_SUPPORTED: i32 = 1;
/// Error code: the transfer was cancelled or timed out.
pub const ERC_TRANSFER_CANCELLED: i32 = 2;
/// Error code: command parameter out of range.
pub const ERC_BAD_PARAMETER: i32 = 13;
/// Error code: device already opened.
pub const ERC_ALREADY_OPENED: i32 = 1024;
/// Error code: invalid interface handle.
pub const ERC_INVALID_HIF: i32 = 1025;
/// Error code: invalid parameter sent in a call.
pub const ERC_INVALID_PARAMETER: i32 = 1026;

/// An Adept error, by its native error code.
#[derive(Clone, Copy, Debug, PartialEq, Eq, Structural)]
pub struct Error(pub i32);

/// The result of a native call that returned the boolean `r`, with
/// `last_error` the code the library reports for the last failure.
pub fn cvt_r(r: i32, last_error: i32) -> (res: Result<(), Error>)
    ensures
        res == (if r != 0 {
            Ok(())
        } else {
            Err(Error(last_error))
        }),
{
    if r != 0 {
        Ok(())
    } else {
        Err(Error(last_error))
    }
}

/// A native boolean: any positive value is true.
pub fn flag(b: i32) -> (r: bool)
    ensures
        r == (b > 0),
{
    b > 0
}

/// Interface capabilities of a device.
#[derive(Clone, Copy, Debug, PartialEq, Eq, Structural)]
pub struct DeviceCaps {
    /// The capability bits.
    pub bits: u32,
}

impl DeviceCaps {
    /// JTAG.
    pub const JTAG: u32 = 0x00000001;
    /// Parallel IO.
    pub const PIO: u32 = 0x00000002;
    /// Enhanced parallel port (register bus).
    pub const EPP: u32 = 0x00000004;
    /// Streaming.
    pub const STM: u32 = 0x00000008;
    /// SPI.
    pub const SPI: u32 = 0x00000010;
    /// TWI.
    pub const TWI: u32 = 0x00000020;
    /// Asynchronous communication.
    pub const ACI: u32 = 0x00000040;
    /// Analog IO.
    pub const AIO: u32 = 0x00000080;
    /// External memory.
    pub const EMC: u32 = 0x00000100;
    /// Device configuration.
    pub const DCI: u32 = 0x00000200;
    /// General purpose IO.
    pub const GIO: u32 = 0x00000400;
    /// Programming.
    pub const PTI: u32 = 0x00000800;
    /// Every capability.
    pub const ALL: u32 = 0xFFFFFFFF;

    /// The capabilities with the given bits.
    pub fn from_bits_truncate(bits: u32) -> (r: DeviceCaps)
        ensures
            r.bits == bits,
    {
        DeviceCaps { bits }
    }

    /// Every capability of `flags` is present.
    pub fn contains(&self, flags: u32) -> (r: bool)
        ensures
            r == (self.bits & flags == flags),
    {
        self.bits & flags == flags
    }
}

/// The capability gate of an interface: success where the device has the
/// required capability, `ERC_NOT_SUPPORTED` where it lacks it.
pub fn require_caps(caps: DeviceCaps, required: u32) -> (r: Result<(), Error>)
    ensures
        r == (if caps.bits & required == required {
            Ok(())
        } else {
            Err(Error(ERC_NOT_SUPPORTED))
        }),
{
    if caps.contains(required) {
        Ok(())
    } else {
        Err(Error(ERC_NOT_SUPPORTED))
    }
}

/// The transport part (low 16 bits) of a device type.
#[allow(non_snake_case)]
pub fn TptFromDtp(dtp: u32) -> (r: u16)
    ensures
        r == (dtp & 0xFFFF) as u16,
{
    (dtp & 0xFFFF) as u16
}

/// The protocol part (high 16 bits) of a device type.
#[allow(non_snake_case)]
pub fn PtcFromDtp(dtp: u32) -> (r: u16)
    ensures
        r == ((dtp >> 16) & 0xFFFF) as u16,
{
    ((dtp >> 16) & 0xFFFF) as u16
}

/// The device type with the given transport and protocol.
#[allow(non_snake_case)]
pub fn DtpFromTptPtc(tpt: u16, ptc: u16) -> (r: u32)
    ensures
        r == (tpt as u32) | ((ptc as u32) << 16),
{
    (tpt as u32) | ((ptc as u32) << 16)
}

/// Splitting a device type made of a transport and a protocol gives them back.
pub proof fn lemma_device_type_parts(tpt: u16, ptc: u16)
    ensures
        ((tpt as u32) | ((ptc as u32) << 16)) & 0xFFFF == tpt as u32,
        (((tpt as u32) | ((ptc as u32) << 16)) >> 16) & 0xFFFF == ptc as u32,
{
    assert(((tpt as u32) | ((ptc as u32) << 16)) & 0xFFFF == tpt as u32 && (((tpt as u32) | ((
    ptc as u32) << 16)) >> 16) & 0xFFFF == ptc as u32) by (bit_vector);
}

/// The product number (bits 20 to 31) of a product id.
#[allow(non_snake_case)]
pub fn ProductFromPdid(pdid: u32) -> (r: u32)
    ensures
        r == (pdid >> 20) & 0xFFF,
{
    (pdid >> 20) & 0xFFF
}

/// The variant (bits 8 to 19) of a product id.
#[allow(non_snake_case)]
pub fn VariantFromPdid(pdid: u32) -> (r: u32)
    ensures
        r == (pdid >> 8) & 0xFFF,
{
    (pdid >> 8) & 0xFFF
}

/// The firmware id (bits 0 to 7) of a product id.
#[allow(non_snake_case)]
pub fn FwidFromPdid(pdid: u32) -> (r: u8)
    ensures
        r == (pdid & 0xFF) as u8,
{
    (pdid & 0xFF) as u8
}

/// Transport and protocol of a device: transport in the low 16 bits,
/// protocol in the high 16 bits.
#[derive(Clone, Copy, Debug, PartialEq, Eq, Structural)]
pub struct DeviceType {
    /// The type bits.
    pub bits: u32,
}

/// Physical transport of a device.
#[derive(Clone, Copy, Debug, PartialEq, Eq, Structural)]
pub struct Transport {
    /// The transport bits.
    pub bits: u16,
}

/// Protocol used over a transport.
#[derive(Clone, Copy, Debug, PartialEq, Eq, Structural)]
pub struct Protocol {
    /// The protocol bits.
    pub bits: u16,
}

impl DeviceType {
    /// USB transport.
    pub const USB: u32 = 0x00000001;
    /// Ethernet transport.
    pub const ETHERNET: u32 = 0x00000002;
    /// Parallel port transport.
    pub const PARALLEL: u32 = 0x00000004;
    /// Serial transport.
    pub const SERIAL: u32 = 0x00000008;
    /// Every type.
    pub const ALL: u32 = 0xFFFFFFFF;

    /// The device type of a transport and a protocol.
    pub fn from_parts(t: Transport, p: Protocol) -> (r: DeviceType)
        ensures
            r.bits == (t.bits as u32) | ((p.bits as u32) << 16),
    {
        DeviceType { bits: DtpFromTptPtc(t.bits, p.bits) }
    }
}

impl From<DeviceType> for Transport {
    /// The transport part of a device type.
    fn from(d: DeviceType) -> Transport {
        Transport { bits: TptFromDtp(d.bits) }
    }
}

impl vstd::std_specs::convert::FromSpecImpl<DeviceType> for Transport {
    open spec fn obeys_from_spec() -> bool {
        true
    }

    open spec fn from_spec(d: DeviceType) -> Transport {
        Transport { bits: (d.bits & 0xFFFF) as u16 }
    }
}

impl From<DeviceType> for Protocol {
    /// The protocol part of a device type.
    fn from(d: DeviceType) -> Protocol {
        Protocol { bits: PtcFromDtp(d.bits) }
    }
}

impl vstd::std_specs::convert::FromSpecImpl<DeviceType> for Protocol {
    open spec fn obeys_from_spec() -> bool {
        true
    }

    open spec fn from_spec(d: DeviceType) -> Protocol {
        Protocol { bits: ((d.bits >> 16) & 0xFFFF) as u16 }
    }
}

/// A product id: product number, variant and firmware id packed in 32 bits.
#[derive(Clone, Copy, Debug, PartialEq, Eq, Structural)]
pub struct ProductId(pub u32);

impl ProductId {
    /// The product number.
    pub fn product(&self) -> (r: usize)
        ensures
            r == (self.0 >> 20) & 0xFFF,
    {
        ProductFromPdid(self.0) as usize
    }

    /// The variant.
    pub fn variant(&self) -> (r: usize)
        ensures
            r == (self.0 >> 8) & 0xFFF,
    {
        VariantFromPdid(self.0) as usize
    }

    /// The firmware id.
    pub fn firmware_id(&self) -> (r: usize)
        ensures
            r == (self.0 & 0xFF) as u8,
    {
        FwidFromPdid(self.0) as usize
    }
}

/// Nanoseconds in a duration of `secs` seconds and `subsec_nanos` nanoseconds.
pub fn as_nanos(secs: u64, subsec_nanos: u32) -> (r: u64)
    requires
        secs * 1_000_000_000 + subsec_nanos <= u64::MAX,
    ensures
        r == secs * 1_000_000_000 + subsec_nanos,
{
    secs * 1_000_000_000 + subsec_nanos as u64
}

/// Whole microseconds in a duration of `secs` seconds and `subsec_nanos` nanoseconds.
pub fn as_micros(secs: u64, subsec_nanos: u32) -> (r: u64)
    requires
        secs * 1_000_000_000 + subsec_nanos <= u64::MAX,
    ensures
        r == (secs * 1_000_000_000 + subsec_nanos) / 1000,
{
    as_nanos(secs, subsec_nanos) / 1000
}

/// Description of a device found by enumeration.
#[derive(Clone, Copy, Debug)]
pub struct DVC {
    /// Device name, a zero-terminated string.
    pub name: [u8; 64],
    /// Connection string, a zero-terminated string.
    pub conn: [u8; 261],
    /// Device type.
    pub dtp: u32,
}

/// A device found by enumeration.
#[derive(Clone, Copy, Debug)]
pub struct Device(pub DVC);

impl Device {
    /// Device name.
    pub fn name(&self) -> (r: String)
        ensures
            r@ == utf8_lossy(c_prefix(self.0.name@)),
    {
        string_from_c_chars(&self.0.name)
    }

    /// Connection string.
    pub fn conn(&self) -> (r: String)
        ensures
            r@ == utf8_lossy(c_prefix(self.0.conn@)),
    {
        string_from_c_chars(&self.0.conn)
    }

    /// Device type.
    pub fn device_type(&self) -> (r: DeviceType)
        ensures
            r.bits == self.0.dtp,
    {
        DeviceType { bits: self.0.dtp }
    }
}

/// Cursor over the devices of one enumeration, by index.
pub struct Devices {
    curr: i32,
    count: i32,
}

impl Devices {
    pub closed spec fn spec_curr(&self) -> int {
        self.curr as int
    }

    pub closed spec fn spec_count(&self) -> int {
        self.count as int
    }

    /// The cursor over `count` devices, at the first.
    pub fn new(count: i32) -> (r: Devices)
        ensures
            r.spec_curr() == 0,
            r.spec_count() == count,
    {
        Devices { curr: 0, count }
    }

    /// The index of the next device to fetch, or `None` once all were.
    pub fn next_index(&mut self) -> (r: Option<i32>)
        ensures
            final(self).spec_count() == old(self).spec_count(),
            old(self).spec_curr() < old(self).spec_count() ==> r == Some(old(self).spec_curr() as i32)
                && final(self).spec_curr() == old(self).spec_curr() + 1,
            old(self).spec_curr() >= old(self).spec_count() ==> r is None && final(self).spec_curr()
                == old(self).spec_curr(),
    {
        if self.curr < self.count {
            let i = self.curr;
            self.curr = self.curr + 1;
            Some(i)
        } else {
            None
        }
    }

    /// Number of devices not yet fetched.
    pub fn size_hint(&self) -> (r: usize)
        ensures
            r == (if self.spec_curr() < self.spec_count() {
                self.spec_count() - self.spec_curr()
            } else {
                0
            }),
    {
        if self.curr < self.count {
            (self.count as i64 - self.curr as i64) as usize
        } else {
            0
        }
    }
}

} // verus!
