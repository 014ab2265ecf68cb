//! Register-bus (EPP) interface: the checks and argument layouts of register
//! reads and writes, made before each native call.

use vstd::prelude::*;
use crate::adept::{require_caps, DeviceCaps, Error, ERC_INVALID_PARAMETER, ERC_NOT_SUPPORTED};

verus! {

/// A register address and the byte to write to it.
#[derive(Clone, Copy, Debug, PartialEq, Eq, Structural)]
pub struct AddrData(pub u8, pub u8);

/// The layout of address/data pairs handed to the native library: address
/// and data byte of each pair in turn.
pub open spec fn spec_addr_data_bytes(pairs: Seq<AddrData>) -> Seq<u8>
    decreases pairs.len(),
{
    if pairs.len() == 0 {
        Seq::empty()
    } else {
        spec_addr_data_bytes(pairs.drop_last()) + seq![pairs.last().0, pairs.last().1]
    }
}

proof fn lemma_addr_data_bytes_len(pairs: Seq<AddrData>)
    ensures
        spec_addr_data_bytes(pairs).len() == 2 * pairs.len(),
    decreases pairs.len(),
{
    if pairs.len() > 0 {
        lemma_addr_data_bytes_len(pairs.drop_last());
    }
}

/// The native layout of address/data pairs.
pub fn addr_data_bytes(pairs: &[AddrData]) -> (r: Vec<u8>)
    ensures
        r@ == spec_addr_data_bytes(pairs@),
        r@.len() == 2 * pairs@.len(),
{
    let mut out: Vec<u8> = Vec::new();
    let mut i: usize = 0;
    while i < pairs.len()
        invariant
            i <= pairs@.len(),
            out@ == spec_addr_data_bytes(pairs@.take(i as int)),
        decreases pairs@.len() - i,
    {
        out.push(pairs[i].0);
        out.push(pairs[i].1);
        proof {
            assert(pairs@.take(i + 1).drop_last() =~= pairs@.take(i as int));
        }
        i = i + 1;
    }
    proof {
        assert(pairs@.take(pairs@.len() as int) =~= pairs@);
        lemma_addr_data_bytes_len(pairs@);
    }
    out
}

/// A count handed to the native library as 32 bits: `ERC_INVALID_PARAMETER`
/// where it does not fit.
pub fn native_count(n: usize) -> (r: Result<u32, Error>)
    ensures
        r == (if n <= u32::MAX {
            Ok(n as u32)
        } else {
            Err(Error(ERC_INVALID_PARAMETER))
        }),
{
    if n <= u32::MAX as usize {
        Ok(n as u32)
    } else {
        Err(Error(ERC_INVALID_PARAMETER))
    }
}

/// Number of registers read by a set read: one per address for which a
/// data byte is there to receive it.
pub fn reg_set_len(addr_len: usize, data_len: usize) -> (r: Result<u32, Error>)
    ensures
        ({
            let n = if addr_len <= data_len {
                addr_len
            } else {
                data_len
            };
            r == (if n <= u32::MAX {
                Ok(n as u32)
            } else {
                Err(Error(ERC_INVALID_PARAMETER))
            })
        }),
{
    native_count(if addr_len <= data_len {
        addr_len
    } else {
        data_len
    })
}

/// The native timeout, in nanoseconds, of a duration of `secs` seconds and
/// `subsec_nanos` nanoseconds: `ERC_INVALID_PARAMETER` where it does not fit
/// 32 bits.
pub fn timeout_nanos(secs: u64, subsec_nanos: u32) -> (r: Result<u32, Error>)
    requires
        subsec_nanos < 1_000_000_000,
    ensures
        r == (if secs * 1_000_000_000 + subsec_nanos <= u32::MAX {
            Ok((secs * 1_000_000_000 + subsec_nanos) as u32)
        } else {
            Err(Error(ERC_INVALID_PARAMETER))
        }),
{
    if secs > 4 {
        return Err(Error(ERC_INVALID_PARAMETER));
    }
    let total: u64 = secs * 1_000_000_000 + subsec_nanos as u64;
    if total <= u32::MAX as u64 {
        Ok(total as u32)
    } else {
        Err(Error(ERC_INVALID_PARAMETER))
    }
}

/// The register-bus interface opens only on a device with the EPP capability.
pub fn check_epp(caps: DeviceCaps) -> (r: Result<(), Error>)
    ensures
        r == (if caps.bits & DeviceCaps::EPP == DeviceCaps::EPP {
            Ok(())
        } else {
            Err(Error(ERC_NOT_SUPPORTED))
        }),
{
    require_caps(caps, DeviceCaps::EPP)
}

} // verus!
