//! Fixed-layout records that cross the native boundary: the envelope header,
//! the CAN message identifier and control word, the CAN message and the
//! envelope. Packed fields are read and written by shift and mask on one
//! stored integer, at the bit positions the native library uses.

use vstd::prelude::*;
use crate::bits::{
    from_le16, from_le32, le_bytes16, le_bytes32, lemma_le16_bytes, lemma_le16_round_trip,
    lemma_le32_bytes, lemma_le32_round_trip, push_le16, push_le32, read_le16, read_le32,
    field16, field32, get_field16, get_field32, lemma_field_bounds, lemma_fits, lemma_masks,
    lemma_put16_other, lemma_put16_same, lemma_put32_other, lemma_put32_same, low_mask16,
    low_mask32, put16, put32, set_field16, set_field32,
};

use crate::types::{BMDataType, BM_DATA_PAYLOAD_MAX_SIZE};

verus! {

/// Envelope header: payload kind, reserved flags, destination and source channel, four bits each.
#[derive(Clone, Copy, Debug, PartialEq, Eq, Structural)]
pub struct BMDataHeader {
    /// The packed bits, as the native library reads them.
    pub bits: u16,
}

impl BMDataHeader {
    /// A value with every field zero.
    pub fn new() -> (r: BMDataHeader)
        ensures
            r.bits == 0,
    {
        BMDataHeader { bits: 0 }
    }

    /// The value with the given packed bits.
    pub fn from_bits(bits: u16) -> (r: BMDataHeader)
        ensures
            r.bits == bits,
    {
        BMDataHeader { bits }
    }

    /// The packed bits.
    pub fn into_bits(self) -> (r: u16)
        ensures
            r == self.bits,
    {
        self.bits
    }

    /// Payload kind code (see `BMDataType`); codes of no defined kind are kept as they are.
    pub open spec fn spec_kind(self) -> u8 {
        field16(self.bits, 0, 4) as u8
    }

    /// Payload kind code (see `BMDataType`); codes of no defined kind are kept as they are.
    pub fn kind(&self) -> (r: u8)
        ensures
            r == self.spec_kind(),
            r as int <= low_mask16(4),
    {
        proof {
            lemma_field_bounds(self.bits as u32, 0, 4, self.bits as u16, 0, 4);
        }
        get_field16(self.bits, 0, 4) as u8
    }

    /// Reserved flags, kept zero.
    pub open spec fn spec_flags(self) -> u8 {
        field16(self.bits, 4, 4) as u8
    }

    /// Reserved flags, kept zero.
    pub fn flags(&self) -> (r: u8)
        ensures
            r == self.spec_flags(),
            r as int <= low_mask16(4),
    {
        proof {
            lemma_field_bounds(self.bits as u32, 4, 4, self.bits as u16, 4, 4);
        }
        get_field16(self.bits, 4, 4) as u8
    }

    /// Destination channel, from zero: the port a transmitted message goes to.
    pub open spec fn spec_dchn(self) -> u8 {
        field16(self.bits, 8, 4) as u8
    }

    /// Destination channel, from zero: the port a transmitted message goes to.
    pub fn dchn(&self) -> (r: u8)
        ensures
            r == self.spec_dchn(),
            r as int <= low_mask16(4),
    {
        proof {
            lemma_field_bounds(self.bits as u32, 8, 4, self.bits as u16, 8, 4);
        }
        get_field16(self.bits, 8, 4) as u8
    }

    /// Source channel, from zero: the port a received message came from.
    pub open spec fn spec_schn(self) -> u8 {
        field16(self.bits, 12, 4) as u8
    }

    /// Source channel, from zero: the port a received message came from.
    pub fn schn(&self) -> (r: u8)
        ensures
            r == self.spec_schn(),
            r as int <= low_mask16(4),
    {
        proof {
            lemma_field_bounds(self.bits as u32, 12, 4, self.bits as u16, 12, 4);
        }
        get_field16(self.bits, 12, 4) as u8
    }

    pub open spec fn spec_with_kind(self, v: u8) -> BMDataHeader {
        BMDataHeader { bits: put16(self.bits, v as u16, 0, 4) }
    }

    /// This value with the field `kind` set to `v`.
    pub fn with_kind(self, v: u8) -> (r: BMDataHeader)
        requires
            v as int <= low_mask16(4),
        ensures
            r == self.spec_with_kind(v),
            r.spec_kind() == v,
            r.spec_flags() == self.spec_flags(),
            r.spec_dchn() == self.spec_dchn(),
            r.spec_schn() == self.spec_schn(),
    {
        let x: u16 = v as u16;
        proof {
            lemma_masks();
            lemma_fits(x as u32, 4, x as u16, 4);
            lemma_put16_same(self.bits, x, 0, 4);
            lemma_put16_other(self.bits, x, 0, 4, 4, 4);
            lemma_put16_other(self.bits, x, 0, 4, 8, 4);
            lemma_put16_other(self.bits, x, 0, 4, 12, 4);
        }
        BMDataHeader { bits: set_field16(self.bits, x, 0, 4) }
    }

    pub open spec fn spec_with_flags(self, v: u8) -> BMDataHeader {
        BMDataHeader { bits: put16(self.bits, v as u16, 4, 4) }
    }

    /// This value with the field `flags` set to `v`.
    pub fn with_flags(self, v: u8) -> (r: BMDataHeader)
        requires
            v as int <= low_mask16(4),
        ensures
            r == self.spec_with_flags(v),
            r.spec_flags() == v,
            r.spec_kind() == self.spec_kind(),
            r.spec_dchn() == self.spec_dchn(),
            r.spec_schn() == self.spec_schn(),
    {
        let x: u16 = v as u16;
        proof {
            lemma_masks();
            lemma_fits(x as u32, 4, x as u16, 4);
            lemma_put16_same(self.bits, x, 4, 4);
            lemma_put16_other(self.bits, x, 4, 4, 0, 4);
            lemma_put16_other(self.bits, x, 4, 4, 8, 4);
            lemma_put16_other(self.bits, x, 4, 4, 12, 4);
        }
        BMDataHeader { bits: set_field16(self.bits, x, 4, 4) }
    }

    pub open spec fn spec_with_dchn(self, v: u8) -> BMDataHeader {
        BMDataHeader { bits: put16(self.bits, v as u16, 8, 4) }
    }

    /// This value with the field `dchn` set to `v`.
    pub fn with_dchn(self, v: u8) -> (r: BMDataHeader)
        requires
            v as int <= low_mask16(4),
        ensures
            r == self.spec_with_dchn(v),
            r.spec_dchn() == v,
            r.spec_kind() == self.spec_kind(),
            r.spec_flags() == self.spec_flags(),
            r.spec_schn() == self.spec_schn(),
    {
        let x: u16 = v as u16;
        proof {
            lemma_masks();
            lemma_fits(x as u32, 4, x as u16, 4);
            lemma_put16_same(self.bits, x, 8, 4);
            lemma_put16_other(self.bits, x, 8, 4, 0, 4);
            lemma_put16_other(self.bits, x, 8, 4, 4, 4);
            lemma_put16_other(self.bits, x, 8, 4, 12, 4);
        }
        BMDataHeader { bits: set_field16(self.bits, x, 8, 4) }
    }

    pub open spec fn spec_with_schn(self, v: u8) -> BMDataHeader {
        BMDataHeader { bits: put16(self.bits, v as u16, 12, 4) }
    }

    /// This value with the field `schn` set to `v`.
    pub fn with_schn(self, v: u8) -> (r: BMDataHeader)
        requires
            v as int <= low_mask16(4),
        ensures
            r == self.spec_with_schn(v),
            r.spec_schn() == v,
            r.spec_kind() == self.spec_kind(),
            r.spec_flags() == self.spec_flags(),
            r.spec_dchn() == self.spec_dchn(),
    {
        let x: u16 = v as u16;
        proof {
            lemma_masks();
            lemma_fits(x as u32, 4, x as u16, 4);
            lemma_put16_same(self.bits, x, 12, 4);
            lemma_put16_other(self.bits, x, 12, 4, 0, 4);
            lemma_put16_other(self.bits, x, 12, 4, 4, 4);
            lemma_put16_other(self.bits, x, 12, 4, 8, 4);
        }
        BMDataHeader { bits: set_field16(self.bits, x, 12, 4) }
    }

}
/// CAN message identifier: an 11-bit standard id and an 18-bit extended id in disjoint bits, then three reserved bits. Which id counts is told by the IDE flag of the control word.
#[derive(Clone, Copy, Debug, PartialEq, Eq, Structural)]
pub struct BMMessageId {
    /// The packed bits, as the native library reads them.
    pub bits: u32,
}

impl BMMessageId {
    /// A value with every field zero.
    pub fn new() -> (r: BMMessageId)
        ensures
            r.bits == 0,
    {
        BMMessageId { bits: 0 }
    }

    /// The value with the given packed bits.
    pub fn from_bits(bits: u32) -> (r: BMMessageId)
        ensures
            r.bits == bits,
    {
        BMMessageId { bits }
    }

    /// The packed bits.
    pub fn into_bits(self) -> (r: u32)
        ensures
            r == self.bits,
    {
        self.bits
    }

    /// Standard identifier.
    pub open spec fn spec_sid(self) -> u16 {
        field32(self.bits, 0, 11) as u16
    }

    /// Standard identifier.
    pub fn sid(&self) -> (r: u16)
        ensures
            r == self.spec_sid(),
            r as int <= low_mask32(11),
    {
        proof {
            lemma_field_bounds(self.bits as u32, 0, 11, self.bits as u16, 0, 11);
        }
        get_field32(self.bits, 0, 11) as u16
    }

    /// Extended identifier.
    pub open spec fn spec_eid(self) -> u32 {
        field32(self.bits, 11, 18) as u32
    }

    /// Extended identifier.
    pub fn eid(&self) -> (r: u32)
        ensures
            r == self.spec_eid(),
            r as int <= low_mask32(18),
    {
        proof {
            lemma_field_bounds(self.bits as u32, 11, 18, self.bits as u16, 11, 18);
        }
        get_field32(self.bits, 11, 18) as u32
    }

    /// Reserved.
    pub open spec fn spec_reserved1(self) -> bool {
        field32(self.bits, 29, 1) == 1
    }

    /// Reserved.
    pub fn reserved1(&self) -> (r: bool)
        ensures
            r == self.spec_reserved1(),
    {
        get_field32(self.bits, 29, 1) == 1
    }

    /// Reserved.
    pub open spec fn spec_reserved2(self) -> u8 {
        field32(self.bits, 30, 2) as u8
    }

    /// Reserved.
    pub fn reserved2(&self) -> (r: u8)
        ensures
            r == self.spec_reserved2(),
            r as int <= low_mask32(2),
    {
        proof {
            lemma_field_bounds(self.bits as u32, 30, 2, self.bits as u16, 30, 2);
        }
        get_field32(self.bits, 30, 2) as u8
    }

    pub open spec fn spec_with_sid(self, v: u16) -> BMMessageId {
        BMMessageId { bits: put32(self.bits, v as u32, 0, 11) }
    }

    /// This value with the field `sid` set to `v`.
    pub fn with_sid(self, v: u16) -> (r: BMMessageId)
        requires
            v as int <= low_mask32(11),
        ensures
            r == self.spec_with_sid(v),
            r.spec_sid() == v,
            r.spec_eid() == self.spec_eid(),
            r.spec_reserved1() == self.spec_reserved1(),
            r.spec_reserved2() == self.spec_reserved2(),
    {
        let x: u32 = v as u32;
        proof {
            lemma_masks();
            lemma_fits(x as u32, 11, x as u16, 11);
            lemma_put32_same(self.bits, x, 0, 11);
            lemma_put32_other(self.bits, x, 0, 11, 11, 18);
            lemma_put32_other(self.bits, x, 0, 11, 29, 1);
            lemma_put32_other(self.bits, x, 0, 11, 30, 2);
        }
        BMMessageId { bits: set_field32(self.bits, x, 0, 11) }
    }

    pub open spec fn spec_with_eid(self, v: u32) -> BMMessageId {
        BMMessageId { bits: put32(self.bits, v as u32, 11, 18) }
    }

    /// This value with the field `eid` set to `v`.
    pub fn with_eid(self, v: u32) -> (r: BMMessageId)
        requires
            v as int <= low_mask32(18),
        ensures
            r == self.spec_with_eid(v),
            r.spec_eid() == v,
            r.spec_sid() == self.spec_sid(),
            r.spec_reserved1() == self.spec_reserved1(),
            r.spec_reserved2() == self.spec_reserved2(),
    {
        let x: u32 = v as u32;
        proof {
            lemma_masks();
            lemma_fits(x as u32, 18, x as u16, 18);
            lemma_put32_same(self.bits, x, 11, 18);
            lemma_put32_other(self.bits, x, 11, 18, 0, 11);
            lemma_put32_other(self.bits, x, 11, 18, 29, 1);
            lemma_put32_other(self.bits, x, 11, 18, 30, 2);
        }
        BMMessageId { bits: set_field32(self.bits, x, 11, 18) }
    }

    pub open spec fn spec_with_reserved1(self, v: bool) -> BMMessageId {
        BMMessageId { bits: put32(self.bits, if v { 1 } else { 0 }, 29, 1) }
    }

    /// This value with the field `reserved1` set to `v`.
    pub fn with_reserved1(self, v: bool) -> (r: BMMessageId)
        ensures
            r == self.spec_with_reserved1(v),
            r.spec_reserved1() == v,
            r.spec_sid() == self.spec_sid(),
            r.spec_eid() == self.spec_eid(),
            r.spec_reserved2() == self.spec_reserved2(),
    {
        let x: u32 = if v { 1 } else { 0 };
        proof {
            lemma_masks();
            lemma_fits(x as u32, 1, x as u16, 1);
            lemma_put32_same(self.bits, x, 29, 1);
            lemma_put32_other(self.bits, x, 29, 1, 0, 11);
            lemma_put32_other(self.bits, x, 29, 1, 11, 18);
            lemma_put32_other(self.bits, x, 29, 1, 30, 2);
        }
        BMMessageId { bits: set_field32(self.bits, x, 29, 1) }
    }

    pub open spec fn spec_with_reserved2(self, v: u8) -> BMMessageId {
        BMMessageId { bits: put32(self.bits, v as u32, 30, 2) }
    }

    /// This value with the field `reserved2` set to `v`.
    pub fn with_reserved2(self, v: u8) -> (r: BMMessageId)
        requires
            v as int <= low_mask32(2),
        ensures
            r == self.spec_with_reserved2(v),
            r.spec_reserved2() == v,
            r.spec_sid() == self.spec_sid(),
            r.spec_eid() == self.spec_eid(),
            r.spec_reserved1() == self.spec_reserved1(),
    {
        let x: u32 = v as u32;
        proof {
            lemma_masks();
            lemma_fits(x as u32, 2, x as u16, 2);
            lemma_put32_same(self.bits, x, 30, 2);
            lemma_put32_other(self.bits, x, 30, 2, 0, 11);
            lemma_put32_other(self.bits, x, 30, 2, 11, 18);
            lemma_put32_other(self.bits, x, 30, 2, 29, 1);
        }
        BMMessageId { bits: set_field32(self.bits, x, 30, 2) }
    }

}

/// Control word of a transmitted CAN message. Its first nine bits are laid out as in `BMRxMessageCtrl`.
#[derive(Clone, Copy, Debug, PartialEq, Eq, Structural)]
pub struct BMTxMessageCtrl {
    /// The packed bits, as the native library reads them.
    pub bits: u32,
}

impl BMTxMessageCtrl {
    /// A value with every field zero.
    pub fn new() -> (r: BMTxMessageCtrl)
        ensures
            r.bits == 0,
    {
        BMTxMessageCtrl { bits: 0 }
    }

    /// The value with the given packed bits.
    pub fn from_bits(bits: u32) -> (r: BMTxMessageCtrl)
        ensures
            r.bits == bits,
    {
        BMTxMessageCtrl { bits }
    }

    /// The packed bits.
    pub fn into_bits(self) -> (r: u32)
        ensures
            r == self.bits,
    {
        self.bits
    }

    /// Data length code (0 to 15); not a byte count.
    pub open spec fn spec_dlc(self) -> u8 {
        field32(self.bits, 0, 4) as u8
    }

    /// Data length code (0 to 15); not a byte count.
    pub fn dlc(&self) -> (r: u8)
        ensures
            r == self.spec_dlc(),
            r as int <= low_mask32(4),
    {
        proof {
            lemma_field_bounds(self.bits as u32, 0, 4, self.bits as u16, 0, 4);
        }
        get_field32(self.bits, 0, 4) as u8
    }

    /// The message is an extended CAN message.
    pub open spec fn spec_ide(self) -> bool {
        field32(self.bits, 4, 1) == 1
    }

    /// The message is an extended CAN message.
    pub fn ide(&self) -> (r: bool)
        ensures
            r == self.spec_ide(),
    {
        get_field32(self.bits, 4, 1) == 1
    }

    /// The message is a remote CAN message.
    pub open spec fn spec_rtr(self) -> bool {
        field32(self.bits, 5, 1) == 1
    }

    /// The message is a remote CAN message.
    pub fn rtr(&self) -> (r: bool)
        ensures
            r == self.spec_rtr(),
    {
        get_field32(self.bits, 5, 1) == 1
    }

    /// The message uses CAN-FD bit rate switching.
    pub open spec fn spec_brs(self) -> bool {
        field32(self.bits, 6, 1) == 1
    }

    /// The message uses CAN-FD bit rate switching.
    pub fn brs(&self) -> (r: bool)
        ensures
            r == self.spec_brs(),
    {
        get_field32(self.bits, 6, 1) == 1
    }

    /// The message is a CAN-FD message.
    pub open spec fn spec_fdf(self) -> bool {
        field32(self.bits, 7, 1) == 1
    }

    /// The message is a CAN-FD message.
    pub fn fdf(&self) -> (r: bool)
        ensures
            r == self.spec_fdf(),
    {
        get_field32(self.bits, 7, 1) == 1
    }

    /// Reserved for gateways.
    pub open spec fn spec_esi(self) -> bool {
        field32(self.bits, 8, 1) == 1
    }

    /// Reserved for gateways.
    pub fn esi(&self) -> (r: bool)
        ensures
            r == self.spec_esi(),
    {
        get_field32(self.bits, 8, 1) == 1
    }

    /// Reserved for hardware sync.
    pub open spec fn spec_seq(self) -> u32 {
        field32(self.bits, 9, 23) as u32
    }

    /// Reserved for hardware sync.
    pub fn seq(&self) -> (r: u32)
        ensures
            r == self.spec_seq(),
            r as int <= low_mask32(23),
    {
        proof {
            lemma_field_bounds(self.bits as u32, 9, 23, self.bits as u16, 9, 23);
        }
        get_field32(self.bits, 9, 23) as u32
    }

    pub open spec fn spec_with_dlc(self, v: u8) -> BMTxMessageCtrl {
        BMTxMessageCtrl { bits: put32(self.bits, v as u32, 0, 4) }
    }

    /// This value with the field `dlc` set to `v`.
    pub fn with_dlc(self, v: u8) -> (r: BMTxMessageCtrl)
        requires
            v as int <= low_mask32(4),
        ensures
            r == self.spec_with_dlc(v),
            r.spec_dlc() == v,
            r.spec_ide() == self.spec_ide(),
            r.spec_rtr() == self.spec_rtr(),
            r.spec_brs() == self.spec_brs(),
            r.spec_fdf() == self.spec_fdf(),
            r.spec_esi() == self.spec_esi(),
            r.spec_seq() == self.spec_seq(),
    {
        let x: u32 = v as u32;
        proof {
            lemma_masks();
            lemma_fits(x as u32, 4, x as u16, 4);
            lemma_put32_same(self.bits, x, 0, 4);
            lemma_put32_other(self.bits, x, 0, 4, 4, 1);
            lemma_put32_other(self.bits, x, 0, 4, 5, 1);
            lemma_put32_other(self.bits, x, 0, 4, 6, 1);
            lemma_put32_other(self.bits, x, 0, 4, 7, 1);
            lemma_put32_other(self.bits, x, 0, 4, 8, 1);
            lemma_put32_other(self.bits, x, 0, 4, 9, 23);
        }
        BMTxMessageCtrl { bits: set_field32(self.bits, x, 0, 4) }
    }

    pub open spec fn spec_with_ide(self, v: bool) -> BMTxMessageCtrl {
        BMTxMessageCtrl { bits: put32(self.bits, if v { 1 } else { 0 }, 4, 1) }
    }

    /// This value with the field `ide` set to `v`.
    pub fn with_ide(self, v: bool) -> (r: BMTxMessageCtrl)
        ensures
            r == self.spec_with_ide(v),
            r.spec_ide() == v,
            r.spec_dlc() == self.spec_dlc(),
            r.spec_rtr() == self.spec_rtr(),
            r.spec_brs() == self.spec_brs(),
            r.spec_fdf() == self.spec_fdf(),
            r.spec_esi() == self.spec_esi(),
            r.spec_seq() == self.spec_seq(),
    {
        let x: u32 = if v { 1 } else { 0 };
        proof {
            lemma_masks();
            lemma_fits(x as u32, 1, x as u16, 1);
            lemma_put32_same(self.bits, x, 4, 1);
            lemma_put32_other(self.bits, x, 4, 1, 0, 4);
            lemma_put32_other(self.bits, x, 4, 1, 5, 1);
            lemma_put32_other(self.bits, x, 4, 1, 6, 1);
            lemma_put32_other(self.bits, x, 4, 1, 7, 1);
            lemma_put32_other(self.bits, x, 4, 1, 8, 1);
            lemma_put32_other(self.bits, x, 4, 1, 9, 23);
        }
        BMTxMessageCtrl { bits: set_field32(self.bits, x, 4, 1) }
    }

    pub open spec fn spec_with_rtr(self, v: bool) -> BMTxMessageCtrl {
        BMTxMessageCtrl { bits: put32(self.bits, if v { 1 } else { 0 }, 5, 1) }
    }

    /// This value with the field `rtr` set to `v`.
    pub fn with_rtr(self, v: bool) -> (r: BMTxMessageCtrl)
        ensures
            r == self.spec_with_rtr(v),
            r.spec_rtr() == v,
            r.spec_dlc() == self.spec_dlc(),
            r.spec_ide() == self.spec_ide(),
            r.spec_brs() == self.spec_brs(),
            r.spec_fdf() == self.spec_fdf(),
            r.spec_esi() == self.spec_esi(),
            r.spec_seq() == self.spec_seq(),
    {
        let x: u32 = if v { 1 } else { 0 };
        proof {
            lemma_masks();
            lemma_fits(x as u32, 1, x as u16, 1);
            lemma_put32_same(self.bits, x, 5, 1);
            lemma_put32_other(self.bits, x, 5, 1, 0, 4);
            lemma_put32_other(self.bits, x, 5, 1, 4, 1);
            lemma_put32_other(self.bits, x, 5, 1, 6, 1);
            lemma_put32_other(self.bits, x, 5, 1, 7, 1);
            lemma_put32_other(self.bits, x, 5, 1, 8, 1);
            lemma_put32_other(self.bits, x, 5, 1, 9, 23);
        }
        BMTxMessageCtrl { bits: set_field32(self.bits, x, 5, 1) }
    }

    pub open spec fn spec_with_brs(self, v: bool) -> BMTxMessageCtrl {
        BMTxMessageCtrl { bits: put32(self.bits, if v { 1 } else { 0 }, 6, 1) }
    }

    /// This value with the field `brs` set to `v`.
    pub fn with_brs(self, v: bool) -> (r: BMTxMessageCtrl)
        ensures
            r == self.spec_with_brs(v),
            r.spec_brs() == v,
            r.spec_dlc() == self.spec_dlc(),
            r.spec_ide() == self.spec_ide(),
            r.spec_rtr() == self.spec_rtr(),
            r.spec_fdf() == self.spec_fdf(),
            r.spec_esi() == self.spec_esi(),
            r.spec_seq() == self.spec_seq(),
    {
        let x: u32 = if v { 1 } else { 0 };
        proof {
            lemma_masks();
            lemma_fits(x as u32, 1, x as u16, 1);
            lemma_put32_same(self.bits, x, 6, 1);
            lemma_put32_other(self.bits, x, 6, 1, 0, 4);
            lemma_put32_other(self.bits, x, 6, 1, 4, 1);
            lemma_put32_other(self.bits, x, 6, 1, 5, 1);
            lemma_put32_other(self.bits, x, 6, 1, 7, 1);
            lemma_put32_other(self.bits, x, 6, 1, 8, 1);
            lemma_put32_other(self.bits, x, 6, 1, 9, 23);
        }
        BMTxMessageCtrl { bits: set_field32(self.bits, x, 6, 1) }
    }

    pub open spec fn spec_with_fdf(self, v: bool) -> BMTxMessageCtrl {
        BMTxMessageCtrl { bits: put32(self.bits, if v { 1 } else { 0 }, 7, 1) }
    }

    /// This value with the field `fdf` set to `v`.
    pub fn with_fdf(self, v: bool) -> (r: BMTxMessageCtrl)
        ensures
            r == self.spec_with_fdf(v),
            r.spec_fdf() == v,
            r.spec_dlc() == self.spec_dlc(),
            r.spec_ide() == self.spec_ide(),
            r.spec_rtr() == self.spec_rtr(),
            r.spec_brs() == self.spec_brs(),
            r.spec_esi() == self.spec_esi(),
            r.spec_seq() == self.spec_seq(),
    {
        let x: u32 = if v { 1 } else { 0 };
        proof {
            lemma_masks();
            lemma_fits(x as u32, 1, x as u16, 1);
            lemma_put32_same(self.bits, x, 7, 1);
            lemma_put32_other(self.bits, x, 7, 1, 0, 4);
            lemma_put32_other(self.bits, x, 7, 1, 4, 1);
            lemma_put32_other(self.bits, x, 7, 1, 5, 1);
            lemma_put32_other(self.bits, x, 7, 1, 6, 1);
            lemma_put32_other(self.bits, x, 7, 1, 8, 1);
            lemma_put32_other(self.bits, x, 7, 1, 9, 23);
        }
        BMTxMessageCtrl { bits: set_field32(self.bits, x, 7, 1) }
    }

    pub open spec fn spec_with_esi(self, v: bool) -> BMTxMessageCtrl {
        BMTxMessageCtrl { bits: put32(self.bits, if v { 1 } else { 0 }, 8, 1) }
    }

    /// This value with the field `esi` set to `v`.
    pub fn with_esi(self, v: bool) -> (r: BMTxMessageCtrl)
        ensures
            r == self.spec_with_esi(v),
            r.spec_esi() == v,
            r.spec_dlc() == self.spec_dlc(),
            r.spec_ide() == self.spec_ide(),
            r.spec_rtr() == self.spec_rtr(),
            r.spec_brs() == self.spec_brs(),
            r.spec_fdf() == self.spec_fdf(),
            r.spec_seq() == self.spec_seq(),
    {
        let x: u32 = if v { 1 } else { 0 };
        proof {
            lemma_masks();
            lemma_fits(x as u32, 1, x as u16, 1);
            lemma_put32_same(self.bits, x, 8, 1);
            lemma_put32_other(self.bits, x, 8, 1, 0, 4);
            lemma_put32_other(self.bits, x, 8, 1, 4, 1);
            lemma_put32_other(self.bits, x, 8, 1, 5, 1);
            lemma_put32_other(self.bits, x, 8, 1, 6, 1);
            lemma_put32_other(self.bits, x, 8, 1, 7, 1);
            lemma_put32_other(self.bits, x, 8, 1, 9, 23);
        }
        BMTxMessageCtrl { bits: set_field32(self.bits, x, 8, 1) }
    }

    pub open spec fn spec_with_seq(self, v: u32) -> BMTxMessageCtrl {
        BMTxMessageCtrl { bits: put32(self.bits, v as u32, 9, 23) }
    }

    /// This value with the field `seq` set to `v`.
    pub fn with_seq(self, v: u32) -> (r: BMTxMessageCtrl)
        requires
            v as int <= low_mask32(23),
        ensures
            r == self.spec_with_seq(v),
            r.spec_seq() == v,
            r.spec_dlc() == self.spec_dlc(),
            r.spec_ide() == self.spec_ide(),
            r.spec_rtr() == self.spec_rtr(),
            r.spec_brs() == self.spec_brs(),
            r.spec_fdf() == self.spec_fdf(),
            r.spec_esi() == self.spec_esi(),
    {
        let x: u32 = v as u32;
        proof {
            lemma_masks();
            lemma_fits(x as u32, 23, x as u16, 23);
            lemma_put32_same(self.bits, x, 9, 23);
            lemma_put32_other(self.bits, x, 9, 23, 0, 4);
            lemma_put32_other(self.bits, x, 9, 23, 4, 1);
            lemma_put32_other(self.bits, x, 9, 23, 5, 1);
            lemma_put32_other(self.bits, x, 9, 23, 6, 1);
            lemma_put32_other(self.bits, x, 9, 23, 7, 1);
            lemma_put32_other(self.bits, x, 9, 23, 8, 1);
        }
        BMTxMessageCtrl { bits: set_field32(self.bits, x, 9, 23) }
    }

}

/// Control word of a received CAN message. Its first nine bits are laid out as in `BMTxMessageCtrl`.
#[derive(Clone, Copy, Debug, PartialEq, Eq, Structural)]
pub struct BMRxMessageCtrl {
    /// The packed bits, as the native library reads them.
    pub bits: u32,
}

impl BMRxMessageCtrl {
    /// A value with every field zero.
    pub fn new() -> (r: BMRxMessageCtrl)
        ensures
            r.bits == 0,
    {
        BMRxMessageCtrl { bits: 0 }
    }

    /// The value with the given packed bits.
    pub fn from_bits(bits: u32) -> (r: BMRxMessageCtrl)
        ensures
            r.bits == bits,
    {
        BMRxMessageCtrl { bits }
    }

    /// The packed bits.
    pub fn into_bits(self) -> (r: u32)
        ensures
            r == self.bits,
    {
        self.bits
    }

    /// Data length code (0 to 15); not a byte count.
    pub open spec fn spec_dlc(self) -> u8 {
        field32(self.bits, 0, 4) as u8
    }

    /// Data length code (0 to 15); not a byte count.
    pub fn dlc(&self) -> (r: u8)
        ensures
            r == self.spec_dlc(),
            r as int <= low_mask32(4),
    {
        proof {
            lemma_field_bounds(self.bits as u32, 0, 4, self.bits as u16, 0, 4);
        }
        get_field32(self.bits, 0, 4) as u8
    }

    /// The message is an extended CAN message.
    pub open spec fn spec_ide(self) -> bool {
        field32(self.bits, 4, 1) == 1
    }

    /// The message is an extended CAN message.
    pub fn ide(&self) -> (r: bool)
        ensures
            r == self.spec_ide(),
    {
        get_field32(self.bits, 4, 1) == 1
    }

    /// The message is a remote CAN message.
    pub open spec fn spec_rtr(self) -> bool {
        field32(self.bits, 5, 1) == 1
    }

    /// The message is a remote CAN message.
    pub fn rtr(&self) -> (r: bool)
        ensures
            r == self.spec_rtr(),
    {
        get_field32(self.bits, 5, 1) == 1
    }

    /// The message uses CAN-FD bit rate switching.
    pub open spec fn spec_brs(self) -> bool {
        field32(self.bits, 6, 1) == 1
    }

    /// The message uses CAN-FD bit rate switching.
    pub fn brs(&self) -> (r: bool)
        ensures
            r == self.spec_brs(),
    {
        get_field32(self.bits, 6, 1) == 1
    }

    /// The message is a CAN-FD message.
    pub open spec fn spec_fdf(self) -> bool {
        field32(self.bits, 7, 1) == 1
    }

    /// The message is a CAN-FD message.
    pub fn fdf(&self) -> (r: bool)
        ensures
            r == self.spec_fdf(),
    {
        get_field32(self.bits, 7, 1) == 1
    }

    /// Reserved for gateways.
    pub open spec fn spec_esi(self) -> bool {
        field32(self.bits, 8, 1) == 1
    }

    /// Reserved for gateways.
    pub fn esi(&self) -> (r: bool)
        ensures
            r == self.spec_esi(),
    {
        get_field32(self.bits, 8, 1) == 1
    }

    /// Reserved.
    pub open spec fn spec_reserved1(self) -> u8 {
        field32(self.bits, 9, 2) as u8
    }

    /// Reserved.
    pub fn reserved1(&self) -> (r: u8)
        ensures
            r == self.spec_reserved1(),
            r as int <= low_mask32(2),
    {
        proof {
            lemma_field_bounds(self.bits as u32, 9, 2, self.bits as u16, 9, 2);
        }
        get_field32(self.bits, 9, 2) as u8
    }

    /// Index of the receive filter that accepted the message.
    pub open spec fn spec_rx_filter(self) -> u8 {
        field32(self.bits, 11, 5) as u8
    }

    /// Index of the receive filter that accepted the message.
    pub fn rx_filter(&self) -> (r: u8)
        ensures
            r == self.spec_rx_filter(),
            r as int <= low_mask32(5),
    {
        proof {
            lemma_field_bounds(self.bits as u32, 11, 5, self.bits as u16, 11, 5);
        }
        get_field32(self.bits, 11, 5) as u8
    }

    /// Reserved.
    pub open spec fn spec_reserved2(self) -> u16 {
        field32(self.bits, 16, 16) as u16
    }

    /// Reserved.
    pub fn reserved2(&self) -> (r: u16)
        ensures
            r == self.spec_reserved2(),
            r as int <= low_mask32(16),
    {
        proof {
            lemma_field_bounds(self.bits as u32, 16, 16, self.bits as u16, 16, 16);
        }
        get_field32(self.bits, 16, 16) as u16
    }

    pub open spec fn spec_with_dlc(self, v: u8) -> BMRxMessageCtrl {
        BMRxMessageCtrl { bits: put32(self.bits, v as u32, 0, 4) }
    }

    /// This value with the field `dlc` set to `v`.
    pub fn with_dlc(self, v: u8) -> (r: BMRxMessageCtrl)
        requires
            v as int <= low_mask32(4),
        ensures
            r == self.spec_with_dlc(v),
            r.spec_dlc() == v,
            r.spec_ide() == self.spec_ide(),
            r.spec_rtr() == self.spec_rtr(),
            r.spec_brs() == self.spec_brs(),
            r.spec_fdf() == self.spec_fdf(),
            r.spec_esi() == self.spec_esi(),
            r.spec_reserved1() == self.spec_reserved1(),
            r.spec_rx_filter() == self.spec_rx_filter(),
            r.spec_reserved2() == self.spec_reserved2(),
    {
        let x: u32 = v as u32;
        proof {
            lemma_masks();
            lemma_fits(x as u32, 4, x as u16, 4);
            lemma_put32_same(self.bits, x, 0, 4);
            lemma_put32_other(self.bits, x, 0, 4, 4, 1);
            lemma_put32_other(self.bits, x, 0, 4, 5, 1);
            lemma_put32_other(self.bits, x, 0, 4, 6, 1);
            lemma_put32_other(self.bits, x, 0, 4, 7, 1);
            lemma_put32_other(self.bits, x, 0, 4, 8, 1);
            lemma_put32_other(self.bits, x, 0, 4, 9, 2);
            lemma_put32_other(self.bits, x, 0, 4, 11, 5);
            lemma_put32_other(self.bits, x, 0, 4, 16, 16);
        }
        BMRxMessageCtrl { bits: set_field32(self.bits, x, 0, 4) }
    }

    pub open spec fn spec_with_ide(self, v: bool) -> BMRxMessageCtrl {
        BMRxMessageCtrl { bits: put32(self.bits, if v { 1 } else { 0 }, 4, 1) }
    }

    /// This value with the field `ide` set to `v`.
    pub fn with_ide(self, v: bool) -> (r: BMRxMessageCtrl)
        ensures
            r == self.spec_with_ide(v),
            r.spec_ide() == v,
            r.spec_dlc() == self.spec_dlc(),
            r.spec_rtr() == self.spec_rtr(),
            r.spec_brs() == self.spec_brs(),
            r.spec_fdf() == self.spec_fdf(),
            r.spec_esi() == self.spec_esi(),
            r.spec_reserved1() == self.spec_reserved1(),
            r.spec_rx_filter() == self.spec_rx_filter(),
            r.spec_reserved2() == self.spec_reserved2(),
    {
        let x: u32 = if v { 1 } else { 0 };
        proof {
            lemma_masks();
            lemma_fits(x as u32, 1, x as u16, 1);
            lemma_put32_same(self.bits, x, 4, 1);
            lemma_put32_other(self.bits, x, 4, 1, 0, 4);
            lemma_put32_other(self.bits, x, 4, 1, 5, 1);
            lemma_put32_other(self.bits, x, 4, 1, 6, 1);
            lemma_put32_other(self.bits, x, 4, 1, 7, 1);
            lemma_put32_other(self.bits, x, 4, 1, 8, 1);
            lemma_put32_other(self.bits, x, 4, 1, 9, 2);
            lemma_put32_other(self.bits, x, 4, 1, 11, 5);
            lemma_put32_other(self.bits, x, 4, 1, 16, 16);
        }
        BMRxMessageCtrl { bits: set_field32(self.bits, x, 4, 1) }
    }

    pub open spec fn spec_with_rtr(self, v: bool) -> BMRxMessageCtrl {
        BMRxMessageCtrl { bits: put32(self.bits, if v { 1 } else { 0 }, 5, 1) }
    }

    /// This value with the field `rtr` set to `v`.
    pub fn with_rtr(self, v: bool) -> (r: BMRxMessageCtrl)
        ensures
            r == self.spec_with_rtr(v),
            r.spec_rtr() == v,
            r.spec_dlc() == self.spec_dlc(),
            r.spec_ide() == self.spec_ide(),
            r.spec_brs() == self.spec_brs(),
            r.spec_fdf() == self.spec_fdf(),
            r.spec_esi() == self.spec_esi(),
            r.spec_reserved1() == self.spec_reserved1(),
            r.spec_rx_filter() == self.spec_rx_filter(),
            r.spec_reserved2() == self.spec_reserved2(),
    {
        let x: u32 = if v { 1 } else { 0 };
        proof {
            lemma_masks();
            lemma_fits(x as u32, 1, x as u16, 1);
            lemma_put32_same(self.bits, x, 5, 1);
            lemma_put32_other(self.bits, x, 5, 1, 0, 4);
            lemma_put32_other(self.bits, x, 5, 1, 4, 1);
            lemma_put32_other(self.bits, x, 5, 1, 6, 1);
            lemma_put32_other(self.bits, x, 5, 1, 7, 1);
            lemma_put32_other(self.bits, x, 5, 1, 8, 1);
            lemma_put32_other(self.bits, x, 5, 1, 9, 2);
            lemma_put32_other(self.bits, x, 5, 1, 11, 5);
            lemma_put32_other(self.bits, x, 5, 1, 16, 16);
        }
        BMRxMessageCtrl { bits: set_field32(self.bits, x, 5, 1) }
    }

    pub open spec fn spec_with_brs(self, v: bool) -> BMRxMessageCtrl {
        BMRxMessageCtrl { bits: put32(self.bits, if v { 1 } else { 0 }, 6, 1) }
    }

    /// This value with the field `brs` set to `v`.
    pub fn with_brs(self, v: bool) -> (r: BMRxMessageCtrl)
        ensures
            r == self.spec_with_brs(v),
            r.spec_brs() == v,
            r.spec_dlc() == self.spec_dlc(),
            r.spec_ide() == self.spec_ide(),
            r.spec_rtr() == self.spec_rtr(),
            r.spec_fdf() == self.spec_fdf(),
            r.spec_esi() == self.spec_esi(),
            r.spec_reserved1() == self.spec_reserved1(),
            r.spec_rx_filter() == self.spec_rx_filter(),
            r.spec_reserved2() == self.spec_reserved2(),
    {
        let x: u32 = if v { 1 } else { 0 };
        proof {
            lemma_masks();
            lemma_fits(x as u32, 1, x as u16, 1);
            lemma_put32_same(self.bits, x, 6, 1);
            lemma_put32_other(self.bits, x, 6, 1, 0, 4);
            lemma_put32_other(self.bits, x, 6, 1, 4, 1);
            lemma_put32_other(self.bits, x, 6, 1, 5, 1);
            lemma_put32_other(self.bits, x, 6, 1, 7, 1);
            lemma_put32_other(self.bits, x, 6, 1, 8, 1);
            lemma_put32_other(self.bits, x, 6, 1, 9, 2);
            lemma_put32_other(self.bits, x, 6, 1, 11, 5);
            lemma_put32_other(self.bits, x, 6, 1, 16, 16);
        }
        BMRxMessageCtrl { bits: set_field32(self.bits, x, 6, 1) }
    }

    pub open spec fn spec_with_fdf(self, v: bool) -> BMRxMessageCtrl {
        BMRxMessageCtrl { bits: put32(self.bits, if v { 1 } else { 0 }, 7, 1) }
    }

    /// This value with the field `fdf` set to `v`.
    pub fn with_fdf(self, v: bool) -> (r: BMRxMessageCtrl)
        ensures
            r == self.spec_with_fdf(v),
            r.spec_fdf() == v,
            r.spec_dlc() == self.spec_dlc(),
            r.spec_ide() == self.spec_ide(),
            r.spec_rtr() == self.spec_rtr(),
            r.spec_brs() == self.spec_brs(),
            r.spec_esi() == self.spec_esi(),
            r.spec_reserved1() == self.spec_reserved1(),
            r.spec_rx_filter() == self.spec_rx_filter(),
            r.spec_reserved2() == self.spec_reserved2(),
    {
        let x: u32 = if v { 1 } else { 0 };
        proof {
            lemma_masks();
            lemma_fits(x as u32, 1, x as u16, 1);
            lemma_put32_same(self.bits, x, 7, 1);
            lemma_put32_other(self.bits, x, 7, 1, 0, 4);
            lemma_put32_other(self.bits, x, 7, 1, 4, 1);
            lemma_put32_other(self.bits, x, 7, 1, 5, 1);
            lemma_put32_other(self.bits, x, 7, 1, 6, 1);
            lemma_put32_other(self.bits, x, 7, 1, 8, 1);
            lemma_put32_other(self.bits, x, 7, 1, 9, 2);
            lemma_put32_other(self.bits, x, 7, 1, 11, 5);
            lemma_put32_other(self.bits, x, 7, 1, 16, 16);
        }
        BMRxMessageCtrl { bits: set_field32(self.bits, x, 7, 1) }
    }

    pub open spec fn spec_with_esi(self, v: bool) -> BMRxMessageCtrl {
        BMRxMessageCtrl { bits: put32(self.bits, if v { 1 } else { 0 }, 8, 1) }
    }

    /// This value with the field `esi` set to `v`.
    pub fn with_esi(self, v: bool) -> (r: BMRxMessageCtrl)
        ensures
            r == self.spec_with_esi(v),
            r.spec_esi() == v,
            r.spec_dlc() == self.spec_dlc(),
            r.spec_ide() == self.spec_ide(),
            r.spec_rtr() == self.spec_rtr(),
            r.spec_brs() == self.spec_brs(),
            r.spec_fdf() == self.spec_fdf(),
            r.spec_reserved1() == self.spec_reserved1(),
            r.spec_rx_filter() == self.spec_rx_filter(),
            r.spec_reserved2() == self.spec_reserved2(),
    {
        let x: u32 = if v { 1 } else { 0 };
        proof {
            lemma_masks();
            lemma_fits(x as u32, 1, x as u16, 1);
            lemma_put32_same(self.bits, x, 8, 1);
            lemma_put32_other(self.bits, x, 8, 1, 0, 4);
            lemma_put32_other(self.bits, x, 8, 1, 4, 1);
            lemma_put32_other(self.bits, x, 8, 1, 5, 1);
            lemma_put32_other(self.bits, x, 8, 1, 6, 1);
            lemma_put32_other(self.bits, x, 8, 1, 7, 1);
            lemma_put32_other(self.bits, x, 8, 1, 9, 2);
            lemma_put32_other(self.bits, x, 8, 1, 11, 5);
            lemma_put32_other(self.bits, x, 8, 1, 16, 16);
        }
        BMRxMessageCtrl { bits: set_field32(self.bits, x, 8, 1) }
    }

    pub open spec fn spec_with_reserved1(self, v: u8) -> BMRxMessageCtrl {
        BMRxMessageCtrl { bits: put32(self.bits, v as u32, 9, 2) }
    }

    /// This value with the field `reserved1` set to `v`.
    pub fn with_reserved1(self, v: u8) -> (r: BMRxMessageCtrl)
        requires
            v as int <= low_mask32(2),
        ensures
            r == self.spec_with_reserved1(v),
            r.spec_reserved1() == v,
            r.spec_dlc() == self.spec_dlc(),
            r.spec_ide() == self.spec_ide(),
            r.spec_rtr() == self.spec_rtr(),
            r.spec_brs() == self.spec_brs(),
            r.spec_fdf() == self.spec_fdf(),
            r.spec_esi() == self.spec_esi(),
            r.spec_rx_filter() == self.spec_rx_filter(),
            r.spec_reserved2() == self.spec_reserved2(),
    {
        let x: u32 = v as u32;
        proof {
            lemma_masks();
            lemma_fits(x as u32, 2, x as u16, 2);
            lemma_put32_same(self.bits, x, 9, 2);
            lemma_put32_other(self.bits, x, 9, 2, 0, 4);
            lemma_put32_other(self.bits, x, 9, 2, 4, 1);
            lemma_put32_other(self.bits, x, 9, 2, 5, 1);
            lemma_put32_other(self.bits, x, 9, 2, 6, 1);
            lemma_put32_other(self.bits, x, 9, 2, 7, 1);
            lemma_put32_other(self.bits, x, 9, 2, 8, 1);
            lemma_put32_other(self.bits, x, 9, 2, 11, 5);
            lemma_put32_other(self.bits, x, 9, 2, 16, 16);
        }
        BMRxMessageCtrl { bits: set_field32(self.bits, x, 9, 2) }
    }

    pub open spec fn spec_with_rx_filter(self, v: u8) -> BMRxMessageCtrl {
        BMRxMessageCtrl { bits: put32(self.bits, v as u32, 11, 5) }
    }

    /// This value with the field `rx_filter` set to `v`.
    pub fn with_rx_filter(self, v: u8) -> (r: BMRxMessageCtrl)
        requires
            v as int <= low_mask32(5),
        ensures
            r == self.spec_with_rx_filter(v),
            r.spec_rx_filter() == v,
            r.spec_dlc() == self.spec_dlc(),
            r.spec_ide() == self.spec_ide(),
            r.spec_rtr() == self.spec_rtr(),
            r.spec_brs() == self.spec_brs(),
            r.spec_fdf() == self.spec_fdf(),
            r.spec_esi() == self.spec_esi(),
            r.spec_reserved1() == self.spec_reserved1(),
            r.spec_reserved2() == self.spec_reserved2(),
    {
        let x: u32 = v as u32;
        proof {
            lemma_masks();
            lemma_fits(x as u32, 5, x as u16, 5);
            lemma_put32_same(self.bits, x, 11, 5);
            lemma_put32_other(self.bits, x, 11, 5, 0, 4);
            lemma_put32_other(self.bits, x, 11, 5, 4, 1);
            lemma_put32_other(self.bits, x, 11, 5, 5, 1);
            lemma_put32_other(self.bits, x, 11, 5, 6, 1);
            lemma_put32_other(self.bits, x, 11, 5, 7, 1);
            lemma_put32_other(self.bits, x, 11, 5, 8, 1);
            lemma_put32_other(self.bits, x, 11, 5, 9, 2);
            lemma_put32_other(self.bits, x, 11, 5, 16, 16);
        }
        BMRxMessageCtrl { bits: set_field32(self.bits, x, 11, 5) }
    }

    pub open spec fn spec_with_reserved2(self, v: u16) -> BMRxMessageCtrl {
        BMRxMessageCtrl { bits: put32(self.bits, v as u32, 16, 16) }
    }

    /// This value with the field `reserved2` set to `v`.
    pub fn with_reserved2(self, v: u16) -> (r: BMRxMessageCtrl)
        requires
            v as int <= low_mask32(16),
        ensures
            r == self.spec_with_reserved2(v),
            r.spec_reserved2() == v,
            r.spec_dlc() == self.spec_dlc(),
            r.spec_ide() == self.spec_ide(),
            r.spec_rtr() == self.spec_rtr(),
            r.spec_brs() == self.spec_brs(),
            r.spec_fdf() == self.spec_fdf(),
            r.spec_esi() == self.spec_esi(),
            r.spec_reserved1() == self.spec_reserved1(),
            r.spec_rx_filter() == self.spec_rx_filter(),
    {
        let x: u32 = v as u32;
        proof {
            lemma_masks();
            lemma_fits(x as u32, 16, x as u16, 16);
            lemma_put32_same(self.bits, x, 16, 16);
            lemma_put32_other(self.bits, x, 16, 16, 0, 4);
            lemma_put32_other(self.bits, x, 16, 16, 4, 1);
            lemma_put32_other(self.bits, x, 16, 16, 5, 1);
            lemma_put32_other(self.bits, x, 16, 16, 6, 1);
            lemma_put32_other(self.bits, x, 16, 16, 7, 1);
            lemma_put32_other(self.bits, x, 16, 16, 8, 1);
            lemma_put32_other(self.bits, x, 16, 16, 9, 2);
            lemma_put32_other(self.bits, x, 16, 16, 11, 5);
        }
        BMRxMessageCtrl { bits: set_field32(self.bits, x, 16, 16) }
    }

}

/// Control word of a CAN message: one stored word read through the transmit
/// view or the receive view, as the direction of the message tells.
#[derive(Clone, Copy, Debug, PartialEq, Eq, Structural)]
pub struct BMMessageCtrl {
    /// The packed bits, shared by both views.
    pub bits: u32,
}

impl BMMessageCtrl {
    pub open spec fn spec_tx(self) -> BMTxMessageCtrl {
        BMTxMessageCtrl { bits: self.bits }
    }

    pub open spec fn spec_rx(self) -> BMRxMessageCtrl {
        BMRxMessageCtrl { bits: self.bits }
    }

    /// The control word of a transmitted message.
    pub fn from_tx(tx: BMTxMessageCtrl) -> (r: BMMessageCtrl)
        ensures
            r.bits == tx.bits,
    {
        BMMessageCtrl { bits: tx.bits }
    }

    /// The control word of a received message.
    pub fn from_rx(rx: BMRxMessageCtrl) -> (r: BMMessageCtrl)
        ensures
            r.bits == rx.bits,
    {
        BMMessageCtrl { bits: rx.bits }
    }

    /// The transmit view.
    pub fn tx(&self) -> (r: BMTxMessageCtrl)
        ensures
            r == self.spec_tx(),
    {
        BMTxMessageCtrl { bits: self.bits }
    }

    /// The receive view.
    pub fn rx(&self) -> (r: BMRxMessageCtrl)
        ensures
            r == self.spec_rx(),
    {
        BMRxMessageCtrl { bits: self.bits }
    }
}

/// The two views of a control word agree on the data length code and the
/// five flags that follow it.
pub proof fn lemma_ctrl_views_agree(c: BMMessageCtrl)
    ensures
        c.spec_tx().spec_dlc() == c.spec_rx().spec_dlc(),
        c.spec_tx().spec_ide() == c.spec_rx().spec_ide(),
        c.spec_tx().spec_rtr() == c.spec_rx().spec_rtr(),
        c.spec_tx().spec_brs() == c.spec_rx().spec_brs(),
        c.spec_tx().spec_fdf() == c.spec_rx().spec_fdf(),
        c.spec_tx().spec_esi() == c.spec_rx().spec_esi(),
{
}

/// Byte length of the payload that a data length code stands for: the code
/// itself up to 8; for CAN-FD frames 12, 16, 20, 24, 32, 48 and 64 for the
/// codes 9 to 15; no length for a classic frame with a code above 8, nor for
/// a code above 15.
pub open spec fn spec_dlc_len(dlc: u8, fdf: bool) -> Option<nat> {
    if dlc <= 8 {
        Some(dlc as nat)
    } else if !fdf || dlc > 15 {
        None
    } else if dlc == 9 {
        Some(12)
    } else if dlc == 10 {
        Some(16)
    } else if dlc == 11 {
        Some(20)
    } else if dlc == 12 {
        Some(24)
    } else if dlc == 13 {
        Some(32)
    } else if dlc == 14 {
        Some(48)
    } else {
        Some(64)
    }
}

/// Maps a data length code to the byte length of the payload, or `None`
/// where the code is not valid for the frame format.
pub fn dlc_to_byte_length(dlc: u8, fdf: bool) -> (r: Option<usize>)
    ensures
        match r {
            Some(n) => spec_dlc_len(dlc, fdf) == Some(n as nat),
            None => spec_dlc_len(dlc, fdf) is None,
        },
{
    if dlc <= 8 {
        Some(dlc as usize)
    } else if !fdf || dlc > 15 {
        None
    } else if dlc == 9 {
        Some(12)
    } else if dlc == 10 {
        Some(16)
    } else if dlc == 11 {
        Some(20)
    } else if dlc == 12 {
        Some(24)
    } else if dlc == 13 {
        Some(32)
    } else if dlc == 14 {
        Some(48)
    } else {
        Some(64)
    }
}

/// The smallest data length code whose CAN-FD byte length holds `len` bytes,
/// for `len <= 64`; equal to `len` for up to 8 bytes.
pub open spec fn spec_dlc_for_len(len: nat) -> u8 {
    if len <= 8 {
        len as u8
    } else if len <= 12 {
        9
    } else if len <= 16 {
        10
    } else if len <= 20 {
        11
    } else if len <= 24 {
        12
    } else if len <= 32 {
        13
    } else if len <= 48 {
        14
    } else {
        15
    }
}

/// The data length code for a payload of `len` bytes.
pub fn byte_length_to_dlc(len: usize) -> (r: u8)
    requires
        len <= 64,
    ensures
        r == spec_dlc_for_len(len as nat),
        r <= 15,
        len <= 8 ==> r as nat == len,
        spec_dlc_len(r, true) matches Some(n) && len <= n,
        len <= 8 ==> spec_dlc_len(r, false) == Some(len as nat),
{
    if len <= 8 {
        len as u8
    } else if len <= 12 {
        9
    } else if len <= 16 {
        10
    } else if len <= 20 {
        11
    } else if len <= 24 {
        12
    } else if len <= 32 {
        13
    } else if len <= 48 {
        14
    } else {
        15
    }
}

/// A CAN message, classic or FD: identifier, control word and a 64-byte
/// payload buffer. Its readable payload is the first bytes of the buffer, as
/// many as the data length code stands for; the rest is padding.
#[derive(Clone, Copy, Debug)]
pub struct BMCanMessage {
    /// Message identifier.
    pub mid: BMMessageId,
    /// Control word, read through the view of the message's direction.
    pub ctrl: BMMessageCtrl,
    /// Payload buffer.
    pub payload: [u8; 64],
}

/// Size (in bytes) of a CAN message in its native layout.
pub const BM_CAN_MESSAGE_SIZE: usize = 72;

impl BMCanMessage {
    /// The readable payload: the first `spec_dlc_len(dlc, fdf)` bytes of the
    /// buffer, none where the code is invalid for the frame format.
    pub open spec fn spec_payload(self) -> Option<Seq<u8>> {
        match spec_dlc_len(self.ctrl.spec_rx().spec_dlc(), self.ctrl.spec_rx().spec_fdf()) {
            Some(n) => Some(self.payload@.take(n as int)),
            None => None,
        }
    }

    /// The native layout: identifier and control word little-endian, then
    /// the payload buffer.
    pub open spec fn spec_bytes(self) -> Seq<u8> {
        le_bytes32(self.mid.bits) + le_bytes32(self.ctrl.bits) + self.payload@
    }

    /// The readable payload, or `None` where the data length code is not
    /// valid for the frame format.
    pub fn payload(&self) -> (r: Option<Vec<u8>>)
        ensures
            match r {
                Some(v) => self.spec_payload() == Some(v@),
                None => self.spec_payload() is None,
            },
    {
        let rx = self.ctrl.rx();
        match dlc_to_byte_length(rx.dlc(), rx.fdf()) {
            Some(n) => {
                let mut v: Vec<u8> = Vec::new();
                let mut i: usize = 0;
                while i < n
                    invariant
                        n <= 64,
                        i <= n,
                        v@ == self.payload@.take(i as int),
                    decreases n - i,
                {
                    v.push(self.payload[i]);
                    i = i + 1;
                    assert(v@ =~= self.payload@.take(i as int));
                }
                Some(v)
            },
            None => None,
        }
    }

    /// Standard identifier.
    pub fn sid(&self) -> (r: u16)
        ensures
            r == self.mid.spec_sid(),
    {
        self.mid.sid()
    }

    /// Extended identifier.
    pub fn eid(&self) -> (r: u32)
        ensures
            r == self.mid.spec_eid(),
    {
        self.mid.eid()
    }

    /// The message in its native layout.
    pub fn to_bytes(&self) -> (r: Vec<u8>)
        ensures
            r@ == self.spec_bytes(),
            r@.len() == BM_CAN_MESSAGE_SIZE,
    {
        let mut out: Vec<u8> = Vec::new();
        push_le32(&mut out, self.mid.bits);
        push_le32(&mut out, self.ctrl.bits);
        let mut i: usize = 0;
        while i < 64
            invariant
                i <= 64,
                out@ == le_bytes32(self.mid.bits) + le_bytes32(self.ctrl.bits) + self.payload@.take(
                    i as int,
                ),
            decreases 64 - i,
        {
            out.push(self.payload[i]);
            i = i + 1;
            assert(out@ =~= le_bytes32(self.mid.bits) + le_bytes32(self.ctrl.bits)
                + self.payload@.take(i as int));
        }
        assert(self.payload@.take(64) =~= self.payload@);
        out
    }

    /// The message whose native layout is `b`, where `b` has exactly that size.
    pub fn from_bytes(b: &[u8]) -> (r: Option<BMCanMessage>)
        ensures
            r is Some <==> b@.len() == BM_CAN_MESSAGE_SIZE,
            r matches Some(m) ==> m.spec_bytes() == b@,
            r matches Some(m) ==> m.mid.bits == from_le32(b@[0], b@[1], b@[2], b@[3]) && m.ctrl.bits
                == from_le32(b@[4], b@[5], b@[6], b@[7]) && m.payload@ == b@.subrange(8, 72),
    {
        if b.len() != BM_CAN_MESSAGE_SIZE {
            return None;
        }
        let mid = read_le32(b, 0);
        let ctrl = read_le32(b, 4);
        let mut payload = [0u8; 64];
        let mut i: usize = 0;
        while i < 64
            invariant
                b@.len() == 72,
                i <= 64,
                forall|j: int| 0 <= j < i ==> payload@[j] == b@[8 + j],
            decreases 64 - i,
        {
            payload[i] = b[8 + i];
            i = i + 1;
        }
        let m = BMCanMessage { mid: BMMessageId { bits: mid }, ctrl: BMMessageCtrl { bits: ctrl }, payload };
        proof {
            assert(m.payload@ =~= b@.subrange(8, 72));
            lemma_le32_bytes(b@[0], b@[1], b@[2], b@[3]);
            lemma_le32_bytes(b@[4], b@[5], b@[6], b@[7]);
            assert(m.spec_bytes() =~= b@);
        }
        Some(m)
    }
}

/// Reading the native layout of a message gives the same message.
pub proof fn lemma_can_message_bytes_round_trip(m: BMCanMessage)
    ensures
        m.spec_bytes().len() == BM_CAN_MESSAGE_SIZE,
        from_le32(m.spec_bytes()[0], m.spec_bytes()[1], m.spec_bytes()[2], m.spec_bytes()[3])
            == m.mid.bits,
        from_le32(m.spec_bytes()[4], m.spec_bytes()[5], m.spec_bytes()[6], m.spec_bytes()[7])
            == m.ctrl.bits,
        m.spec_bytes().subrange(8, 72) == m.payload@,
{
    lemma_le32_round_trip(m.mid.bits);
    lemma_le32_round_trip(m.ctrl.bits);
    assert(m.spec_bytes().subrange(8, 72) =~= m.payload@);
}

/// Envelope: a header, the payload length in bytes, a 32-bit device
/// timestamp in microseconds and a 72-byte payload buffer. Bytes of the buffer
/// past `length` are padding.
#[derive(Clone, Copy, Debug)]
pub struct BMData {
    /// Header, see `BMDataHeader`.
    pub header: BMDataHeader,
    /// Length in bytes of the payload only.
    pub length: u16,
    /// Device local timestamp in microseconds, wrapping.
    pub timestamp: u32,
    /// Payload buffer (for a CAN envelope, a `BMCanMessage` in its native layout).
    pub payload: [u8; 72],
}

impl BMData {
    /// The payload length fits the buffer.
    pub open spec fn wf(self) -> bool {
        self.length <= BM_DATA_PAYLOAD_MAX_SIZE
    }

    /// The native layout: header, length and timestamp little-endian, then
    /// the payload buffer.
    pub open spec fn spec_bytes(self) -> Seq<u8> {
        le_bytes16(self.header.bits) + le_bytes16(self.length) + le_bytes32(self.timestamp)
            + self.payload@
    }

    /// The CAN message that the envelope carries: its payload buffer read as
    /// a message where the header's kind is CAN, else none.
    pub open spec fn spec_can_message_bytes(self) -> Option<Seq<u8>> {
        if self.header.spec_kind() == BMDataType::Can.spec_code() {
            Some(self.payload@)
        } else {
            None
        }
    }

    /// The envelope in its native layout.
    pub fn to_bytes(&self) -> (r: Vec<u8>)
        ensures
            r@ == self.spec_bytes(),
            r@.len() == 80,
    {
        let mut out: Vec<u8> = Vec::new();
        push_le16(&mut out, self.header.bits);
        push_le16(&mut out, self.length);
        push_le32(&mut out, self.timestamp);
        let mut i: usize = 0;
        while i < 72
            invariant
                i <= 72,
                out@ == le_bytes16(self.header.bits) + le_bytes16(self.length) + le_bytes32(
                    self.timestamp,
                ) + self.payload@.take(i as int),
            decreases 72 - i,
        {
            out.push(self.payload[i]);
            i = i + 1;
            assert(out@ =~= le_bytes16(self.header.bits) + le_bytes16(self.length) + le_bytes32(
                self.timestamp,
            ) + self.payload@.take(i as int));
        }
        assert(self.payload@.take(72) =~= self.payload@);
        out
    }

    /// The envelope whose native layout is `b`, where `b` has exactly that size.
    pub fn from_bytes(b: &[u8]) -> (r: Option<BMData>)
        ensures
            r is Some <==> b@.len() == 80,
            r matches Some(d) ==> d.spec_bytes() == b@,
            r matches Some(d) ==> d.header.bits == from_le16(b@[0], b@[1]) && d.length == from_le16(
                b@[2],
                b@[3],
            ) && d.timestamp == from_le32(b@[4], b@[5], b@[6], b@[7]) && d.payload@ == b@.subrange(
                8,
                80,
            ),
    {
        if b.len() != 80 {
            return None;
        }
        let header = read_le16(b, 0);
        let length = read_le16(b, 2);
        let timestamp = read_le32(b, 4);
        let mut payload = [0u8; 72];
        let mut i: usize = 0;
        while i < 72
            invariant
                b@.len() == 80,
                i <= 72,
                forall|j: int| 0 <= j < i ==> payload@[j] == b@[8 + j],
            decreases 72 - i,
        {
            payload[i] = b[8 + i];
            i = i + 1;
        }
        let d = BMData { header: BMDataHeader { bits: header }, length, timestamp, payload };
        proof {
            assert(d.payload@ =~= b@.subrange(8, 80));
            lemma_le16_bytes(b@[0], b@[1]);
            lemma_le16_bytes(b@[2], b@[3]);
            lemma_le32_bytes(b@[4], b@[5], b@[6], b@[7]);
            assert(d.spec_bytes() =~= b@);
        }
        Some(d)
    }

    /// The payload proper: the first `length` bytes of the buffer, or `None`
    /// where `length` exceeds the buffer.
    pub fn payload_bytes(&self) -> (r: Option<Vec<u8>>)
        ensures
            self.wf() ==> (r matches Some(v) && v@ == self.payload@.take(self.length as int)),
            !self.wf() ==> r is None,
    {
        if self.length as usize > BM_DATA_PAYLOAD_MAX_SIZE {
            return None;
        }
        let n = self.length as usize;
        let mut v: Vec<u8> = Vec::new();
        let mut i: usize = 0;
        while i < n
            invariant
                n <= 72,
                n == self.length,
                i <= n,
                v@ == self.payload@.take(i as int),
            decreases n - i,
        {
            v.push(self.payload[i]);
            i = i + 1;
            assert(v@ =~= self.payload@.take(i as int));
        }
        Some(v)
    }

    /// The CAN message carried by this envelope: a byte-for-byte copy of the
    /// payload buffer where the header's kind is CAN, else `None`.
    pub fn can_message(&self) -> (r: Option<BMCanMessage>)
        ensures
            match self.spec_can_message_bytes() {
                Some(b) => r matches Some(m) && m.spec_bytes() == b,
                None => r is None,
            },
    {
        if self.header.kind() == BMDataType::Can.code() {
            BMCanMessage::from_bytes(&self.payload)
        } else {
            None
        }
    }
}

/// Reading the native layout of an envelope gives the same envelope.
pub proof fn lemma_data_bytes_round_trip(d: BMData)
    ensures
        d.spec_bytes().len() == 80,
        from_le16(d.spec_bytes()[0], d.spec_bytes()[1]) == d.header.bits,
        from_le16(d.spec_bytes()[2], d.spec_bytes()[3]) == d.length,
        from_le32(d.spec_bytes()[4], d.spec_bytes()[5], d.spec_bytes()[6], d.spec_bytes()[7])
            == d.timestamp,
        d.spec_bytes().subrange(8, 80) == d.payload@,
{
    lemma_le16_round_trip(d.header.bits);
    lemma_le16_round_trip(d.length);
    lemma_le32_round_trip(d.timestamp);
    assert(d.spec_bytes().subrange(8, 80) =~= d.payload@);
}

/// The header fields are independent: setting kind, destination channel and
/// source channel reads each of them back exactly, and the flags unchanged.
pub proof fn lemma_header_fields_independent(h: BMDataHeader, kind: u8, dchn: u8, schn: u8)
    requires
        kind < 16,
        dchn < 16,
        schn < 16,
    ensures
        ({
            let r = h.spec_with_kind(kind).spec_with_dchn(dchn).spec_with_schn(schn);
            &&& r.spec_kind() == kind
            &&& r.spec_dchn() == dchn
            &&& r.spec_schn() == schn
            &&& r.spec_flags() == h.spec_flags()
        }),
{
    lemma_masks();
    let a = h.spec_with_kind(kind);
    let b = a.spec_with_dchn(dchn);
    lemma_fits(kind as u32, 4, kind as u16, 4);
    lemma_fits(dchn as u32, 4, dchn as u16, 4);
    lemma_fits(schn as u32, 4, schn as u16, 4);
    lemma_put16_same(h.bits, kind as u16, 0, 4);
    lemma_put16_other(h.bits, kind as u16, 0, 4, 4, 4);
    lemma_put16_same(a.bits, dchn as u16, 8, 4);
    lemma_put16_other(a.bits, dchn as u16, 8, 4, 0, 4);
    lemma_put16_other(a.bits, dchn as u16, 8, 4, 4, 4);
    lemma_put16_same(b.bits, schn as u16, 12, 4);
    lemma_put16_other(b.bits, schn as u16, 12, 4, 0, 4);
    lemma_put16_other(b.bits, schn as u16, 12, 4, 4, 4);
    lemma_put16_other(b.bits, schn as u16, 12, 4, 8, 4);
}

/// Two CAN messages with the same native layout are the same message.
pub proof fn lemma_can_message_layout_injective(a: BMCanMessage, b: BMCanMessage)
    requires
        a.spec_bytes() == b.spec_bytes(),
    ensures
        a == b,
{
    lemma_can_message_bytes_round_trip(a);
    lemma_can_message_bytes_round_trip(b);
    assert(a.payload@ == b.payload@);
    assert(a.payload == b.payload);
}

/// Two envelopes with the same native layout are the same envelope.
pub proof fn lemma_data_layout_injective(a: BMData, b: BMData)
    requires
        a.spec_bytes() == b.spec_bytes(),
    ensures
        a == b,
{
    lemma_data_bytes_round_trip(a);
    lemma_data_bytes_round_trip(b);
    assert(a.payload@ == b.payload@);
    assert(a.payload == b.payload);
}

} // verus!
