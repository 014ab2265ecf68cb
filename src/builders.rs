//! Builders: drafts with documented defaults that `build` checks once and
//! turns into a sealed record.

use vstd::prelude::*;
use crate::codec::{
    lemma_can_message_bytes_round_trip,
    byte_length_to_dlc, spec_dlc_for_len, spec_dlc_len, BMCanMessage, BMData, BMDataHeader,
    BMMessageCtrl, BMMessageId, BMTxMessageCtrl, BM_CAN_MESSAGE_SIZE,
};
use crate::bits::{lemma_field_zero, lemma_masks};
use crate::error::Error;
use crate::types::{BMBitrate, BMDataType, BM_CAN_PAYLOAD_MAX_SIZE, BM_DATA_PAYLOAD_MAX_SIZE};

verus! {

/// `p` followed by zero bytes up to length `n` (no padding where `p` is as long).
pub open spec fn padded(p: Seq<u8>, n: nat) -> Seq<u8> {
    p + Seq::new((n - p.len()) as nat, |i: int| 0u8)
}

/// Copies `p` into a zeroed buffer of 64 bytes.
fn pad64(p: &Vec<u8>) -> (r: [u8; 64])
    requires
        p@.len() <= 64,
    ensures
        r@ == padded(p@, 64),
{
    let mut out = [0u8; 64];
    let mut i: usize = 0;
    while i < p.len()
        invariant
            p@.len() <= 64,
            i <= p@.len(),
            forall|j: int| 0 <= j < i ==> out@[j] == p@[j],
            forall|j: int| i <= j < 64 ==> out@[j] == 0,
        decreases p@.len() - i,
    {
        out[i] = p[i];
        i = i + 1;
    }
    assert(out@ =~= padded(p@, 64));
    out
}

/// Copies `p` into a zeroed buffer of 72 bytes.
fn pad72(p: &Vec<u8>) -> (r: [u8; 72])
    requires
        p@.len() <= 72,
    ensures
        r@ == padded(p@, 72),
{
    let mut out = [0u8; 72];
    let mut i: usize = 0;
    while i < p.len()
        invariant
            p@.len() <= 72,
            i <= p@.len(),
            forall|j: int| 0 <= j < i ==> out@[j] == p@[j],
            forall|j: int| i <= j < 72 ==> out@[j] == 0,
        decreases p@.len() - i,
    {
        out[i] = p[i];
        i = i + 1;
    }
    assert(out@ =~= padded(p@, 72));
    out
}

impl BMBitrate {
    /// A bitrate builder with the default settings.
    pub fn builder() -> (r: BMBitrateBuilder)
        ensures
            r.spec_is_default(),
    {
        BMBitrateBuilder::new()
    }
}

/// Builder of a `BMBitrate`: nominal 500 kbps, data 2000 kbps and both sample
/// positions at 75 percent unless set otherwise.
pub struct BMBitrateBuilder {
    n_bitrate: u16,
    d_bitrate: u16,
    n_sample_pos: u8,
    d_sample_pos: u8,
}

impl BMBitrateBuilder {
    pub closed spec fn spec_n_bitrate(&self) -> u16 {
        self.n_bitrate
    }

    pub closed spec fn spec_d_bitrate(&self) -> u16 {
        self.d_bitrate
    }

    pub closed spec fn spec_n_sample_pos(&self) -> u8 {
        self.n_sample_pos
    }

    pub closed spec fn spec_d_sample_pos(&self) -> u8 {
        self.d_sample_pos
    }

    /// The settings are the defaults.
    pub open spec fn spec_is_default(&self) -> bool {
        self.spec_n_bitrate() == 500 && self.spec_d_bitrate() == 2000 && self.spec_n_sample_pos()
            == 75 && self.spec_d_sample_pos() == 75
    }

    /// A builder with the default settings.
    pub fn new() -> (r: BMBitrateBuilder)
        ensures
            r.spec_is_default(),
    {
        BMBitrateBuilder { n_bitrate: 500, d_bitrate: 2000, n_sample_pos: 75, d_sample_pos: 75 }
    }

    /// Sets the nominal bitrate in kbps.
    pub fn bitrate(self, n_bitrate: u16) -> (r: BMBitrateBuilder)
        ensures
            r.spec_n_bitrate() == n_bitrate,
            r.spec_d_bitrate() == self.spec_d_bitrate(),
            r.spec_n_sample_pos() == self.spec_n_sample_pos(),
            r.spec_d_sample_pos() == self.spec_d_sample_pos(),
    {
        BMBitrateBuilder { n_bitrate, ..self }
    }

    /// Sets the data bitrate in kbps.
    pub fn data_bitrate(self, d_bitrate: u16) -> (r: BMBitrateBuilder)
        ensures
            r.spec_n_bitrate() == self.spec_n_bitrate(),
            r.spec_d_bitrate() == d_bitrate,
            r.spec_n_sample_pos() == self.spec_n_sample_pos(),
            r.spec_d_sample_pos() == self.spec_d_sample_pos(),
    {
        BMBitrateBuilder { d_bitrate, ..self }
    }

    /// Sets the nominal sample position in percent.
    pub fn sample_pos(self, n_sample_pos: u8) -> (r: BMBitrateBuilder)
        ensures
            r.spec_n_bitrate() == self.spec_n_bitrate(),
            r.spec_d_bitrate() == self.spec_d_bitrate(),
            r.spec_n_sample_pos() == n_sample_pos,
            r.spec_d_sample_pos() == self.spec_d_sample_pos(),
    {
        BMBitrateBuilder { n_sample_pos, ..self }
    }

    /// Sets the data sample position in percent.
    pub fn data_sample_pos(self, d_sample_pos: u8) -> (r: BMBitrateBuilder)
        ensures
            r.spec_n_bitrate() == self.spec_n_bitrate(),
            r.spec_d_bitrate() == self.spec_d_bitrate(),
            r.spec_n_sample_pos() == self.spec_n_sample_pos(),
            r.spec_d_sample_pos() == d_sample_pos,
    {
        BMBitrateBuilder { d_sample_pos, ..self }
    }

    /// The bitrate record: the four settings, every register field zero.
    pub fn build(self) -> (r: BMBitrate)
        ensures
            r == (BMBitrate {
                n_bitrate: self.spec_n_bitrate(),
                d_bitrate: self.spec_d_bitrate(),
                n_sample_pos: self.spec_n_sample_pos(),
                d_sample_pos: self.spec_d_sample_pos(),
                clock_freq: 0,
                reserved: 0,
                n_btr0: 0,
                n_btr1: 0,
                d_btr0: 0,
                d_btr1: 0,
            }),
    {
        BMBitrate {
            n_bitrate: self.n_bitrate,
            d_bitrate: self.d_bitrate,
            n_sample_pos: self.n_sample_pos,
            d_sample_pos: self.d_sample_pos,
            clock_freq: 0,
            reserved: 0,
            n_btr0: 0,
            n_btr1: 0,
            d_btr0: 0,
            d_btr1: 0,
        }
    }
}

impl Default for BMBitrateBuilder {
    fn default() -> (r: BMBitrateBuilder)
        ensures
            r.spec_is_default(),
    {
        BMBitrateBuilder::new()
    }
}

impl BMCanMessage {
    /// A CAN message builder with nothing set.
    pub fn builder() -> (r: BMCanMessageBuilder)
        ensures
            r.spec_is_empty(),
    {
        BMCanMessageBuilder::default()
    }
}

/// Builder of a `BMCanMessage`. Fields left unset are zero (flags false).
/// Setting a payload also sets the data length code to the one for its
/// length; setting the code does not resize the payload.
pub struct BMCanMessageBuilder {
    sid: Option<u16>,
    eid: Option<u32>,
    dlc: Option<u8>,
    ide: Option<bool>,
    rtr: Option<bool>,
    brs: Option<bool>,
    fdf: Option<bool>,
    payload: Vec<u8>,
}

impl BMCanMessageBuilder {
    pub closed spec fn spec_sid(&self) -> Option<u16> {
        self.sid
    }

    pub closed spec fn spec_eid(&self) -> Option<u32> {
        self.eid
    }

    pub closed spec fn spec_dlc(&self) -> Option<u8> {
        self.dlc
    }

    pub closed spec fn spec_ide(&self) -> Option<bool> {
        self.ide
    }

    pub closed spec fn spec_rtr(&self) -> Option<bool> {
        self.rtr
    }

    pub closed spec fn spec_brs(&self) -> Option<bool> {
        self.brs
    }

    pub closed spec fn spec_fdf(&self) -> Option<bool> {
        self.fdf
    }

    pub closed spec fn spec_payload(&self) -> Seq<u8> {
        self.payload@
    }

    /// Nothing is set.
    pub open spec fn spec_is_empty(&self) -> bool {
        &&& self.spec_sid() is None
        &&& self.spec_eid() is None
        &&& self.spec_dlc() is None
        &&& self.spec_ide() is None
        &&& self.spec_rtr() is None
        &&& self.spec_brs() is None
        &&& self.spec_fdf() is None
        &&& self.spec_payload().len() == 0
    }

    /// The draft can be built: the payload fits 64 bytes and each set field
    /// fits its bits.
    pub open spec fn spec_valid(&self) -> bool {
        &&& self.spec_payload().len() <= BM_CAN_PAYLOAD_MAX_SIZE
        &&& self.spec_sid().unwrap_or(0) <= 0x7FF
        &&& self.spec_eid().unwrap_or(0) <= 0x3FFFF
        &&& self.spec_dlc().unwrap_or(0) <= 15
    }

    /// `m` is the message built from this draft: each field as set (zero or
    /// false where unset), the reserved bits zero, the payload zero-padded.
    pub open spec fn spec_built(&self, m: BMCanMessage) -> bool {
        let tx = m.ctrl.spec_tx();
        &&& m.mid.spec_sid() == self.spec_sid().unwrap_or(0)
        &&& m.mid.spec_eid() == self.spec_eid().unwrap_or(0)
        &&& !m.mid.spec_reserved1()
        &&& m.mid.spec_reserved2() == 0
        &&& tx.spec_dlc() == self.spec_dlc().unwrap_or(0)
        &&& tx.spec_ide() == self.spec_ide().unwrap_or(false)
        &&& tx.spec_rtr() == self.spec_rtr().unwrap_or(false)
        &&& tx.spec_brs() == self.spec_brs().unwrap_or(false)
        &&& tx.spec_fdf() == self.spec_fdf().unwrap_or(false)
        &&& !tx.spec_esi()
        &&& tx.spec_seq() == 0
        &&& m.payload@ == padded(self.spec_payload(), 64)
    }

    /// A builder with the given payload, and the data length code for it.
    pub fn new(payload: Vec<u8>) -> (r: BMCanMessageBuilder)
        ensures
            r.spec_payload() == payload@,
            payload@.len() <= 64 ==> r.spec_dlc() == Some(spec_dlc_for_len(payload@.len())),
            payload@.len() > 64 ==> r.spec_dlc() is None,
            r.spec_sid() is None && r.spec_eid() is None && r.spec_ide() is None && r.spec_rtr() is None
                && r.spec_brs() is None && r.spec_fdf() is None,
    {
        BMCanMessageBuilder::default().payload(payload)
    }

    /// Sets the standard identifier.
    pub fn sid(self, value: u16) -> (r: BMCanMessageBuilder)
        ensures
            r.spec_sid() == Some(value),
            r.spec_eid() == self.spec_eid() && r.spec_dlc() == self.spec_dlc() && r.spec_ide()
                == self.spec_ide() && r.spec_rtr() == self.spec_rtr() && r.spec_brs() == self.spec_brs()
                && r.spec_fdf() == self.spec_fdf() && r.spec_payload() == self.spec_payload(),
    {
        BMCanMessageBuilder { sid: Some(value), ..self }
    }

    /// Sets the extended identifier.
    pub fn eid(self, value: u32) -> (r: BMCanMessageBuilder)
        ensures
            r.spec_eid() == Some(value),
            r.spec_sid() == self.spec_sid() && r.spec_dlc() == self.spec_dlc() && r.spec_ide()
                == self.spec_ide() && r.spec_rtr() == self.spec_rtr() && r.spec_brs() == self.spec_brs()
                && r.spec_fdf() == self.spec_fdf() && r.spec_payload() == self.spec_payload(),
    {
        BMCanMessageBuilder { eid: Some(value), ..self }
    }

    /// Sets the data length code; the payload is left as it is.
    pub fn dlc(self, value: u8) -> (r: BMCanMessageBuilder)
        ensures
            r.spec_dlc() == Some(value),
            r.spec_sid() == self.spec_sid() && r.spec_eid() == self.spec_eid() && r.spec_ide()
                == self.spec_ide() && r.spec_rtr() == self.spec_rtr() && r.spec_brs() == self.spec_brs()
                && r.spec_fdf() == self.spec_fdf() && r.spec_payload() == self.spec_payload(),
    {
        BMCanMessageBuilder { dlc: Some(value), ..self }
    }

    /// Sets the extended-identifier flag.
    pub fn ide(self, value: bool) -> (r: BMCanMessageBuilder)
        ensures
            r.spec_ide() == Some(value),
            r.spec_sid() == self.spec_sid() && r.spec_eid() == self.spec_eid() && r.spec_dlc()
                == self.spec_dlc() && r.spec_rtr() == self.spec_rtr() && r.spec_brs() == self.spec_brs()
                && r.spec_fdf() == self.spec_fdf() && r.spec_payload() == self.spec_payload(),
    {
        BMCanMessageBuilder { ide: Some(value), ..self }
    }

    /// Sets the remote-request flag.
    pub fn rtr(self, value: bool) -> (r: BMCanMessageBuilder)
        ensures
            r.spec_rtr() == Some(value),
            r.spec_sid() == self.spec_sid() && r.spec_eid() == self.spec_eid() && r.spec_dlc()
                == self.spec_dlc() && r.spec_ide() == self.spec_ide() && r.spec_brs() == self.spec_brs()
                && r.spec_fdf() == self.spec_fdf() && r.spec_payload() == self.spec_payload(),
    {
        BMCanMessageBuilder { rtr: Some(value), ..self }
    }

    /// Sets the bit-rate-switch flag.
    pub fn brs(self, value: bool) -> (r: BMCanMessageBuilder)
        ensures
            r.spec_brs() == Some(value),
            r.spec_sid() == self.spec_sid() && r.spec_eid() == self.spec_eid() && r.spec_dlc()
                == self.spec_dlc() && r.spec_ide() == self.spec_ide() && r.spec_rtr() == self.spec_rtr()
                && r.spec_fdf() == self.spec_fdf() && r.spec_payload() == self.spec_payload(),
    {
        BMCanMessageBuilder { brs: Some(value), ..self }
    }

    /// Sets the CAN-FD flag.
    pub fn fdf(self, value: bool) -> (r: BMCanMessageBuilder)
        ensures
            r.spec_fdf() == Some(value),
            r.spec_sid() == self.spec_sid() && r.spec_eid() == self.spec_eid() && r.spec_dlc()
                == self.spec_dlc() && r.spec_ide() == self.spec_ide() && r.spec_rtr() == self.spec_rtr()
                && r.spec_brs() == self.spec_brs() && r.spec_payload() == self.spec_payload(),
    {
        BMCanMessageBuilder { fdf: Some(value), ..self }
    }

    /// Sets the payload, and the data length code to the one for its length
    /// (left as it was for a payload over 64 bytes, which `build` refuses).
    pub fn payload(self, value: Vec<u8>) -> (r: BMCanMessageBuilder)
        ensures
            r.spec_payload() == value@,
            value@.len() <= 64 ==> r.spec_dlc() == Some(spec_dlc_for_len(value@.len())),
            value@.len() > 64 ==> r.spec_dlc() == self.spec_dlc(),
            r.spec_sid() == self.spec_sid() && r.spec_eid() == self.spec_eid() && r.spec_ide()
                == self.spec_ide() && r.spec_rtr() == self.spec_rtr() && r.spec_brs() == self.spec_brs()
                && r.spec_fdf() == self.spec_fdf(),
    {
        let dlc = if value.len() <= BM_CAN_PAYLOAD_MAX_SIZE {
            Some(byte_length_to_dlc(value.len()))
        } else {
            self.dlc
        };
        BMCanMessageBuilder { dlc, payload: value, ..self }
    }

    /// The message: `PayloadTooLarge` for a payload over 64 bytes, else
    /// `FieldOutOfRange` where a set field does not fit its bits.
    pub fn build(self) -> (r: Result<BMCanMessage, Error>)
        ensures
            r is Ok <==> self.spec_valid(),
            r matches Ok(m) ==> self.spec_built(m),
            self.spec_payload().len() > BM_CAN_PAYLOAD_MAX_SIZE ==> r == Err::<BMCanMessage, Error>(
                Error::PayloadTooLarge,
            ),
            self.spec_payload().len() <= BM_CAN_PAYLOAD_MAX_SIZE && !self.spec_valid() ==> r == Err::<
                BMCanMessage,
                Error,
            >(Error::FieldOutOfRange),
    {
        if self.payload.len() > BM_CAN_PAYLOAD_MAX_SIZE {
            return Err(Error::PayloadTooLarge);
        }
        let sid: u16 = match self.sid {
            Some(v) => v,
            None => 0,
        };
        let eid: u32 = match self.eid {
            Some(v) => v,
            None => 0,
        };
        let dlc: u8 = match self.dlc {
            Some(v) => v,
            None => 0,
        };
        if sid > 0x7FF || eid > 0x3FFFF || dlc > 15 {
            return Err(Error::FieldOutOfRange);
        }
        proof {
            lemma_masks();
        }
        let mid = BMMessageId::new().with_sid(sid).with_eid(eid);
        let tx = BMTxMessageCtrl::new().with_dlc(dlc).with_ide(
            match self.ide {
                Some(v) => v,
                None => false,
            },
        ).with_rtr(
            match self.rtr {
                Some(v) => v,
                None => false,
            },
        ).with_brs(
            match self.brs {
                Some(v) => v,
                None => false,
            },
        ).with_fdf(
            match self.fdf {
                Some(v) => v,
                None => false,
            },
        );
        let payload = pad64(&self.payload);
        proof {
            lemma_field_zero(29, 1);
            lemma_field_zero(30, 2);
            lemma_field_zero(8, 1);
            lemma_field_zero(9, 23);
        }
        Ok(BMCanMessage { mid, ctrl: BMMessageCtrl::from_tx(tx), payload })
    }
}

impl Default for BMCanMessageBuilder {
    fn default() -> (r: BMCanMessageBuilder)
        ensures
            r.spec_is_empty(),
    {
        BMCanMessageBuilder {
            sid: None,
            eid: None,
            dlc: None,
            ide: None,
            rtr: None,
            brs: None,
            fdf: None,
            payload: Vec::new(),
        }
    }
}

/// A CAN message built with a payload of at most 64 bytes, and the data
/// length code derived from it, reads back that payload: its readable payload
/// starts with the given bytes and holds only zero padding after them. For
/// more than 8 bytes the message must be a CAN-FD frame, since a classic
/// frame carries at most 8.
pub proof fn lemma_payload_round_trip(b: BMCanMessageBuilder, m: BMCanMessage)
    requires
        b.spec_payload().len() <= 64,
        b.spec_dlc() == Some(spec_dlc_for_len(b.spec_payload().len())),
        b.spec_payload().len() <= 8 || b.spec_fdf() == Some(true),
        b.spec_built(m),
    ensures
        m.spec_payload() matches Some(q) && b.spec_payload().len() <= q.len() && q.take(
            b.spec_payload().len() as int,
        ) == b.spec_payload() && (forall|i: int|
            b.spec_payload().len() <= i < q.len() ==> q[i] == 0),
{
    let p = b.spec_payload();
    let q = padded(p, 64).take(spec_dlc_len(spec_dlc_for_len(p.len()), b.spec_fdf().unwrap_or(false))->0 as int);
    assert(m.spec_payload() == Some(q));
    assert(q.take(p.len() as int) =~= p);
}

impl BMData {
    /// An envelope builder: CAN kind, channels zero, no payload.
    pub fn builder() -> (r: BMDataBuilder)
        ensures
            r.spec_kind() == BMDataType::Can,
            r.spec_dst_chn() == 0 && r.spec_src_chn() == 0,
            r.spec_payload().len() == 0,
    {
        BMDataBuilder::default()
    }
}

/// Builder of a `BMData` envelope: CAN kind and channels zero unless set;
/// the payload is zero-padded to the buffer and its length recorded.
pub struct BMDataBuilder {
    kind: BMDataType,
    dst_chn: u8,
    src_chn: u8,
    payload: Vec<u8>,
}

impl BMDataBuilder {
    pub closed spec fn spec_kind(&self) -> BMDataType {
        self.kind
    }

    pub closed spec fn spec_dst_chn(&self) -> u8 {
        self.dst_chn
    }

    pub closed spec fn spec_src_chn(&self) -> u8 {
        self.src_chn
    }

    pub closed spec fn spec_payload(&self) -> Seq<u8> {
        self.payload@
    }

    /// The draft can be built: the payload fits 72 bytes and the channels
    /// fit four bits.
    pub open spec fn spec_valid(&self) -> bool {
        &&& self.spec_payload().len() <= BM_DATA_PAYLOAD_MAX_SIZE
        &&& self.spec_dst_chn() <= 15
        &&& self.spec_src_chn() <= 15
    }

    /// `d` is the envelope built from this draft.
    pub open spec fn spec_built(&self, d: BMData) -> bool {
        &&& d.header.spec_kind() == self.spec_kind().spec_code()
        &&& d.header.spec_flags() == 0
        &&& d.header.spec_dchn() == self.spec_dst_chn()
        &&& d.header.spec_schn() == self.spec_src_chn()
        &&& d.length == self.spec_payload().len()
        &&& d.timestamp == 0
        &&& d.payload@ == padded(self.spec_payload(), 72)
    }

    /// A CAN envelope builder with the given payload.
    pub fn new(payload: Vec<u8>) -> (r: BMDataBuilder)
        ensures
            r.spec_kind() == BMDataType::Can,
            r.spec_dst_chn() == 0 && r.spec_src_chn() == 0,
            r.spec_payload() == payload@,
    {
        BMDataBuilder { kind: BMDataType::Can, dst_chn: 0, src_chn: 0, payload }
    }

    /// Sets the payload kind.
    pub fn kind(self, kind: BMDataType) -> (r: BMDataBuilder)
        ensures
            r.spec_kind() == kind,
            r.spec_dst_chn() == self.spec_dst_chn() && r.spec_src_chn() == self.spec_src_chn()
                && r.spec_payload() == self.spec_payload(),
    {
        BMDataBuilder { kind, ..self }
    }

    /// Sets the destination channel.
    pub fn dst_chn(self, dst_chn: u8) -> (r: BMDataBuilder)
        ensures
            r.spec_dst_chn() == dst_chn,
            r.spec_kind() == self.spec_kind() && r.spec_src_chn() == self.spec_src_chn()
                && r.spec_payload() == self.spec_payload(),
    {
        BMDataBuilder { dst_chn, ..self }
    }

    /// Sets the source channel.
    pub fn src_chn(self, src_chn: u8) -> (r: BMDataBuilder)
        ensures
            r.spec_src_chn() == src_chn,
            r.spec_kind() == self.spec_kind() && r.spec_dst_chn() == self.spec_dst_chn()
                && r.spec_payload() == self.spec_payload(),
    {
        BMDataBuilder { src_chn, ..self }
    }

    /// Sets the payload.
    pub fn payload(self, value: Vec<u8>) -> (r: BMDataBuilder)
        ensures
            r.spec_payload() == value@,
            r.spec_kind() == self.spec_kind() && r.spec_dst_chn() == self.spec_dst_chn()
                && r.spec_src_chn() == self.spec_src_chn(),
    {
        BMDataBuilder { payload: value, ..self }
    }

    /// Sets a CAN message, in its native layout, as the payload, and the kind
    /// to CAN.
    pub fn can_message(self, value: BMCanMessage) -> (r: BMDataBuilder)
        ensures
            r.spec_payload() == value.spec_bytes(),
            r.spec_kind() == BMDataType::Can,
            r.spec_dst_chn() == self.spec_dst_chn() && r.spec_src_chn() == self.spec_src_chn(),
    {
        BMDataBuilder { kind: BMDataType::Can, payload: value.to_bytes(), ..self }
    }

    /// The envelope: `PayloadTooLarge` for a payload over 72 bytes, else
    /// `FieldOutOfRange` for a channel over 15.
    pub fn build(self) -> (r: Result<BMData, Error>)
        ensures
            r is Ok <==> self.spec_valid(),
            r matches Ok(d) ==> self.spec_built(d) && d.wf(),
            self.spec_payload().len() > BM_DATA_PAYLOAD_MAX_SIZE ==> r == Err::<BMData, Error>(
                Error::PayloadTooLarge,
            ),
            self.spec_payload().len() <= BM_DATA_PAYLOAD_MAX_SIZE && !self.spec_valid() ==> r
                == Err::<BMData, Error>(Error::FieldOutOfRange),
    {
        if self.payload.len() > BM_DATA_PAYLOAD_MAX_SIZE {
            return Err(Error::PayloadTooLarge);
        }
        if self.dst_chn > 15 || self.src_chn > 15 {
            return Err(Error::FieldOutOfRange);
        }
        proof {
            lemma_masks();
            lemma_field_zero(4, 4);
        }
        let kind = self.kind.code();
        let header = BMDataHeader::new().with_kind(kind).with_dchn(self.dst_chn).with_schn(
            self.src_chn,
        );
        let payload = pad72(&self.payload);
        Ok(BMData { header, length: self.payload.len() as u16, timestamp: 0, payload })
    }
}

impl Default for BMDataBuilder {
    fn default() -> (r: BMDataBuilder)
        ensures
            r.spec_kind() == BMDataType::Can,
            r.spec_dst_chn() == 0 && r.spec_src_chn() == 0,
            r.spec_payload().len() == 0,
    {
        BMDataBuilder::new(Vec::new())
    }
}

/// An envelope built around a CAN message carries that message byte for
/// byte: reading the message back out of it gives the same message.
pub proof fn lemma_envelope_round_trip(b: BMDataBuilder, m: BMCanMessage, d: BMData, back: BMCanMessage)
    requires
        b.spec_payload() == m.spec_bytes(),
        b.spec_kind() == BMDataType::Can,
        b.spec_built(d),
        back.spec_bytes() == d.payload@,
    ensures
        d.length == BM_CAN_MESSAGE_SIZE,
        d.spec_can_message_bytes() == Some(m.spec_bytes()),
        back == m,
{
    lemma_can_message_bytes_round_trip(m);
    assert(padded(m.spec_bytes(), 72) =~= m.spec_bytes());
    crate::codec::lemma_can_message_layout_injective(back, m);
}

} // verus!
