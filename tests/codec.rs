use busmust::codec::{
    byte_length_to_dlc, dlc_to_byte_length, BMCanMessage, BMData, BMDataHeader, BMMessageCtrl,
    BMMessageId, BMRxMessageCtrl, BMTxMessageCtrl,
};
use busmust::types::{BMDataType, BMStatus};

#[test]
fn dlc_table_fd() {
    let expected: [usize; 16] = [0, 1, 2, 3, 4, 5, 6, 7, 8, 12, 16, 20, 24, 32, 48, 64];
    for dlc in 0u8..16 {
        assert_eq!(dlc_to_byte_length(dlc, true), Some(expected[dlc as usize]));
    }
}

#[test]
fn dlc_table_classic() {
    for dlc in 0u8..=8 {
        assert_eq!(dlc_to_byte_length(dlc, false), Some(dlc as usize));
    }
    for dlc in 9u8..16 {
        assert_eq!(dlc_to_byte_length(dlc, false), None);
    }
}

#[test]
fn dlc_out_of_domain() {
    assert_eq!(dlc_to_byte_length(16, true), None);
    assert_eq!(dlc_to_byte_length(255, false), None);
}

#[test]
fn dlc_for_lengths() {
    assert_eq!(byte_length_to_dlc(0), 0);
    assert_eq!(byte_length_to_dlc(8), 8);
    assert_eq!(byte_length_to_dlc(9), 9);
    assert_eq!(byte_length_to_dlc(12), 9);
    assert_eq!(byte_length_to_dlc(13), 10);
    assert_eq!(byte_length_to_dlc(33), 14);
    assert_eq!(byte_length_to_dlc(64), 15);
}

#[test]
fn header_fields_read_back() {
    let h = BMDataHeader::new()
        .with_kind(BMDataType::Can.code())
        .with_dchn(3)
        .with_schn(1);
    assert_eq!(h.kind(), 2);
    assert_eq!(h.dchn(), 3);
    assert_eq!(h.schn(), 1);
    assert_eq!(h.flags(), 0);
    assert_eq!(h.into_bits(), 0x1302);
}

#[test]
fn header_fields_independent() {
    let h = BMDataHeader::from_bits(0xFFFF).with_dchn(0);
    assert_eq!(h.kind(), 15);
    assert_eq!(h.flags(), 15);
    assert_eq!(h.dchn(), 0);
    assert_eq!(h.schn(), 15);
    assert_eq!(h.with_kind(5).kind(), 5);
    assert_eq!(h.with_kind(5).schn(), 15);
}

#[test]
fn header_keeps_unknown_kind() {
    let h = BMDataHeader::new().with_kind(12);
    assert_eq!(h.kind(), 12);
    assert_eq!(BMDataType::from_code(12), None);
    assert_eq!(BMDataType::from_code(8), Some(BMDataType::Ack));
}

#[test]
fn message_id_fields() {
    let id = BMMessageId::new().with_sid(0x7FF).with_eid(0x3FFFF);
    assert_eq!(id.sid(), 0x7FF);
    assert_eq!(id.eid(), 0x3FFFF);
    assert!(!id.reserved1());
    assert_eq!(id.reserved2(), 0);
    assert_eq!(id.into_bits(), 0x1FFF_FFFF);
    let id = BMMessageId::from_bits(0x123).with_eid(0x10);
    assert_eq!(id.sid(), 0x123);
    assert_eq!(id.eid(), 0x10);
}

#[test]
fn control_views_share_bits() {
    let tx = BMTxMessageCtrl::new()
        .with_dlc(9)
        .with_ide(true)
        .with_fdf(true)
        .with_brs(true);
    assert_eq!(tx.into_bits(), 0x9 | 0x10 | 0x40 | 0x80);
    let ctrl = BMMessageCtrl::from_tx(tx);
    let rx = ctrl.rx();
    assert_eq!(rx.dlc(), 9);
    assert!(rx.ide());
    assert!(!rx.rtr());
    assert!(rx.brs());
    assert!(rx.fdf());
    assert!(!rx.esi());
    assert_eq!(rx.rx_filter(), 0);
    let rx = BMRxMessageCtrl::from_bits(0).with_rx_filter(31).with_dlc(3);
    assert_eq!(rx.rx_filter(), 31);
    assert_eq!(rx.into_bits(), (31 << 11) | 3);
    assert_eq!(BMMessageCtrl::from_rx(rx).tx().dlc(), 3);
    assert_eq!(BMMessageCtrl::from_rx(rx).tx().seq(), 31 << 2);
}

fn sample_message() -> BMCanMessage {
    let mut payload = [0u8; 64];
    for (i, b) in payload.iter_mut().enumerate() {
        *b = i as u8;
    }
    BMCanMessage {
        mid: BMMessageId::new().with_sid(0x123).with_eid(0x456),
        ctrl: BMMessageCtrl::from_tx(BMTxMessageCtrl::new().with_dlc(10).with_fdf(true)),
        payload,
    }
}

#[test]
fn message_payload_by_dlc() {
    let m = sample_message();
    let p = m.payload().unwrap();
    assert_eq!(p.len(), 16);
    assert_eq!(p, (0u8..16).collect::<Vec<u8>>());
    assert_eq!(m.sid(), 0x123);
    assert_eq!(m.eid(), 0x456);
}

#[test]
fn message_payload_invalid_classic_dlc() {
    let mut m = sample_message();
    m.ctrl = BMMessageCtrl::from_tx(BMTxMessageCtrl::new().with_dlc(10));
    assert!(m.payload().is_none());
}

#[test]
fn message_bytes_round_trip() {
    let m = sample_message();
    let b = m.to_bytes();
    assert_eq!(b.len(), 72);
    assert_eq!(&b[0..4], &m.mid.into_bits().to_le_bytes());
    assert_eq!(&b[4..8], &m.ctrl.bits.to_le_bytes());
    assert_eq!(b[8 + 5], 5);
    let back = BMCanMessage::from_bytes(&b).unwrap();
    assert_eq!(back.mid, m.mid);
    assert_eq!(back.ctrl, m.ctrl);
    assert_eq!(back.payload, m.payload);
    assert!(BMCanMessage::from_bytes(&b[..71]).is_none());
}

#[test]
fn envelope_bytes_round_trip() {
    let mut payload = [0u8; 72];
    payload[0] = 0xAA;
    payload[71] = 0x55;
    let d = BMData {
        header: BMDataHeader::new().with_kind(2).with_schn(4),
        length: 72,
        timestamp: 0xDEADBEEF,
        payload,
    };
    let b = d.to_bytes();
    assert_eq!(b.len(), 80);
    assert_eq!(&b[0..2], &d.header.into_bits().to_le_bytes());
    assert_eq!(&b[2..4], &[72, 0]);
    assert_eq!(&b[4..8], &[0xEF, 0xBE, 0xAD, 0xDE]);
    let back = BMData::from_bytes(&b).unwrap();
    assert_eq!(back.header, d.header);
    assert_eq!(back.length, 72);
    assert_eq!(back.timestamp, 0xDEADBEEF);
    assert_eq!(back.payload, d.payload);
    assert!(BMData::from_bytes(&b[..79]).is_none());
    assert_eq!(d.payload_bytes().unwrap().len(), 72);
    let short = BMData { length: 2, ..d };
    assert_eq!(short.payload_bytes(), Some(vec![0xAA, 0]));
    let bad = BMData { length: 73, ..d };
    assert_eq!(bad.payload_bytes(), None);
}

#[test]
fn envelope_carries_can_message() {
    let m = sample_message();
    let mut payload = [0u8; 72];
    payload.copy_from_slice(&m.to_bytes());
    let d = BMData {
        header: BMDataHeader::new().with_kind(2),
        length: 72,
        timestamp: 0,
        payload,
    };
    let back = d.can_message().unwrap();
    assert_eq!(back.mid, m.mid);
    assert_eq!(back.payload, m.payload);
    let lin = BMData {
        header: BMDataHeader::new().with_kind(1),
        ..d
    };
    assert!(lin.can_message().is_none());
}

#[test]
fn status_codes_translate() {
    assert_eq!(BMStatus::from_code(0), BMStatus::Success);
    assert_eq!(BMStatus::from_code(0x10), BMStatus::BusOff);
    assert_eq!(BMStatus::from_code(0x4001C), BMStatus::AnyBusError);
    assert_eq!(BMStatus::from_code(0x8000000), BMStatus::InvalidOperation);
    assert_eq!(BMStatus::from_code(0x3), BMStatus::Unknown);
    assert_eq!(BMStatus::BusPassive.code(), 0x40000);
    assert_eq!(BMStatus::from_code(BMStatus::HardwareError.code()), BMStatus::HardwareError);
}
