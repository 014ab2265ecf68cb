use busmust::builders::{BMBitrateBuilder, BMCanMessageBuilder, BMDataBuilder};
use busmust::codec::{BMCanMessage, BMData};
use busmust::error::Error;
use busmust::types::{BMBitrate, BMDataType};

#[test]
fn bitrate_defaults() {
    let b = BMBitrate::builder().build();
    assert_eq!(b.n_bitrate, 500);
    assert_eq!(b.d_bitrate, 2000);
    assert_eq!(b.n_sample_pos, 75);
    assert_eq!(b.d_sample_pos, 75);
    assert_eq!(b.clock_freq, 0);
    assert_eq!(b.n_btr0, 0);
    assert_eq!(BMBitrateBuilder::default().build(), b);
}

#[test]
fn bitrate_settings() {
    let b = BMBitrateBuilder::new()
        .bitrate(250)
        .data_bitrate(1000)
        .sample_pos(80)
        .data_sample_pos(70)
        .build();
    assert_eq!((b.n_bitrate, b.d_bitrate, b.n_sample_pos, b.d_sample_pos), (250, 1000, 80, 70));
}

#[test]
fn can_message_from_builder() {
    let m = BMCanMessage::builder()
        .sid(0x123)
        .payload(vec![1, 2, 3, 4, 5, 6, 7, 8])
        .build()
        .unwrap();
    assert_eq!(m.sid(), 0x123);
    assert_eq!(m.eid(), 0);
    let tx = m.ctrl.tx();
    assert_eq!(tx.dlc(), 8);
    assert!(!tx.ide() && !tx.rtr() && !tx.brs() && !tx.fdf() && !tx.esi());
    assert_eq!(m.payload().unwrap(), vec![1, 2, 3, 4, 5, 6, 7, 8]);
    assert!(m.payload[8..].iter().all(|b| *b == 0));
}

#[test]
fn can_message_payload_round_trip_every_length() {
    for len in 0..=64usize {
        let p: Vec<u8> = (0..len).map(|i| (i as u8).wrapping_mul(7).wrapping_add(1)).collect();
        let m = BMCanMessageBuilder::new(p.clone()).fdf(true).build().unwrap();
        let q = m.payload().unwrap();
        assert!(q.len() >= len);
        assert_eq!(&q[..len], &p[..]);
        assert!(q[len..].iter().all(|b| *b == 0));
    }
}

#[test]
fn can_message_fd_payload_sets_dlc() {
    let m = BMCanMessageBuilder::new(vec![9; 20]).fdf(true).brs(true).build().unwrap();
    assert_eq!(m.ctrl.tx().dlc(), 11);
    assert_eq!(m.payload().unwrap(), vec![9; 20]);
}

#[test]
fn can_message_dlc_does_not_resize() {
    let m = BMCanMessage::builder()
        .payload(vec![1, 2])
        .dlc(4)
        .build()
        .unwrap();
    assert_eq!(m.ctrl.tx().dlc(), 4);
    assert_eq!(m.payload().unwrap(), vec![1, 2, 0, 0]);
}

#[test]
fn can_message_flags_and_ids() {
    let m = BMCanMessage::builder()
        .eid(0x3FFFF)
        .ide(true)
        .rtr(true)
        .build()
        .unwrap();
    assert_eq!(m.eid(), 0x3FFFF);
    assert!(m.ctrl.rx().ide());
    assert!(m.ctrl.rx().rtr());
    assert_eq!(m.ctrl.tx().dlc(), 0);
    assert_eq!(m.payload().unwrap(), Vec::<u8>::new());
}

#[test]
fn can_message_payload_too_large() {
    let r = BMCanMessageBuilder::new(vec![0; 65]).build();
    assert_eq!(r.err(), Some(Error::PayloadTooLarge));
}

#[test]
fn can_message_field_out_of_range() {
    assert_eq!(BMCanMessage::builder().sid(0x800).build().err(), Some(Error::FieldOutOfRange));
    assert_eq!(BMCanMessage::builder().eid(0x40000).build().err(), Some(Error::FieldOutOfRange));
    assert_eq!(BMCanMessage::builder().dlc(16).build().err(), Some(Error::FieldOutOfRange));
}

#[test]
fn envelope_defaults() {
    let d = BMData::builder().build().unwrap();
    assert_eq!(d.header.kind(), BMDataType::Can.code());
    assert_eq!(d.header.dchn(), 0);
    assert_eq!(d.length, 0);
    assert_eq!(d.timestamp, 0);
    assert_eq!(d.payload, [0u8; 72]);
}

#[test]
fn envelope_fields() {
    let d = BMDataBuilder::new(vec![1, 2, 3])
        .kind(BMDataType::Lin)
        .dst_chn(3)
        .src_chn(1)
        .build()
        .unwrap();
    assert_eq!(d.header.kind(), 1);
    assert_eq!(d.header.dchn(), 3);
    assert_eq!(d.header.schn(), 1);
    assert_eq!(d.header.flags(), 0);
    assert_eq!(d.length, 3);
    assert_eq!(&d.payload[..4], &[1, 2, 3, 0]);
}

#[test]
fn envelope_round_trips_can_message() {
    let m = BMCanMessage::builder()
        .sid(0x123)
        .payload(vec![1, 2, 3, 4, 5, 6, 7, 8])
        .build()
        .unwrap();
    let d = BMData::builder().kind(BMDataType::Lin).can_message(m).build().unwrap();
    assert_eq!(d.header.kind(), 2);
    assert_eq!(d.length, 72);
    let back = d.can_message().unwrap();
    assert_eq!(back.mid, m.mid);
    assert_eq!(back.ctrl, m.ctrl);
    assert_eq!(back.payload, m.payload);
}

#[test]
fn envelope_errors() {
    assert_eq!(BMDataBuilder::new(vec![0; 73]).build().err(), Some(Error::PayloadTooLarge));
    assert_eq!(BMData::builder().dst_chn(16).build().err(), Some(Error::FieldOutOfRange));
    assert_eq!(BMData::builder().src_chn(200).build().err(), Some(Error::FieldOutOfRange));
    assert!(BMDataBuilder::new(vec![0; 72]).build().is_ok());
}
