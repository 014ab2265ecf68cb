use busmust::adept::{
    as_micros, as_nanos, cvt_r, flag, require_caps, Device, DeviceCaps, DeviceType, Devices, DVC,
    DtpFromTptPtc, Error, FwidFromPdid, ProductFromPdid, ProductId, Protocol, PtcFromDtp, Transport,
    TptFromDtp, VariantFromPdid, ERC_INVALID_PARAMETER, ERC_NOT_SUPPORTED,
};
use busmust::depp::{addr_data_bytes, check_epp, native_count, reg_set_len, timeout_nanos, AddrData};
use busmust::djtag::{
    batch_lengths, check_bit_count, check_jtag, scan_format, BatchProperties, PortProperties,
    ScanFormat,
};

#[test]
fn device_type_parts() {
    let t = Transport { bits: 0x0004 };
    let p = Protocol { bits: 0x0010 };
    let d = DeviceType::from_parts(t, p);
    assert_eq!(d.bits, 0x0010_0004);
    assert_eq!(Transport::from(d), t);
    assert_eq!(Protocol::from(d), p);
    assert_eq!(DtpFromTptPtc(1, 2), 0x0002_0001);
    assert_eq!(TptFromDtp(0xABCD_1234), 0x1234);
    assert_eq!(PtcFromDtp(0xABCD_1234), 0xABCD);
}

#[test]
fn product_id_parts() {
    let id = ProductId(0x1234_5678);
    assert_eq!(id.product(), 0x123);
    assert_eq!(id.variant(), 0x456);
    assert_eq!(id.firmware_id(), 0x78);
    assert_eq!(ProductFromPdid(0xFFF0_0000), 0xFFF);
    assert_eq!(VariantFromPdid(0x000F_FF00), 0xFFF);
    assert_eq!(FwidFromPdid(0x1FF), 0xFF);
}

#[test]
fn adept_results() {
    assert_eq!(cvt_r(1, 7), Ok(()));
    assert_eq!(cvt_r(0, 1026), Err(Error(1026)));
    assert!(flag(1));
    assert!(!flag(0));
    assert!(!flag(-1));
}

#[test]
fn capability_gates() {
    let caps = DeviceCaps::from_bits_truncate(DeviceCaps::JTAG | DeviceCaps::SPI);
    assert_eq!(check_jtag(caps), Ok(()));
    assert_eq!(check_epp(caps), Err(Error(ERC_NOT_SUPPORTED)));
    assert_eq!(require_caps(caps, DeviceCaps::SPI), Ok(()));
    assert!(check_epp(DeviceCaps::from_bits_truncate(DeviceCaps::EPP)).is_ok());
}

#[test]
fn durations() {
    assert_eq!(as_nanos(2, 5), 2_000_000_005);
    assert_eq!(as_micros(1, 2_500), 1_000_002);
    assert_eq!(timeout_nanos(0, 1_000), Ok(1_000));
    assert_eq!(timeout_nanos(4, 294_967_295), Ok(u32::MAX));
    assert_eq!(timeout_nanos(4, 294_967_296), Err(Error(ERC_INVALID_PARAMETER)));
    assert_eq!(timeout_nanos(10, 0), Err(Error(ERC_INVALID_PARAMETER)));
}

#[test]
fn register_set_layout() {
    let pairs = [AddrData(1, 10), AddrData(2, 20), AddrData(3, 30)];
    assert_eq!(addr_data_bytes(&pairs), vec![1, 10, 2, 20, 3, 30]);
    assert_eq!(addr_data_bytes(&[]), Vec::<u8>::new());
    assert_eq!(reg_set_len(4, 2), Ok(2));
    assert_eq!(reg_set_len(3, 9), Ok(3));
    assert_eq!(native_count(5), Ok(5));
}

#[test]
fn jtag_argument_checks() {
    assert_eq!(check_bit_count(16, 2, 8), Ok(16));
    assert_eq!(check_bit_count(17, 2, 8), Err(Error(ERC_INVALID_PARAMETER)));
    assert_eq!(check_bit_count(8, 2, 4), Ok(8));
    assert_eq!(check_bit_count(9, 2, 4), Err(Error(ERC_INVALID_PARAMETER)));
    assert_eq!(batch_lengths(3, 4), Ok((3, 4)));
}

#[test]
fn scan_formats() {
    assert_eq!(scan_format(5, 1), (ScanFormat::MScan, true));
    assert_eq!(scan_format(13, 0), (ScanFormat::OScan7, false));
    assert_eq!(scan_format(0, 0), (ScanFormat::NoFormat, false));
    assert_eq!(scan_format(99, 2), (ScanFormat::NoFormat, true));
    assert_eq!(ScanFormat::JScan2.code(), 3);
    assert_eq!(ScanFormat::from_code(ScanFormat::OScan3.code()), ScanFormat::OScan3);
}

#[test]
fn port_properties() {
    let p = PortProperties::from_bits_truncate(0xFFFF_FFFF);
    assert_eq!(p.bits, 0x000F_FFFF);
    assert!(p.contains(PortProperties::BATCH | PortProperties::WAIT));
    assert_eq!(BatchProperties::from_bits_truncate(0xFF).bits, 0x7);
}

#[test]
fn adept_enumeration_cursor() {
    let mut devs = Devices::new(2);
    assert_eq!(devs.size_hint(), 2);
    assert_eq!(devs.next_index(), Some(0));
    assert_eq!(devs.next_index(), Some(1));
    assert_eq!(devs.next_index(), None);
    assert_eq!(devs.next_index(), None);
    assert_eq!(devs.size_hint(), 0);
}

#[test]
fn adept_device_strings() {
    let mut name = [0u8; 64];
    name[..5].copy_from_slice(b"Basys");
    let mut conn = [0u8; 261];
    conn[..10].copy_from_slice(b"USB:123456");
    let d = Device(DVC { name, conn, dtp: 1 });
    assert_eq!(d.name(), "Basys");
    assert_eq!(d.conn(), "USB:123456");
    assert_eq!(d.device_type().bits, 1);
}
