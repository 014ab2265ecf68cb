use busmust::codec::{BMCanMessage, BMData};
use busmust::dmgr::{
    batch_result, can_read_result, native_timeout, ready_index, take_batch, value_result,
    wait_policy, Device, Devices, OpenConfig, Operation, SessionState, WaitPolicy,
    ENUMERATION_CAPACITY,
};
use busmust::error::{cvt_code, cvt_r, Error};
use busmust::types::{
    BMCanMode, BMCapability, BMChannelInfo, BMStatus, BMTerminalResistor,
};

fn info(port: u16) -> BMChannelInfo {
    let mut name = [0u8; 64];
    name[..7].copy_from_slice(b"BM-CANF");
    BMChannelInfo {
        name,
        sn: *b"SN0123456789ABCD",
        uid: [b'u'; 12],
        version: [1, 2, 3, 4],
        vid: 0x1234,
        pid: 0x5678,
        port,
        cap: BMCapability::from_bits(BMCapability::CAN | BMCapability::CAN_FD),
        reserved: [0; 4],
    }
}

/// Stands in for the native library: counts the calls made through it and
/// answers each with a fixed status.
struct FakeBoundary {
    calls: usize,
    status: BMStatus,
}

impl FakeBoundary {
    fn call(&mut self) -> BMStatus {
        self.calls += 1;
        self.status
    }
}

fn run(dev: &mut Device, op: Operation, fake: &mut FakeBoundary) -> Result<(), Error> {
    match dev.check(op)? {
        false => Ok(()),
        true => match op {
            Operation::Open | Operation::OpenWithConfig => {
                let channel = fake.call();
                let notification = if channel == BMStatus::Success { fake.call() } else { channel };
                dev.record_open(op, channel, notification)
            }
            _ => {
                let status = fake.call();
                dev.record(op, status)
            }
        },
    }
}

fn one_device() -> Device {
    let mut infos = vec![info(0)];
    infos.resize(ENUMERATION_CAPACITY, info(9));
    Devices::from_enumeration(BMStatus::Success, infos, 1).unwrap().next().unwrap()
}

#[test]
fn session_lifecycle() {
    let mut fake = FakeBoundary { calls: 0, status: BMStatus::Success };
    let mut dev = one_device();
    assert_eq!(dev.state(), SessionState::Closed);
    run(&mut dev, Operation::OpenWithConfig, &mut fake).unwrap();
    assert_eq!(dev.state(), SessionState::Activated);
    run(&mut dev, Operation::Deactivate, &mut fake).unwrap();
    assert_eq!(dev.state(), SessionState::Deactivated);
    run(&mut dev, Operation::Activate, &mut fake).unwrap();
    assert_eq!(dev.state(), SessionState::Activated);
    run(&mut dev, Operation::Configure, &mut fake).unwrap();
    run(&mut dev, Operation::Reset, &mut fake).unwrap();
    assert_eq!(dev.state(), SessionState::Activated);
    run(&mut dev, Operation::Close, &mut fake).unwrap();
    assert_eq!(dev.state(), SessionState::Closed);
    assert_eq!(fake.calls, 7);
    assert_eq!(run(&mut dev, Operation::Close, &mut fake), Ok(()));
    assert_eq!(run(&mut dev, Operation::Open, &mut fake), Err(Error::SessionNotOpen));
    assert_eq!(run(&mut dev, Operation::OpenWithConfig, &mut fake), Err(Error::SessionNotOpen));
    assert_eq!(fake.calls, 7);
}

#[test]
fn plain_open_then_activate() {
    let mut fake = FakeBoundary { calls: 0, status: BMStatus::Success };
    let mut dev = one_device();
    run(&mut dev, Operation::Open, &mut fake).unwrap();
    assert_eq!(dev.state(), SessionState::Open);
    assert_eq!(run(&mut dev, Operation::Deactivate, &mut fake), Err(Error::SessionNotOpen));
    run(&mut dev, Operation::Activate, &mut fake).unwrap();
    assert_eq!(dev.state(), SessionState::Activated);
}

#[test]
fn illegal_operations_never_reach_boundary() {
    let mut fake = FakeBoundary { calls: 0, status: BMStatus::Success };
    let mut dev = one_device();
    for op in [
        Operation::Activate,
        Operation::Deactivate,
        Operation::Reset,
        Operation::Transfer,
        Operation::Configure,
    ] {
        assert_eq!(run(&mut dev, op, &mut fake), Err(Error::SessionNotOpen));
    }
    assert_eq!(dev.transfer_timeout(Some(100)), Err(Error::SessionNotOpen));
    assert_eq!(run(&mut dev, Operation::Close, &mut fake), Ok(()));
    assert_eq!(fake.calls, 0);
    run(&mut dev, Operation::OpenWithConfig, &mut fake).unwrap();
    let before = fake.calls;
    assert_eq!(run(&mut dev, Operation::Open, &mut fake), Err(Error::AlreadyOpen));
    assert_eq!(run(&mut dev, Operation::OpenWithConfig, &mut fake), Err(Error::AlreadyOpen));
    assert_eq!(run(&mut dev, Operation::Activate, &mut fake), Err(Error::SessionNotOpen));
    assert_eq!(fake.calls, before);
}

#[test]
fn failed_calls_keep_or_close_state() {
    let mut fake = FakeBoundary { calls: 0, status: BMStatus::HardwareInUse };
    let mut dev = one_device();
    assert_eq!(
        run(&mut dev, Operation::OpenWithConfig, &mut fake),
        Err(Error::Status(BMStatus::HardwareInUse))
    );
    assert_eq!(dev.state(), SessionState::Closed);
    assert_eq!(
        dev.record_open(Operation::Open, BMStatus::Success, BMStatus::HardwareError),
        Err(Error::Status(BMStatus::HardwareError))
    );
    assert_eq!(dev.state(), SessionState::Closed);
    fake.status = BMStatus::Success;
    run(&mut dev, Operation::OpenWithConfig, &mut fake).unwrap();
    fake.status = BMStatus::BusOff;
    assert_eq!(
        run(&mut dev, Operation::Deactivate, &mut fake),
        Err(Error::Status(BMStatus::BusOff))
    );
    assert_eq!(dev.state(), SessionState::Activated);
    assert!(run(&mut dev, Operation::Close, &mut fake).is_err());
    assert_eq!(dev.state(), SessionState::Closed);
}

#[test]
fn read_multiple_truncates_to_reported() {
    let buffer = vec![BMData::builder().build().unwrap(); 10];
    let r = batch_result(BMStatus::Success, buffer, 10, 3).unwrap();
    assert_eq!(r.len(), 3);
    let r = batch_result(BMStatus::Success, vec![7u32; 10], 10, 0).unwrap();
    assert!(r.is_empty());
    let r = batch_result(BMStatus::Success, vec![7u32; 10], 10, 25).unwrap();
    assert_eq!(r.len(), 10);
    let r = batch_result(BMStatus::Success, vec![7u32; 10], 10, -1).unwrap();
    assert!(r.is_empty());
    assert_eq!(take_batch(vec![1, 2, 3, 4], 2, 4), vec![1, 2]);
    assert_eq!(
        batch_result(BMStatus::BusTimeout, vec![1u32], 1, 1),
        Err(Error::Status(BMStatus::BusTimeout))
    );
}

#[test]
fn timeouts_pass_through() {
    assert_eq!(native_timeout(Some(-1)), -1);
    assert_eq!(native_timeout(Some(250)), 250);
    assert_eq!(native_timeout(Some(0)), 0);
    assert_eq!(native_timeout(None), 0);
    assert_eq!(wait_policy(-1), WaitPolicy::Indefinite);
    assert_eq!(wait_policy(0), WaitPolicy::NoWait);
    assert_eq!(wait_policy(250), WaitPolicy::Bounded(250));
    let mut fake = FakeBoundary { calls: 0, status: BMStatus::Success };
    let mut dev = one_device();
    run(&mut dev, Operation::OpenWithConfig, &mut fake).unwrap();
    assert_eq!(dev.transfer_timeout(Some(250)), Ok(250));
    assert_eq!(dev.transfer_timeout(Some(-1)), Ok(-1));
}

#[test]
fn zero_timeout_returns_at_once() {
    // A boundary that would block answers at once with an empty queue when
    // it is asked not to wait, and the read gives no message.
    let t = native_timeout(Some(0));
    assert_eq!(wait_policy(t), WaitPolicy::NoWait);
    let mut fake = FakeBoundary { calls: 0, status: BMStatus::ReceiveBufferEmpty };
    let status = fake.call();
    let m = BMCanMessage::builder().build().unwrap();
    assert_eq!(can_read_result(status, m).unwrap().map(|m| m.sid()), None);
    assert_eq!(fake.calls, 1);
}

#[test]
fn single_results() {
    let m = BMCanMessage::builder().sid(5).build().unwrap();
    assert_eq!(can_read_result(BMStatus::Success, m).unwrap().unwrap().sid(), 5);
    assert_eq!(
        can_read_result(BMStatus::BusOff, m).err(),
        Some(Error::Status(BMStatus::BusOff))
    );
    assert_eq!(value_result(BMStatus::Success, 42u32), Ok(42));
    assert_eq!(value_result(BMStatus::XmtFull, 42u32), Err(Error::Status(BMStatus::XmtFull)));
    assert_eq!(cvt_r(BMStatus::Success), Ok(()));
    assert_eq!(cvt_code(0x20), Err(Error::Status(BMStatus::ReceiveBufferEmpty)));
    assert_eq!(cvt_code(0x12345), Err(Error::Status(BMStatus::Unknown)));
}

#[test]
fn notification_index() {
    assert_eq!(ready_index(0, 1), Some(0));
    assert_eq!(ready_index(2, 3), Some(2));
    assert_eq!(ready_index(3, 3), None);
    assert_eq!(ready_index(-1, 3), None);
}

#[test]
fn enumeration_yields_reported_count() {
    let mut infos = Vec::new();
    for i in 0..ENUMERATION_CAPACITY {
        infos.push(info(i as u16));
    }
    let mut devices = Devices::from_enumeration(BMStatus::Success, infos, 5).unwrap();
    assert_eq!(devices.len(), 5);
    for i in 0..5u16 {
        let d = devices.next().unwrap();
        assert_eq!(d.port(), i);
        assert_eq!(d.state(), SessionState::Closed);
    }
    assert!(devices.next().is_none());
    assert!(devices.next().is_none());
    assert_eq!(devices.len(), 0);
}

#[test]
fn enumeration_failure_and_bounds() {
    let infos = vec![info(0); 4];
    assert_eq!(
        Devices::from_enumeration(BMStatus::NotInitialized, infos.clone(), 2).err().map(|e| e.status()),
        Some(Some(BMStatus::NotInitialized))
    );
    assert_eq!(Devices::from_enumeration(BMStatus::Success, infos.clone(), 9).unwrap().len(), 4);
    assert_eq!(Devices::from_enumeration(BMStatus::Success, infos, -3).unwrap().len(), 0);
}

#[test]
fn device_descriptor_getters() {
    let d = Device::new(info(2));
    assert_eq!(d.name(), "BM-CANF");
    assert_eq!(d.serial_number(), "SN0123456789ABCD");
    assert_eq!(d.unique_id(), "uuuuuuuuuuuu");
    assert_eq!(d.version(), vec![1, 2, 3, 4]);
    assert_eq!(d.vendor_id(), 0x1234);
    assert_eq!(d.product_id(), 0x5678);
    assert_eq!(d.port(), 2);
    assert!(d.caps().contains(BMCapability::CAN_FD));
    assert!(!d.caps().contains(BMCapability::LIN));
}

#[test]
fn device_name_replaces_invalid_bytes() {
    let mut i = info(0);
    i.name = [0u8; 64];
    i.name[..3].copy_from_slice(&[b'A', 0xFF, b'B']);
    let d = Device::new(i);
    assert_eq!(d.name(), "A\u{FFFD}B");
}

#[test]
fn default_open_config() {
    let c = OpenConfig::default();
    assert_eq!(c.mode, BMCanMode::Normal);
    assert_eq!(c.terminal_resistor, BMTerminalResistor::Enabled120);
    assert_eq!(c.bitrate.n_bitrate, 500);
    assert_eq!(c.bitrate.d_bitrate, 2000);
}

#[test]
fn error_kinds() {
    assert!(Error::SessionNotOpen.is_usage());
    assert!(Error::PayloadTooLarge.is_usage());
    assert!(!Error::Status(BMStatus::BusOff).is_usage());
    assert_eq!(Error::Status(BMStatus::BusOff).status(), Some(BMStatus::BusOff));
    assert_eq!(Error::AlreadyOpen.status(), None);
}
