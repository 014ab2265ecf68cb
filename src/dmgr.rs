//! Device sessions: the state machine that decides which operations may run,
//! how native results become library results, and device enumeration.
//!
//! The native calls themselves are made by the caller. Before a call it asks
//! the session (`Device::check`, `Device::transfer_timeout`) whether the call
//! may be made and with which arguments; after the call it hands the native
//! status and outputs back (`Device::record`, `batch_result`, ...), and the
//! session gives the next state and the result to return.

use vstd::prelude::*;
use crate::codec::BMCanMessage;
use crate::error::{c_prefix, cvt_r, spec_cvt, string_from_bytes, string_from_c_chars, utf8_lossy, Error};
use crate::types::{BMBitrate, BMCanMode, BMCapability, BMChannelInfo, BMStatus, BMTerminalResistor};

verus! {

/// State of a device session.
#[derive(Clone, Copy, Debug, PartialEq, Eq, Structural)]
pub enum SessionState {
    /// No native handle is held: the initial and the final state.
    Closed,
    /// The channel is open and not yet activated.
    Open,
    /// The channel is on the bus.
    Activated,
    /// The channel has left the bus; transfers report bus-off.
    Deactivated,
}

/// Operations of a session, as far as the state machine tells them apart.
#[derive(Clone, Copy, Debug, PartialEq, Eq, Structural)]
pub enum Operation {
    /// Open the channel with default parameters.
    Open,
    /// Open the channel with a configuration; it is then activated.
    OpenWithConfig,
    /// Bring the channel (back) onto the bus.
    Activate,
    /// Take the channel off the bus.
    Deactivate,
    /// Close and reopen the channel, keeping its configuration.
    Reset,
    /// Read, write, wait, clear the buffers or query status and timestamp.
    Transfer,
    /// Set bitrate, mode, terminal resistor, filters or transmit tasks.
    Configure,
    /// Release the channel.
    Close,
}

/// The operation may run in the state.
pub open spec fn legal(state: SessionState, op: Operation) -> bool {
    match op {
        Operation::Open | Operation::OpenWithConfig => state == SessionState::Closed,
        Operation::Activate => state == SessionState::Open || state == SessionState::Deactivated,
        Operation::Deactivate => state == SessionState::Activated,
        Operation::Reset | Operation::Transfer | Operation::Configure => state
            != SessionState::Closed,
        Operation::Close => true,
    }
}

/// The error for an operation that may not run in the current state.
pub open spec fn refusal(op: Operation) -> Error {
    match op {
        Operation::Open | Operation::OpenWithConfig => Error::AlreadyOpen,
        _ => Error::SessionNotOpen,
    }
}

/// A legal operation needs its native call; closing a closed session does not.
pub open spec fn calls_native(state: SessionState, op: Operation) -> bool {
    legal(state, op) && !(op == Operation::Close && state == SessionState::Closed)
}

/// The state after the native call for `op` returned `status`.
pub open spec fn state_after(state: SessionState, op: Operation, status: BMStatus) -> SessionState {
    if op == Operation::Close {
        SessionState::Closed
    } else if status != BMStatus::Success {
        state
    } else {
        match op {
            Operation::Open => SessionState::Open,
            Operation::OpenWithConfig | Operation::Activate | Operation::Reset => SessionState::Activated,
            Operation::Deactivate => SessionState::Deactivated,
            _ => state,
        }
    }
}

/// A session on one channel: the channel's description and the state. A
/// session that was closed after being open is spent: it opens no more.
pub struct Device {
    info: BMChannelInfo,
    state: SessionState,
    spent: bool,
}

/// The operation opens a channel.
pub open spec fn is_open_op(op: Operation) -> bool {
    op == Operation::Open || op == Operation::OpenWithConfig
}

impl Device {
    pub closed spec fn spec_info(&self) -> BMChannelInfo {
        self.info
    }

    pub closed spec fn spec_state(&self) -> SessionState {
        self.state
    }

    /// The session was closed after being open.
    pub closed spec fn spec_spent(&self) -> bool {
        self.spent
    }

    /// The outcome of checking `op`: refused on a spent session where it
    /// would open it again, else as the state machine says.
    pub open spec fn spec_check(&self, op: Operation) -> Result<bool, Error> {
        if self.spec_spent() && is_open_op(op) {
            Err(Error::SessionNotOpen)
        } else if legal(self.spec_state(), op) {
            Ok(calls_native(self.spec_state(), op))
        } else {
            Err(refusal(op))
        }
    }

    /// A closed session on the described channel.
    pub fn new(info: BMChannelInfo) -> (r: Device)
        ensures
            r.spec_info() == info,
            r.spec_state() == SessionState::Closed,
            !r.spec_spent(),
    {
        Device { info, state: SessionState::Closed, spent: false }
    }

    /// The state of the session.
    pub fn state(&self) -> (r: SessionState)
        ensures
            r == self.spec_state(),
    {
        self.state
    }

    /// The description of the channel.
    pub fn info(&self) -> (r: &BMChannelInfo)
        ensures
            *r == self.spec_info(),
    {
        &self.info
    }

    /// Whether `op` may run now: `Ok(true)` where its native call is to be
    /// made, `Ok(false)` where there is nothing to do (closing a closed
    /// session), the refusal where it is not legal.
    pub fn check(&self, op: Operation) -> (r: Result<bool, Error>)
        ensures
            r == self.spec_check(op),
            r == Ok::<bool, Error>(true) ==> calls_native(self.spec_state(), op),
    {
        if self.spent && (op == Operation::Open || op == Operation::OpenWithConfig) {
            return Err(Error::SessionNotOpen);
        }
        let legal = match op {
            Operation::Open | Operation::OpenWithConfig => self.state == SessionState::Closed,
            Operation::Activate => self.state == SessionState::Open || self.state
                == SessionState::Deactivated,
            Operation::Deactivate => self.state == SessionState::Activated,
            Operation::Reset | Operation::Transfer | Operation::Configure => self.state
                != SessionState::Closed,
            Operation::Close => true,
        };
        if !legal {
            match op {
                Operation::Open | Operation::OpenWithConfig => Err(Error::AlreadyOpen),
                _ => Err(Error::SessionNotOpen),
            }
        } else {
            Ok(!(op == Operation::Close && self.state == SessionState::Closed))
        }
    }

    /// Records the status of the native call made for `op` (other than an
    /// open) and gives the result of the operation.
    pub fn record(&mut self, op: Operation, status: BMStatus) -> (r: Result<(), Error>)
        requires
            calls_native(old(self).spec_state(), op),
            op != Operation::Open && op != Operation::OpenWithConfig,
        ensures
            final(self).spec_state() == state_after(old(self).spec_state(), op, status),
            final(self).spec_info() == old(self).spec_info(),
            final(self).spec_spent() == (old(self).spec_spent() || op == Operation::Close),
            r == spec_cvt(status),
    {
        if op == Operation::Close {
            self.state = SessionState::Closed;
            self.spent = true;
        } else if status == BMStatus::Success {
            match op {
                Operation::Activate | Operation::Reset => {
                    self.state = SessionState::Activated;
                },
                Operation::Deactivate => {
                    self.state = SessionState::Deactivated;
                },
                _ => {},
            }
        }
        cvt_r(status)
    }

    /// Records an open: the status of opening the channel and, where that
    /// succeeded, the status of getting its notification handle. The session
    /// is open only where both succeeded.
    pub fn record_open(&mut self, op: Operation, channel: BMStatus, notification: BMStatus) -> (r:
        Result<(), Error>)
        requires
            calls_native(old(self).spec_state(), op),
            op == Operation::Open || op == Operation::OpenWithConfig,
        ensures
            r == (if channel != BMStatus::Success {
                Err(Error::Status(channel))
            } else {
                spec_cvt(notification)
            }),
            final(self).spec_state() == (if r is Ok {
                state_after(old(self).spec_state(), op, BMStatus::Success)
            } else {
                SessionState::Closed
            }),
            final(self).spec_info() == old(self).spec_info(),
            final(self).spec_spent() == old(self).spec_spent(),
    {
        if channel != BMStatus::Success {
            return Err(Error::Status(channel));
        }
        let r = cvt_r(notification);
        if r.is_ok() {
            self.state = if op == Operation::Open {
                SessionState::Open
            } else {
                SessionState::Activated
            };
        }
        r
    }

    /// After an open whose channel call returned `channel` and whose
    /// notification call returned `notification`, the channel handle is to be
    /// released again: it was acquired, but the session did not open.
    pub fn must_release_channel(channel: BMStatus, notification: BMStatus) -> (r: bool)
        ensures
            r == (channel == BMStatus::Success && notification != BMStatus::Success),
    {
        channel == BMStatus::Success && notification != BMStatus::Success
    }

    /// The native timeout of a transfer, where a transfer may run now.
    pub fn transfer_timeout(&self, timeout: Option<i32>) -> (r: Result<i32, Error>)
        ensures
            r == (if legal(self.spec_state(), Operation::Transfer) {
                Ok(spec_native_timeout(timeout))
            } else {
                Err(Error::SessionNotOpen)
            }),
    {
        if self.state == SessionState::Closed {
            Err(Error::SessionNotOpen)
        } else {
            Ok(native_timeout(timeout))
        }
    }

    /// Full device name.
    pub fn name(&self) -> (r: String)
        ensures
            r@ == utf8_lossy(c_prefix(self.spec_info().name@)),
    {
        string_from_c_chars(&self.info.name)
    }

    /// Serial number, as text.
    pub fn serial_number(&self) -> (r: String)
        ensures
            r@ == utf8_lossy(self.spec_info().sn@),
    {
        string_from_bytes(&self.info.sn)
    }

    /// Unique id, as text.
    pub fn unique_id(&self) -> (r: String)
        ensures
            r@ == utf8_lossy(self.spec_info().uid@),
    {
        string_from_bytes(&self.info.uid)
    }

    /// Firmware version bytes.
    pub fn version(&self) -> (r: Vec<u8>)
        ensures
            r@ == self.spec_info().version@,
    {
        let mut v: Vec<u8> = Vec::new();
        let mut i: usize = 0;
        while i < 4
            invariant
                i <= 4,
                v@ == self.info.version@.take(i as int),
            decreases 4 - i,
        {
            v.push(self.info.version[i]);
            i = i + 1;
            assert(v@ =~= self.info.version@.take(i as int));
        }
        assert(self.info.version@.take(4) =~= self.info.version@);
        v
    }

    /// USB vendor id.
    pub fn vendor_id(&self) -> (r: u16)
        ensures
            r == self.spec_info().vid,
    {
        self.info.vid
    }

    /// USB product id.
    pub fn product_id(&self) -> (r: u16)
        ensures
            r == self.spec_info().pid,
    {
        self.info.pid
    }

    /// Port index of the channel on its device.
    pub fn port(&self) -> (r: u16)
        ensures
            r == self.spec_info().port,
    {
        self.info.port
    }

    /// Capability flags.
    pub fn caps(&self) -> (r: BMCapability)
        ensures
            r == self.spec_info().cap,
    {
        self.info.cap
    }
}

/// Configuration handed to an open-with-configuration call.
#[derive(Clone, Copy, Debug, PartialEq, Eq, Structural)]
pub struct OpenConfig {
    /// CAN mode.
    pub mode: BMCanMode,
    /// Terminal resistor.
    pub terminal_resistor: BMTerminalResistor,
    /// Bitrate.
    pub bitrate: BMBitrate,
}

impl OpenConfig {
    /// The default configuration: normal mode, 120 Ohm terminal resistor,
    /// nominal 500 kbps and data 2000 kbps with sample positions at 75 percent.
    pub open spec fn spec_default() -> OpenConfig {
        OpenConfig {
            mode: BMCanMode::Normal,
            terminal_resistor: BMTerminalResistor::Enabled120,
            bitrate: BMBitrate {
                n_bitrate: 500,
                d_bitrate: 2000,
                n_sample_pos: 75,
                d_sample_pos: 75,
                clock_freq: 0,
                reserved: 0,
                n_btr0: 0,
                n_btr1: 0,
                d_btr0: 0,
                d_btr1: 0,
            },
        }
    }
}

impl Default for OpenConfig {
    fn default() -> (r: OpenConfig)
        ensures
            r == OpenConfig::spec_default(),
    {
        OpenConfig {
            mode: BMCanMode::Normal,
            terminal_resistor: BMTerminalResistor::Enabled120,
            bitrate: BMBitrate::builder().build(),
        }
    }
}

/// The timeout handed to the native library: the one given, unchanged, or 0
/// (do not wait) where none is given. Negative waits without bound, zero
/// does not wait, a positive value waits up to that many milliseconds.
pub open spec fn spec_native_timeout(timeout: Option<i32>) -> i32 {
    match timeout {
        Some(t) => t,
        None => 0,
    }
}

/// The timeout handed to the native library.
pub fn native_timeout(timeout: Option<i32>) -> (r: i32)
    ensures
        r == spec_native_timeout(timeout),
{
    match timeout {
        Some(t) => t,
        None => 0,
    }
}

/// How long a call with a given timeout may block.
#[derive(Clone, Copy, Debug, PartialEq, Eq, Structural)]
pub enum WaitPolicy {
    /// Work on what is already buffered and return at once.
    NoWait,
    /// Block until the call completes.
    Indefinite,
    /// Block up to this many milliseconds.
    Bounded(u32),
}

/// The policy that a native timeout stands for.
pub fn wait_policy(timeout: i32) -> (r: WaitPolicy)
    ensures
        timeout < 0 ==> r == WaitPolicy::Indefinite,
        timeout == 0 ==> r == WaitPolicy::NoWait,
        timeout > 0 ==> r == WaitPolicy::Bounded(timeout as u32),
{
    if timeout < 0 {
        WaitPolicy::Indefinite
    } else if timeout == 0 {
        WaitPolicy::NoWait
    } else {
        WaitPolicy::Bounded(timeout as u32)
    }
}

/// The index of the notification that became ready, from the result of a
/// wait on `count` notifications; `None` where none did before the timeout.
pub fn ready_index(result: i32, count: usize) -> (r: Option<usize>)
    ensures
        r == (if 0 <= result < count {
            Some(result as usize)
        } else {
            None::<usize>
        }),
{
    if result >= 0 && (result as usize) < count {
        Some(result as usize)
    } else {
        None
    }
}

/// Number of entries a batch transfer gives back: what the native library
/// reported, never below zero nor above what was asked for or is held.
pub open spec fn batch_len(requested: nat, held: nat, reported: int) -> nat {
    if reported <= 0 {
        0
    } else if reported > requested || reported > held {
        if requested <= held {
            requested
        } else {
            held
        }
    } else {
        reported as nat
    }
}

/// The entries of a batch that the native library reported as done: the
/// first `batch_len` of them, with nothing after.
pub fn take_batch<T>(items: Vec<T>, requested: usize, reported: i32) -> (r: Vec<T>)
    ensures
        r@ == items@.take(batch_len(requested as nat, items@.len(), reported as int) as int),
{
    let mut items = items;
    let n: usize = if reported <= 0 {
        0
    } else if reported as usize > requested || reported as usize > items.len() {
        if requested <= items.len() {
            requested
        } else {
            items.len()
        }
    } else {
        reported as usize
    };
    items.truncate(n);
    items
}

/// The result of a batch transfer whose native call returned `status` and
/// reported `reported` entries done, of `requested`.
pub fn batch_result<T>(status: BMStatus, items: Vec<T>, requested: usize, reported: i32) -> (r:
    Result<Vec<T>, Error>)
    ensures
        status == BMStatus::Success ==> (r matches Ok(v) && v@ == items@.take(
            batch_len(requested as nat, items@.len(), reported as int) as int,
        )),
        status != BMStatus::Success ==> r == Err::<Vec<T>, Error>(Error::Status(status)),
{
    match cvt_r(status) {
        Ok(()) => Ok(take_batch(items, requested, reported)),
        Err(e) => Err(e),
    }
}

/// The result of a native call that returned `status` and filled `value`.
pub fn value_result<T>(status: BMStatus, value: T) -> (r: Result<T, Error>)
    ensures
        r == (if status == BMStatus::Success {
            Ok(value)
        } else {
            Err(Error::Status(status))
        }),
{
    match cvt_r(status) {
        Ok(()) => Ok(value),
        Err(e) => Err(e),
    }
}

/// The result of a single CAN message read: the message on success, no
/// message where the receive buffer was empty.
pub fn can_read_result(status: BMStatus, message: BMCanMessage) -> (r: Result<
    Option<BMCanMessage>,
    Error,
>)
    ensures
        r == (if status == BMStatus::Success {
            Ok(Some(message))
        } else if status == BMStatus::ReceiveBufferEmpty {
            Ok(None)
        } else {
            Err(Error::Status(status))
        }),
{
    if status == BMStatus::ReceiveBufferEmpty {
        Ok(None)
    } else {
        match cvt_r(status) {
            Ok(()) => Ok(Some(message)),
            Err(e) => Err(e),
        }
    }
}

/// Number of entries asked for when enumerating channels.
pub const ENUMERATION_CAPACITY: usize = 64;

/// The channels found by one enumeration, handed out one at a time.
pub struct Devices {
    current: usize,
    count: usize,
    device_infos: Vec<BMChannelInfo>,
}

impl Devices {
    /// The cursor lies within the reported entries, which lie within the buffer.
    pub closed spec fn wf(&self) -> bool {
        self.current <= self.count <= self.device_infos@.len()
    }

    /// The descriptions not yet handed out, in order.
    pub closed spec fn spec_remaining(&self) -> Seq<BMChannelInfo> {
        self.device_infos@.subrange(self.current as int, self.count as int)
    }

    /// The channels of an enumeration whose native call returned `status`
    /// and reported `reported` entries filled in `infos`: the first
    /// `reported` of them, none where it reported less than one, all where it
    /// reported more than `infos` holds.
    pub fn from_enumeration(status: BMStatus, infos: Vec<BMChannelInfo>, reported: i32) -> (r:
        Result<Devices, Error>)
        ensures
            status == BMStatus::Success ==> (r matches Ok(d) && d.wf() && d.spec_remaining()
                == infos@.take(batch_len(infos@.len(), infos@.len(), reported as int) as int)),
            status != BMStatus::Success ==> (r matches Err(e) && e == Error::Status(status)),
    {
        match cvt_r(status) {
            Ok(()) => {
                let requested = infos.len();
                let infos = take_batch(infos, requested, reported);
                let count = infos.len();
                let d = Devices { current: 0, count, device_infos: infos };
                assert(d.spec_remaining() =~= d.device_infos@);
                Ok(d)
            },
            Err(e) => Err(e),
        }
    }

    /// Number of channels not yet handed out.
    pub fn len(&self) -> (r: usize)
        requires
            self.wf(),
        ensures
            r == self.spec_remaining().len(),
    {
        self.count - self.current
    }

    /// A closed session on the next channel, or `None` once all were handed
    /// out; an exhausted enumeration stays exhausted.
    pub fn next(&mut self) -> (r: Option<Device>)
        requires
            old(self).wf(),
        ensures
            final(self).wf(),
            old(self).spec_remaining().len() == 0 ==> r is None && final(self).spec_remaining()
                == old(self).spec_remaining(),
            old(self).spec_remaining().len() > 0 ==> (r matches Some(d) && d.spec_info()
                == old(self).spec_remaining()[0] && d.spec_state() == SessionState::Closed
                && !d.spec_spent()
                && final(self).spec_remaining() == old(self).spec_remaining().drop_first()),
    {
        if self.current < self.count {
            let device = Device::new(self.device_infos[self.current]);
            self.current = self.current + 1;
            assert(self.spec_remaining() =~= old(self).spec_remaining().drop_first());
            Some(device)
        } else {
            None
        }
    }
}

/// An operation that is not legal in the session's state is refused; every
/// refusal is `SessionNotOpen` or `AlreadyOpen`; and the native call is to be
/// made only where the check gives `Ok(true)`, which it never does for an
/// operation that is not legal.
pub proof fn lemma_refusals(d: Device, op: Operation)
    ensures
        !legal(d.spec_state(), op) ==> d.spec_check(op) is Err,
        d.spec_check(op) matches Err(e) ==> (e == Error::SessionNotOpen || e == Error::AlreadyOpen),
        d.spec_check(op) == Ok::<bool, Error>(true) ==> legal(d.spec_state(), op) && calls_native(
            d.spec_state(),
            op,
        ),
        d.spec_state() == SessionState::Closed && !is_open_op(op) ==> d.spec_check(op) != Ok::<
            bool,
            Error,
        >(true),
{
}

/// The channel is released once: after a close of an open session, the
/// session is closed and closing it again makes no native call.
pub proof fn lemma_close_releases_once(state: SessionState, status: BMStatus)
    requires
        state != SessionState::Closed,
    ensures
        calls_native(state, Operation::Close),
        state_after(state, Operation::Close, status) == SessionState::Closed,
        legal(state_after(state, Operation::Close, status), Operation::Close),
        !calls_native(state_after(state, Operation::Close, status), Operation::Close),
{
}

/// A batch of which the native library reports `reported` entries done, no
/// more than were asked for and held, gives back exactly those entries.
pub proof fn lemma_batch_exact(requested: nat, held: nat, reported: int)
    requires
        0 <= reported <= requested,
        reported <= held,
    ensures
        batch_len(requested, held, reported) == reported,
{
}

} // verus!
