//! Driver for the ICM-42670-P inertial measurement unit.
//!
//! The driver is a state machine. Every call of [`Icm42670P::task`] takes the
//! completion of the action that the driver asked for last and yields the
//! lines to report and the next action. The unit is configured once and then
//! polled: once per period its data-ready flag is read, and only if the flag
//! is set the sensor data are read after it.

use crate::transport::{byte_at, unless, Action, ActionView, Completion, CompletionView, Step};
use crate::word::{be_signed, signed_word};
use vstd::prelude::*;

pub mod theorems;

verus! {

/// Power management register, the first of the configuration block.
pub const PWR_MGMT0: u8 = 0x1F;

/// Identification register.
pub const WHO_AM_I: u8 = 0x75;

/// Status register whose bit 0 is the data-ready flag.
pub const INT_STATUS_DRDY: u8 = 0x39;

/// First register of the sensor data: temperature, acceleration, rotation.
pub const SENSOR_DATA: u8 = 0x09;

/// Number of sensor data registers.
pub const SENSOR_DATA_LEN: usize = 14;

/// Milliseconds between two looks at the data-ready flag.
pub const PERIOD_MILLIS: u64 = 5;

/// The configuration write: the register to start at, then the values of it
/// and of the five registers behind it.
///
/// Gyroscope and accelerometer in low-noise mode; gyroscope at 250 degrees
/// per second and accelerometer at 2 g, both at 100 Hz; temperature filter
/// at 4 Hz; gyroscope and accelerometer filters at 34 Hz.
pub open spec fn config_block() -> Seq<u8> {
    seq![PWR_MGMT0, 0x0Fu8, 0x69u8, 0x69u8, 0x60u8, 0x05u8, 0x05u8]
}

/// The write that selects `register` for the read that follows it.
pub open spec fn pointer(register: u8) -> Seq<u8> {
    seq![register]
}

/// Whether a value of the status register says that new data are ready: its
/// bit 0 is set.
pub open spec fn data_ready(status: u8) -> bool {
    status % 2 == 1
}

/// Whether a value of the status register says that new data are ready.
pub fn is_data_ready(status: u8) -> (ready: bool)
    ensures
        ready == data_ready(status),
{
    assert(((status & 1) != 0) == (status % 2 == 1)) by (bit_vector);
    (status & 1) != 0
}

/// The acceleration along X that a block of sensor data holds: bytes 2 and
/// 3, high byte first, as a signed number.
pub open spec fn accel_x(data: Seq<u8>) -> i16 {
    be_signed(byte_at(data, 2), byte_at(data, 3)) as i16
}

/// What the driver is waiting for.
#[derive(Clone, Copy, Debug, PartialEq, Eq, Structural)]
pub enum Phase {
    /// Nothing yet: the driver has not been run.
    Uninitialized,
    /// The configuration write.
    Configure,
    /// The read of the identification register.
    IdProbe,
    /// The polling period.
    Period,
    /// The read of the data-ready flag.
    ReadyCheck,
    /// The read of the sensor data.
    DataBurst,
}

/// Where the driver stands in its life.
#[derive(Clone, Copy, Debug, PartialEq, Eq, Structural)]
pub enum State {
    Uninitialized,
    /// Writing the configuration and reading the identification register.
    Configuring,
    /// Looking for new data once per period, forever.
    Polling,
}

/// A line of telemetry.
#[derive(Clone, Copy, Debug, PartialEq, Eq, Structural)]
pub enum Report {
    /// The configuration write failed.
    ConfigureFailed,
    /// The configuration write is over.
    Configured,
    /// The read of the identification register failed.
    IdProbeFailed,
    /// The byte that the read of the identification register left.
    WhoAmI(u8),
    /// The read of the data-ready flag failed.
    ReadyCheckFailed,
    /// The read of the sensor data failed.
    DataBurstFailed,
    /// The acceleration along X that the read of the sensor data left.
    AccelX(i16),
}

impl Phase {
    /// The state that the phase belongs to.
    pub open spec fn state(self) -> State {
        match self {
            Phase::Uninitialized => State::Uninitialized,
            Phase::Configure | Phase::IdProbe => State::Configuring,
            _ => State::Polling,
        }
    }

    /// The action whose completion the phase waits for. An uninitialized
    /// driver waits for none.
    pub open spec fn awaited(self, addr: u8) -> Option<ActionView> {
        match self {
            Phase::Uninitialized => None,
            Phase::Configure => Some(ActionView::Write { addr, bytes: config_block() }),
            Phase::IdProbe => Some(
                ActionView::WriteRead { addr, bytes: pointer(WHO_AM_I), len: 1 },
            ),
            Phase::Period => Some(ActionView::Delay { millis: PERIOD_MILLIS as nat }),
            Phase::ReadyCheck => Some(
                ActionView::WriteRead { addr, bytes: pointer(INT_STATUS_DRDY), len: 1 },
            ),
            Phase::DataBurst => Some(
                ActionView::WriteRead {
                    addr,
                    bytes: pointer(SENSOR_DATA),
                    len: SENSOR_DATA_LEN as nat,
                },
            ),
        }
    }

    /// The phase that follows when the awaited action ends as `done` says.
    ///
    /// Whether the action succeeded makes no difference. What the read of
    /// the data-ready flag left in its buffer does.
    pub open spec fn next(self, done: CompletionView) -> Phase {
        match self {
            Phase::Uninitialized => Phase::Configure,
            Phase::Configure => Phase::IdProbe,
            Phase::IdProbe => Phase::Period,
            Phase::Period => Phase::ReadyCheck,
            Phase::ReadyCheck => if data_ready(byte_at(done.data, 0)) {
                Phase::DataBurst
            } else {
                Phase::Period
            },
            Phase::DataBurst => Phase::Period,
        }
    }

    /// The lines to report when the awaited action ends as `done` says.
    pub open spec fn reports(self, done: CompletionView) -> Seq<Report> {
        match self {
            Phase::Configure => unless(done.ok, Report::ConfigureFailed).push(Report::Configured),
            Phase::IdProbe => unless(done.ok, Report::IdProbeFailed).push(
                Report::WhoAmI(byte_at(done.data, 0)),
            ),
            Phase::ReadyCheck => unless(done.ok, Report::ReadyCheckFailed),
            Phase::DataBurst => unless(done.ok, Report::DataBurstFailed).push(
                Report::AccelX(accel_x(done.data)),
            ),
            _ => Seq::empty(),
        }
    }

    /// The action whose completion the phase waits for.
    fn request(self, addr: u8) -> (action: Action)
        requires
            self != Phase::Uninitialized,
        ensures
            self.awaited(addr) == Some(action@),
    {
        match self {
            Phase::Configure => Action::Write { addr, bytes: config() },
            Phase::IdProbe => Action::WriteRead { addr, bytes: select(WHO_AM_I), len: 1 },
            Phase::ReadyCheck => Action::WriteRead {
                addr,
                bytes: select(INT_STATUS_DRDY),
                len: 1,
            },
            Phase::DataBurst => Action::WriteRead {
                addr,
                bytes: select(SENSOR_DATA),
                len: SENSOR_DATA_LEN,
            },
            _ => Action::Delay { millis: PERIOD_MILLIS },
        }
    }
}

/// The configuration write. It is the same seven bytes at every call.
pub fn config() -> (bytes: Vec<u8>)
    ensures
        bytes@ == config_block(),
{
    let mut bytes: Vec<u8> = Vec::new();
    bytes.push(PWR_MGMT0);
    bytes.push(0x0F);
    bytes.push(0x69);
    bytes.push(0x69);
    bytes.push(0x60);
    bytes.push(0x05);
    bytes.push(0x05);
    bytes
}

/// The write that selects `register` for the read that follows it.
pub fn select(register: u8) -> (bytes: Vec<u8>)
    ensures
        bytes@ == pointer(register),
{
    let mut bytes: Vec<u8> = Vec::new();
    bytes.push(register);
    bytes
}

/// One ICM-42670-P on a bus.
#[derive(Debug, PartialEq, Eq)]
pub struct Icm42670P {
    addr: u8,
    phase: Phase,
}

impl Icm42670P {
    /// The bus address of the unit.
    pub closed spec fn spec_addr(&self) -> u8 {
        self.addr
    }

    /// What the driver is waiting for.
    pub closed spec fn spec_phase(&self) -> Phase {
        self.phase
    }

    /// Whether `step` is what a call with `done` yields and `after` is what
    /// it leaves of the driver `before`.
    pub open spec fn advances(
        before: Icm42670P,
        done: CompletionView,
        after: Icm42670P,
        step: Step<Report>,
    ) -> bool {
        &&& after.addr() == before.addr()
        &&& after.phase() == before.phase().next(done)
        &&& step.reports@ == before.phase().reports(done)
        &&& after.phase().awaited(after.addr()) == Some(step.action@)
    }

    /// A driver for the unit at `addr` that has not been run yet.
    pub fn new(addr: u8) -> (driver: Icm42670P)
        ensures
            driver.addr() == addr,
            driver.phase() == Phase::Uninitialized,
    {
        Icm42670P { addr, phase: Phase::Uninitialized }
    }

    /// The bus address of the unit.
    #[verifier::when_used_as_spec(spec_addr)]
    pub fn addr(&self) -> (addr: u8)
        ensures
            addr == self.spec_addr(),
    {
        self.addr
    }

    /// What the driver is waiting for.
    #[verifier::when_used_as_spec(spec_phase)]
    pub fn phase(&self) -> (phase: Phase)
        ensures
            phase == self.spec_phase(),
    {
        self.phase
    }

    /// Where the driver stands in its life.
    pub fn state(&self) -> (state: State)
        ensures
            state == self.phase().state(),
    {
        match self.phase {
            Phase::Uninitialized => State::Uninitialized,
            Phase::Configure | Phase::IdProbe => State::Configuring,
            _ => State::Polling,
        }
    }

    /// One step of the setup: writes the configuration, then reads the
    /// identification register and reports what it holds. A failure of
    /// either is reported and does not stop the setup.
    ///
    /// Yields nothing and changes nothing once the driver is polling.
    pub fn setup(&mut self, done: &Completion) -> (step: Option<Step<Report>>)
        ensures
            old(self).phase().state() == State::Polling ==> step is None && *final(self) == *old(
                self,
            ),
            old(self).phase().state() != State::Polling ==> step is Some && Self::advances(
                *old(self),
                done@,
                *final(self),
                step->0,
            ),
    {
        let (next, reports): (Phase, Vec<Report>) = match self.phase {
            Phase::Uninitialized => (Phase::Configure, Vec::new()),
            Phase::Configure => {
                let mut lines: Vec<Report> = done.unless_ok(Report::ConfigureFailed);
                lines.push(Report::Configured);
                (Phase::IdProbe, lines)
            },
            Phase::IdProbe => {
                let mut lines: Vec<Report> = done.unless_ok(Report::IdProbeFailed);
                lines.push(Report::WhoAmI(done.byte(0)));
                (Phase::Period, lines)
            },
            _ => {
                return None;
            },
        };
        self.phase = next;
        Some(Step { reports, action: next.request(self.addr) })
    }

    /// One step of a poll: reads the data-ready flag and, only if it is set,
    /// the sensor data, of which the acceleration along X is reported. A
    /// failure of either read is reported; the poll goes on with what the
    /// read left in its buffer.
    ///
    /// Yields nothing and changes nothing until the driver is polling.
    pub fn service(&mut self, done: &Completion) -> (step: Option<Step<Report>>)
        ensures
            old(self).phase().state() != State::Polling ==> step is None && *final(self) == *old(
                self,
            ),
            old(self).phase().state() == State::Polling ==> step is Some && Self::advances(
                *old(self),
                done@,
                *final(self),
                step->0,
            ),
    {
        let (next, reports): (Phase, Vec<Report>) = match self.phase {
            Phase::Period => (Phase::ReadyCheck, Vec::new()),
            Phase::ReadyCheck => {
                let lines: Vec<Report> = done.unless_ok(Report::ReadyCheckFailed);
                if is_data_ready(done.byte(0)) {
                    (Phase::DataBurst, lines)
                } else {
                    (Phase::Period, lines)
                }
            },
            Phase::DataBurst => {
                let mut lines: Vec<Report> = done.unless_ok(Report::DataBurstFailed);
                lines.push(Report::AccelX(signed_word(done.byte(2), done.byte(3))));
                (Phase::Period, lines)
            },
            _ => {
                return None;
            },
        };
        self.phase = next;
        Some(Step { reports, action: next.request(self.addr) })
    }

    /// One step of the driver's life: the setup, then one poll per period,
    /// forever.
    ///
    /// `done` tells how the action of the step before ended. An
    /// uninitialized driver has asked for none and does not look at it.
    pub fn task(&mut self, done: &Completion) -> (step: Step<Report>)
        ensures
            Self::advances(*old(self), done@, *final(self), step),
    {
        match self.setup(done) {
            Some(step) => step,
            None => self.service(done).unwrap(),
        }
    }
}

} // verus!
