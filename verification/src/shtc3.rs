//! Driver for the SHTC3 temperature and humidity sensor.
//!
//! The driver is a state machine. Every call of [`Shtc3::task`] takes the
//! completion of the action that the driver asked for last and yields the
//! lines to report and the next action. The sensor sleeps between
//! measurements: it is woken, told to measure, read, and put to sleep again
//! once per polling period.

use crate::transport::{byte_at, unless, Action, ActionView, Completion, CompletionView, Step};
use crate::word::{be_word, Fraction};
use vstd::prelude::*;

pub mod theorems;

verus! {

/// Milliseconds the sensor needs after a wake or a sleep command.
pub const SETTLE_MILLIS: u64 = 2;

/// Milliseconds to wait after a failed attempt to put the sensor to sleep.
pub const BACKOFF_MILLIS: u64 = 500;

/// Milliseconds a measurement of temperature and humidity takes.
pub const CONVERSION_MILLIS: u64 = 14;

/// Milliseconds between two measurements.
pub const PERIOD_MILLIS: u64 = 1000;

/// Degrees Celsius at the lower end of the temperature range.
pub const TEMPERATURE_BASE: i16 = -45;

/// Width of the temperature range in degrees Celsius.
pub const TEMPERATURE_SPAN: u16 = 175;

/// Width of the humidity range in percent.
pub const HUMIDITY_SPAN: u16 = 100;

/// Length of the answer to the read-ID command.
pub const ID_LEN: usize = 3;

/// Length of a measurement result: two words, each followed by a checksum.
pub const RESULT_LEN: usize = 6;

/// The command words of the sensor.
#[derive(Clone, Copy, Debug, PartialEq, Eq, Structural)]
pub enum Command {
    /// Enter low power.
    Sleep,
    /// Leave low power.
    Wake,
    /// Send the identification register.
    ReadId,
    /// Measure temperature, then humidity, in normal mode and without clock
    /// stretching.
    Measure,
}

impl Command {
    /// The command word as it goes over the bus, high byte first.
    pub open spec fn bytes(self) -> Seq<u8> {
        match self {
            Command::Sleep => seq![0xB0u8, 0x98u8],
            Command::Wake => seq![0x35u8, 0x17u8],
            Command::ReadId => seq![0xEFu8, 0xC8u8],
            Command::Measure => seq![0x78u8, 0x66u8],
        }
    }

    /// The command word as it goes over the bus, high byte first.
    pub fn encode(self) -> (bytes: Vec<u8>)
        ensures
            bytes@ == self.bytes(),
    {
        let (hi, lo): (u8, u8) = match self {
            Command::Sleep => (0xB0, 0x98),
            Command::Wake => (0x35, 0x17),
            Command::ReadId => (0xEF, 0xC8),
            Command::Measure => (0x78, 0x66),
        };
        let mut bytes: Vec<u8> = Vec::new();
        bytes.push(hi);
        bytes.push(lo);
        bytes
    }
}

/// Whether the first two bytes of the identification register are those of
/// an SHTC3: bit 3 of the first is set, and the low six bits of the second
/// are `000111`. The other bits differ from one sensor to the next.
pub open spec fn id_matches(b0: u8, b1: u8) -> bool {
    (b0 / 8) % 2 == 1 && b1 % 64 == 7
}

/// Whether the first two bytes of the identification register are those of
/// an SHTC3.
pub fn is_shtc3(b0: u8, b1: u8) -> (matches: bool)
    ensures
        matches == id_matches(b0, b1),
{
    assert((b0 & 0x08 == 0x08) == ((b0 / 8) % 2 == 1)) by (bit_vector);
    assert((b1 & 0x3F == 0x07) == (b1 % 64 == 7)) by (bit_vector);
    (b0 & 0x08 == 0x08) && (b1 & 0x3F == 0x07)
}

/// One measurement: temperature and humidity as the fractions of their
/// ranges that the sensor sent.
#[derive(Clone, Copy, Debug, PartialEq, Eq, Structural)]
pub struct Reading {
    pub temperature: Fraction,
    pub humidity: Fraction,
}

impl Reading {
    /// The reading that a result block holds: the temperature word in bytes
    /// 0 and 1, the humidity word in bytes 3 and 4. Bytes 2 and 5 are
    /// checksums and are not looked at.
    pub open spec fn of(data: Seq<u8>) -> Reading {
        Reading {
            temperature: Fraction {
                bits: be_word(byte_at(data, 0), byte_at(data, 1)) as u16,
            },
            humidity: Fraction { bits: be_word(byte_at(data, 3), byte_at(data, 4)) as u16 },
        }
    }

    /// Decodes the result block that a read left behind.
    pub fn decode(done: &Completion) -> (reading: Reading)
        ensures
            reading == Reading::of(done@.data),
    {
        Reading {
            temperature: Fraction::from_be_bytes(done.byte(0), done.byte(1)),
            humidity: Fraction::from_be_bytes(done.byte(3), done.byte(4)),
        }
    }

    /// The temperature in units of 1/65536 degree Celsius:
    /// `-45 + 175 * fraction` degrees.
    pub open spec fn spec_temperature(self) -> int {
        self.temperature.spec_scale(TEMPERATURE_BASE as int, TEMPERATURE_SPAN as int)
    }

    /// The relative humidity in units of 1/65536 percent:
    /// `100 * fraction` percent.
    pub open spec fn spec_humidity(self) -> int {
        self.humidity.spec_scale(0, HUMIDITY_SPAN as int)
    }

    /// The temperature in units of 1/65536 degree Celsius:
    /// `-45 + 175 * fraction` degrees.
    pub fn temperature(&self) -> (t: i64)
        ensures
            t == self.spec_temperature(),
            t == 175 * self.temperature.bits - 45 * 65536,
    {
        self.temperature.scale(TEMPERATURE_BASE, TEMPERATURE_SPAN)
    }

    /// The relative humidity in units of 1/65536 percent:
    /// `100 * fraction` percent.
    pub fn humidity(&self) -> (h: i64)
        ensures
            h == self.spec_humidity(),
            h == 100 * self.humidity.bits,
    {
        self.humidity.scale(0, HUMIDITY_SPAN)
    }
}

/// What the driver is waiting for.
#[derive(Clone, Copy, Debug, PartialEq, Eq, Structural)]
pub enum Phase {
    /// Nothing yet: the driver has not been run.
    Uninitialized,
    /// The settle time before an attempt to put the sensor to sleep.
    BeforeSleep,
    /// The first sleep command, which is repeated until it succeeds.
    Sleep,
    /// The backoff after a failed sleep command.
    Backoff,
    /// The wake command before the identification register is read.
    Wake,
    /// The wake time before the identification register is read.
    AfterWake,
    /// The read of the identification register.
    ReadId,
    /// The sleep command after the identification register was read.
    Rest,
    /// The settle time that ends the setup.
    AfterRest,
    /// The polling period.
    Period,
    /// The wake command of a measurement.
    PollWake,
    /// The wake time of a measurement.
    AfterPollWake,
    /// The measure command.
    Measure,
    /// The conversion time.
    Conversion,
    /// The read of the result block.
    ReadResult,
    /// The sleep command that ends a measurement, with what was read.
    PollSleep(Reading),
    /// The settle time that ends a measurement, with what was read.
    AfterPollSleep(Reading),
}

/// Where the driver stands in its life.
#[derive(Clone, Copy, Debug, PartialEq, Eq, Structural)]
pub enum State {
    Uninitialized,
    /// Putting the sensor to sleep, for as long as that takes.
    Configuring,
    /// Reading and checking the identification register.
    IdVerification,
    /// Measuring once per period, forever.
    Polling,
}

/// A line of telemetry.
#[derive(Clone, Copy, Debug, PartialEq, Eq, Structural)]
pub enum Report {
    /// The first sleep command succeeded.
    SleepSucceeded,
    /// The first sleep command failed and will be repeated.
    SleepFailed,
    /// The wake command before the read of the identification register failed.
    WakeFailed,
    /// The read of the identification register succeeded.
    IdReadSucceeded,
    /// The read of the identification register failed.
    IdReadFailed,
    /// The identification register is that of an SHTC3.
    IdVerified,
    /// The identification register is not that of an SHTC3; its three bytes.
    IdUnrecognized(u8, u8, u8),
    /// The sleep command after the read of the identification register failed.
    RestFailed,
    /// The setup is over.
    Configured,
    /// The wake command of a measurement failed.
    PollWakeFailed,
    /// The measure command failed.
    MeasureFailed,
    /// The read of the result block failed.
    ReadResultFailed,
    /// The sleep command that ends a measurement failed.
    PollSleepFailed,
    /// A measurement.
    Measured(Reading),
}

impl Phase {
    /// The state that the phase belongs to.
    pub open spec fn state(self) -> State {
        match self {
            Phase::Uninitialized => State::Uninitialized,
            Phase::BeforeSleep | Phase::Sleep | Phase::Backoff => State::Configuring,
            Phase::Wake | Phase::AfterWake | Phase::ReadId | Phase::Rest | Phase::AfterRest =>
                State::IdVerification,
            _ => State::Polling,
        }
    }

    /// The action whose completion the phase waits for. An uninitialized
    /// driver waits for none.
    pub open spec fn awaited(self, addr: u8) -> Option<ActionView> {
        match self {
            Phase::Uninitialized => None,
            Phase::BeforeSleep | Phase::AfterWake | Phase::AfterRest | Phase::AfterPollWake
            | Phase::AfterPollSleep(_) => Some(
                ActionView::Delay { millis: SETTLE_MILLIS as nat },
            ),
            Phase::Backoff => Some(ActionView::Delay { millis: BACKOFF_MILLIS as nat }),
            Phase::Conversion => Some(ActionView::Delay { millis: CONVERSION_MILLIS as nat }),
            Phase::Period => Some(ActionView::Delay { millis: PERIOD_MILLIS as nat }),
            Phase::Sleep | Phase::Rest | Phase::PollSleep(_) => Some(
                ActionView::Write { addr, bytes: Command::Sleep.bytes() },
            ),
            Phase::Wake | Phase::PollWake => Some(
                ActionView::Write { addr, bytes: Command::Wake.bytes() },
            ),
            Phase::Measure => Some(ActionView::Write { addr, bytes: Command::Measure.bytes() }),
            Phase::ReadId => Some(
                ActionView::WriteRead {
                    addr,
                    bytes: Command::ReadId.bytes(),
                    len: ID_LEN as nat,
                },
            ),
            Phase::ReadResult => Some(ActionView::Read { addr, len: RESULT_LEN as nat }),
        }
    }

    /// The phase that follows when the awaited action ends as `done` says.
    ///
    /// Only the first sleep command is repeated when it fails. Every other
    /// failure is reported and passed over.
    pub open spec fn next(self, done: CompletionView) -> Phase {
        match self {
            Phase::Uninitialized => Phase::BeforeSleep,
            Phase::BeforeSleep => Phase::Sleep,
            Phase::Sleep => if done.ok {
                Phase::Wake
            } else {
                Phase::Backoff
            },
            Phase::Backoff => Phase::BeforeSleep,
            Phase::Wake => Phase::AfterWake,
            Phase::AfterWake => Phase::ReadId,
            Phase::ReadId => Phase::Rest,
            Phase::Rest => Phase::AfterRest,
            Phase::AfterRest => Phase::Period,
            Phase::Period => Phase::PollWake,
            Phase::PollWake => Phase::AfterPollWake,
            Phase::AfterPollWake => Phase::Measure,
            Phase::Measure => Phase::Conversion,
            Phase::Conversion => Phase::ReadResult,
            Phase::ReadResult => Phase::PollSleep(Reading::of(done.data)),
            Phase::PollSleep(reading) => Phase::AfterPollSleep(reading),
            Phase::AfterPollSleep(_) => Phase::Period,
        }
    }

    /// The lines to report when the awaited action ends as `done` says.
    pub open spec fn reports(self, done: CompletionView) -> Seq<Report> {
        match self {
            Phase::Sleep => if done.ok {
                seq![Report::SleepSucceeded]
            } else {
                seq![Report::SleepFailed]
            },
            Phase::Wake => unless(done.ok, Report::WakeFailed),
            Phase::ReadId => seq![
                if done.ok {
                    Report::IdReadSucceeded
                } else {
                    Report::IdReadFailed
                },
                if id_matches(byte_at(done.data, 0), byte_at(done.data, 1)) {
                    Report::IdVerified
                } else {
                    Report::IdUnrecognized(
                        byte_at(done.data, 0),
                        byte_at(done.data, 1),
                        byte_at(done.data, 2),
                    )
                },
            ],
            Phase::Rest => unless(done.ok, Report::RestFailed),
            Phase::AfterRest => seq![Report::Configured],
            Phase::PollWake => unless(done.ok, Report::PollWakeFailed),
            Phase::Measure => unless(done.ok, Report::MeasureFailed),
            Phase::ReadResult => unless(done.ok, Report::ReadResultFailed),
            Phase::PollSleep(_) => unless(done.ok, Report::PollSleepFailed),
            Phase::AfterPollSleep(reading) => seq![Report::Measured(reading)],
            _ => Seq::empty(),
        }
    }

    /// The action whose completion the phase waits for.
    fn request(self, addr: u8) -> (action: Action)
        requires
            self != Phase::Uninitialized,
        ensures
            self.awaited(addr) == Some(action@),
    {
        match self {
            Phase::Backoff => Action::Delay { millis: BACKOFF_MILLIS },
            Phase::Conversion => Action::Delay { millis: CONVERSION_MILLIS },
            Phase::Period => Action::Delay { millis: PERIOD_MILLIS },
            Phase::Sleep | Phase::Rest | Phase::PollSleep(_) => Action::Write {
                addr,
                bytes: Command::Sleep.encode(),
            },
            Phase::Wake | Phase::PollWake => Action::Write { addr, bytes: Command::Wake.encode() },
            Phase::Measure => Action::Write { addr, bytes: Command::Measure.encode() },
            Phase::ReadId => Action::WriteRead {
                addr,
                bytes: Command::ReadId.encode(),
                len: ID_LEN,
            },
            Phase::ReadResult => Action::Read { addr, len: RESULT_LEN },
            _ => Action::Delay { millis: SETTLE_MILLIS },
        }
    }
}

/// One SHTC3 on a bus.
#[derive(Debug, PartialEq, Eq)]
pub struct Shtc3 {
    addr: u8,
    phase: Phase,
}

impl Shtc3 {
    /// The bus address of the sensor.
    pub closed spec fn spec_addr(&self) -> u8 {
        self.addr
    }

    /// What the driver is waiting for.
    pub closed spec fn spec_phase(&self) -> Phase {
        self.phase
    }

    /// Whether `step` is what a call with `done` yields and `after` is what
    /// it leaves of the driver `before`.
    pub open spec fn advances(
        before: Shtc3,
        done: CompletionView,
        after: Shtc3,
        step: Step<Report>,
    ) -> bool {
        &&& after.addr() == before.addr()
        &&& after.phase() == before.phase().next(done)
        &&& step.reports@ == before.phase().reports(done)
        &&& after.phase().awaited(after.addr()) == Some(step.action@)
    }

    /// A driver for the sensor at `addr` that has not been run yet.
    pub fn new(addr: u8) -> (driver: Shtc3)
        ensures
            driver.addr() == addr,
            driver.phase() == Phase::Uninitialized,
    {
        Shtc3 { addr, phase: Phase::Uninitialized }
    }

    /// The bus address of the sensor.
    #[verifier::when_used_as_spec(spec_addr)]
    pub fn addr(&self) -> (addr: u8)
        ensures
            addr == self.spec_addr(),
    {
        self.addr
    }

    /// What the driver is waiting for.
    #[verifier::when_used_as_spec(spec_phase)]
    pub fn phase(&self) -> (phase: Phase)
        ensures
            phase == self.spec_phase(),
    {
        self.phase
    }

    /// Where the driver stands in its life.
    pub fn state(&self) -> (state: State)
        ensures
            state == self.phase().state(),
    {
        match self.phase {
            Phase::Uninitialized => State::Uninitialized,
            Phase::BeforeSleep | Phase::Sleep | Phase::Backoff => State::Configuring,
            Phase::Wake | Phase::AfterWake | Phase::ReadId | Phase::Rest | Phase::AfterRest =>
                State::IdVerification,
            _ => State::Polling,
        }
    }

    /// One step of the setup: puts the sensor to sleep, however many attempts
    /// that takes, then wakes it, reads and checks its identification
    /// register, and puts it to sleep again. A register that is not that of
    /// an SHTC3 is reported and does not stop the setup.
    ///
    /// Yields nothing and changes nothing once the driver is polling.
    pub fn setup(&mut self, done: &Completion) -> (step: Option<Step<Report>>)
        ensures
            old(self).phase().state() == State::Polling ==> step is None && *final(self) == *old(
                self,
            ),
            old(self).phase().state() != State::Polling ==> step is Some && Self::advances(
                *old(self),
                done@,
                *final(self),
                step->0,
            ),
    {
        let (next, reports): (Phase, Vec<Report>) = match self.phase {
            Phase::Uninitialized => (Phase::BeforeSleep, Vec::new()),
            Phase::BeforeSleep => (Phase::Sleep, Vec::new()),
            Phase::Sleep => {
                let mut lines: Vec<Report> = Vec::new();
                if done.is_ok() {
                    lines.push(Report::SleepSucceeded);
                    (Phase::Wake, lines)
                } else {
                    lines.push(Report::SleepFailed);
                    (Phase::Backoff, lines)
                }
            },
            Phase::Backoff => (Phase::BeforeSleep, Vec::new()),
            Phase::Wake => (Phase::AfterWake, done.unless_ok(Report::WakeFailed)),
            Phase::AfterWake => (Phase::ReadId, Vec::new()),
            Phase::ReadId => {
                let mut lines: Vec<Report> = Vec::new();
                if done.is_ok() {
                    lines.push(Report::IdReadSucceeded);
                } else {
                    lines.push(Report::IdReadFailed);
                }
                let b0: u8 = done.byte(0);
                let b1: u8 = done.byte(1);
                if is_shtc3(b0, b1) {
                    lines.push(Report::IdVerified);
                } else {
                    lines.push(Report::IdUnrecognized(b0, b1, done.byte(2)));
                }
                (Phase::Rest, lines)
            },
            Phase::Rest => (Phase::AfterRest, done.unless_ok(Report::RestFailed)),
            Phase::AfterRest => {
                let mut lines: Vec<Report> = Vec::new();
                lines.push(Report::Configured);
                (Phase::Period, lines)
            },
            _ => {
                return None;
            },
        };
        assert(reports@ =~= self.phase.reports(done@));
        self.phase = next;
        Some(Step { reports, action: next.request(self.addr) })
    }

    /// One step of a measurement: wake, measure, read the result, sleep, and
    /// report what was read. A step that fails is reported and the
    /// measurement goes on; what is reported at its end is then whatever the
    /// read left in its buffer.
    ///
    /// Yields nothing and changes nothing until the driver is polling.
    pub fn service(&mut self, done: &Completion) -> (step: Option<Step<Report>>)
        ensures
            old(self).phase().state() != State::Polling ==> step is None && *final(self) == *old(
                self,
            ),
            old(self).phase().state() == State::Polling ==> step is Some && Self::advances(
                *old(self),
                done@,
                *final(self),
                step->0,
            ),
    {
        let (next, reports): (Phase, Vec<Report>) = match self.phase {
            Phase::Period => (Phase::PollWake, Vec::new()),
            Phase::PollWake => (Phase::AfterPollWake, done.unless_ok(Report::PollWakeFailed)),
            Phase::AfterPollWake => (Phase::Measure, Vec::new()),
            Phase::Measure => (Phase::Conversion, done.unless_ok(Report::MeasureFailed)),
            Phase::Conversion => (Phase::ReadResult, Vec::new()),
            Phase::ReadResult => (
                Phase::PollSleep(Reading::decode(done)),
                done.unless_ok(Report::ReadResultFailed),
            ),
            Phase::PollSleep(reading) => (
                Phase::AfterPollSleep(reading),
                done.unless_ok(Report::PollSleepFailed),
            ),
            Phase::AfterPollSleep(reading) => {
                let mut lines: Vec<Report> = Vec::new();
                lines.push(Report::Measured(reading));
                (Phase::Period, lines)
            },
            _ => {
                return None;
            },
        };
        self.phase = next;
        Some(Step { reports, action: next.request(self.addr) })
    }

    /// One step of the driver's life: the setup, then one measurement per
    /// polling period, forever.
    ///
    /// `done` tells how the action of the step before ended. An
    /// uninitialized driver has asked for none and does not look at it.
    pub fn task(&mut self, done: &Completion) -> (step: Step<Report>)
        ensures
            Self::advances(*old(self), done@, *final(self), step),
    {
        match self.setup(done) {
            Some(step) => step,
            None => self.service(done).unwrap(),
        }
    }
}

} // verus!
