//! What holds of every run of the ICM-42670-P driver.
//!
//! A run is told by the completions that the driver is handed, one after
//! another. The theorems speak of the phase that a run ends in, of the
//! actions that the driver asks for along the way and of the lines that it
//! reports.

use crate::icm42670p::{
    accel_x, config_block, data_ready, pointer, Phase, Report, State, INT_STATUS_DRDY,
    PERIOD_MILLIS, SENSOR_DATA, SENSOR_DATA_LEN, WHO_AM_I,
};
use crate::transport::{byte_at, unless, ActionView, CompletionView};
use vstd::prelude::*;

verus! {

/// The phase that a driver in `phase` is in once it has been handed the
/// completions `done`, one after another.
pub open spec fn run(phase: Phase, done: Seq<CompletionView>) -> Phase
    decreases done.len(),
{
    if done.len() == 0 {
        phase
    } else {
        run(phase, done.drop_last()).next(done.last())
    }
}

/// The actions that a driver in `phase` for the unit at `addr` asks for
/// while it is handed the completions `done`: one for each completion.
pub open spec fn asked(phase: Phase, addr: u8, done: Seq<CompletionView>) -> Seq<ActionView>
    decreases done.len(),
{
    if done.len() == 0 {
        Seq::empty()
    } else {
        asked(phase, addr, done.drop_last()).push(run(phase, done).awaited(addr).unwrap())
    }
}

/// The lines that a driver in `phase` reports while it is handed the
/// completions `done`.
pub open spec fn told(phase: Phase, done: Seq<CompletionView>) -> Seq<Report>
    decreases done.len(),
{
    if done.len() == 0 {
        Seq::empty()
    } else {
        told(phase, done.drop_last()) + run(phase, done.drop_last()).reports(done.last())
    }
}

/// The read of the data-ready flag of the unit at `addr`.
pub open spec fn ready_check(addr: u8) -> ActionView {
    ActionView::WriteRead { addr, bytes: pointer(INT_STATUS_DRDY), len: 1 }
}

/// The read of the sensor data of the unit at `addr`.
pub open spec fn data_burst(addr: u8) -> ActionView {
    ActionView::WriteRead { addr, bytes: pointer(SENSOR_DATA), len: SENSOR_DATA_LEN as nat }
}

/// The delay of one polling period.
pub open spec fn period() -> ActionView {
    ActionView::Delay { millis: PERIOD_MILLIS as nat }
}

/// One more completion extends a run by one step.
proof fn lemma_step(phase: Phase, addr: u8, done: Seq<CompletionView>, i: int)
    requires
        0 <= i < done.len(),
    ensures
        run(phase, done.take(i + 1)) == run(phase, done.take(i)).next(done[i]),
        asked(phase, addr, done.take(i + 1)) == asked(phase, addr, done.take(i)).push(
            run(phase, done.take(i + 1)).awaited(addr).unwrap(),
        ),
        told(phase, done.take(i + 1)) == told(phase, done.take(i)) + run(
            phase,
            done.take(i),
        ).reports(done[i]),
{
    assert(done.take(i + 1).drop_last() =~= done.take(i));
}

/// The configuration write never varies: whichever unit a driver is for and
/// whatever it is handed first, the first thing it asks for is the write of
/// the same seven bytes.
pub proof fn theorem_configuration_never_varies(
    addr: u8,
    first: CompletionView,
    other_addr: u8,
    other_first: CompletionView,
)
    ensures
        Phase::Uninitialized.next(first).awaited(addr) == Some(
            ActionView::Write { addr, bytes: config_block() },
        ),
        Phase::Uninitialized.next(other_first).awaited(other_addr) == Some(
            ActionView::Write { addr: other_addr, bytes: config_block() },
        ),
        config_block() == seq![0x1Fu8, 0x0Fu8, 0x69u8, 0x69u8, 0x60u8, 0x05u8, 0x05u8],
        config_block().len() == 7,
{
}

/// The setup ends whatever fails: a driver that has not been run polls
/// after three completions, whatever they are. It has then asked for the
/// configuration write, the identification register and the first polling
/// period, and has reported that the configuration is over and what the
/// read of the register left.
pub proof fn theorem_setup_ends_whatever_fails(addr: u8, done: Seq<CompletionView>)
    requires
        done.len() == 3,
    ensures
        run(Phase::Uninitialized, done) == Phase::Period,
        run(Phase::Uninitialized, done).state() == State::Polling,
        asked(Phase::Uninitialized, addr, done) == seq![
            ActionView::Write { addr, bytes: config_block() },
            ActionView::WriteRead { addr, bytes: pointer(WHO_AM_I), len: 1 },
            period(),
        ],
        told(Phase::Uninitialized, done) == unless(done[1].ok, Report::ConfigureFailed) + seq![
            Report::Configured,
        ] + unless(done[2].ok, Report::IdProbeFailed) + seq![
            Report::WhoAmI(byte_at(done[2].data, 0)),
        ],
{
    let start = Phase::Uninitialized;
    lemma_step(start, addr, done, 0);
    lemma_step(start, addr, done, 1);
    lemma_step(start, addr, done, 2);
}

/// The sensor data are read only behind a data-ready flag that is set: the
/// read is asked for when, and only when, the read of the flag left a byte
/// whose bit 0 is set.
pub proof fn theorem_burst_only_when_ready(phase: Phase, addr: u8, done: CompletionView)
    requires
        phase != Phase::Uninitialized,
    ensures
        phase.next(done).awaited(addr) == Some(data_burst(addr)) <==> phase == Phase::ReadyCheck
            && data_ready(byte_at(done.data, 0)),
{
}

/// A poll that finds the data-ready flag clear uses the bus once: from the
/// start of a polling period the driver is at the start of the next one
/// after two completions, and has asked for the flag and for the next
/// period.
pub proof fn theorem_poll_without_data(addr: u8, done: Seq<CompletionView>)
    requires
        done.len() == 2,
        !data_ready(byte_at(done[1].data, 0)),
    ensures
        run(Phase::Period, done) == Phase::Period,
        asked(Phase::Period, addr, done) == seq![ready_check(addr), period()],
        told(Phase::Period, done) == unless(done[1].ok, Report::ReadyCheckFailed),
{
    let start = Phase::Period;
    lemma_step(start, addr, done, 0);
    lemma_step(start, addr, done, 1);
}

/// A poll that finds the data-ready flag set reads the sensor data exactly
/// once: from the start of a polling period the driver is at the start of
/// the next one after three completions, and has asked for the flag, the
/// sensor data and the next period. It has reported the acceleration that
/// the read of the sensor data left.
pub proof fn theorem_poll_with_data(addr: u8, done: Seq<CompletionView>)
    requires
        done.len() == 3,
        data_ready(byte_at(done[1].data, 0)),
    ensures
        run(Phase::Period, done) == Phase::Period,
        asked(Phase::Period, addr, done) == seq![ready_check(addr), data_burst(addr), period()],
        told(Phase::Period, done) == unless(done[1].ok, Report::ReadyCheckFailed) + unless(
            done[2].ok,
            Report::DataBurstFailed,
        ) + seq![Report::AccelX(accel_x(done[2].data))],
{
    let start = Phase::Period;
    lemma_step(start, addr, done, 0);
    lemma_step(start, addr, done, 1);
    lemma_step(start, addr, done, 2);
}

/// A driver stays with its device: whatever it is handed, it asks for one
/// action, and where that is a transaction on the bus it is one with the
/// unit at the driver's own address.
pub proof fn theorem_asks_only_its_own_device(phase: Phase, addr: u8, done: CompletionView)
    ensures
        phase.next(done).awaited(addr) is Some,
        phase.next(done).awaited(addr).unwrap().target() is Some ==> phase.next(done).awaited(
            addr,
        ).unwrap().target() == Some(addr),
{
}

/// Polling never ends: a driver that polls still polls after any
/// completions.
pub proof fn theorem_polling_is_forever(phase: Phase, done: Seq<CompletionView>)
    requires
        phase.state() == State::Polling,
    ensures
        run(phase, done).state() == State::Polling,
    decreases done.len(),
{
    if done.len() > 0 {
        theorem_polling_is_forever(phase, done.drop_last());
    }
}

/// A failure changes nothing but the report: the phase that follows is the
/// one that follows a success that left the same bytes.
pub proof fn theorem_failures_are_passed_over(
    phase: Phase,
    done: CompletionView,
    failed: CompletionView,
)
    requires
        done.ok,
        !failed.ok,
        done.data == failed.data,
    ensures
        phase.next(failed) == phase.next(done),
{
}

} // verus!
