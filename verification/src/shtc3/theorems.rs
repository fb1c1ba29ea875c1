//! What holds of every run of the SHTC3 driver.
//!
//! A run is told by the completions that the driver is handed, one after
//! another. The theorems speak of the phase that a run ends in, of the
//! actions that the driver asks for along the way and of the lines that it
//! reports.

use crate::shtc3::{
    Command, Phase, Reading, Report, State, BACKOFF_MILLIS, CONVERSION_MILLIS, ID_LEN,
    PERIOD_MILLIS, RESULT_LEN, SETTLE_MILLIS,
};
use crate::transport::{unless, ActionView, CompletionView};
use vstd::prelude::*;

verus! {

/// The phase that a driver in `phase` is in once it has been handed the
/// completions `done`, one after another.
pub open spec fn run(phase: Phase, done: Seq<CompletionView>) -> Phase
    decreases done.len(),
{
    if done.len() == 0 {
        phase
    } else {
        run(phase, done.drop_last()).next(done.last())
    }
}

/// The actions that a driver in `phase` for the sensor at `addr` asks for
/// while it is handed the completions `done`: one for each completion.
pub open spec fn asked(phase: Phase, addr: u8, done: Seq<CompletionView>) -> Seq<ActionView>
    decreases done.len(),
{
    if done.len() == 0 {
        Seq::empty()
    } else {
        asked(phase, addr, done.drop_last()).push(run(phase, done).awaited(addr).unwrap())
    }
}

/// The lines that a driver in `phase` reports while it is handed the
/// completions `done`.
pub open spec fn told(phase: Phase, done: Seq<CompletionView>) -> Seq<Report>
    decreases done.len(),
{
    if done.len() == 0 {
        Seq::empty()
    } else {
        told(phase, done.drop_last()) + run(phase, done.drop_last()).reports(done.last())
    }
}

/// The sleep command to the sensor at `addr`.
pub open spec fn sleep(addr: u8) -> ActionView {
    ActionView::Write { addr, bytes: Command::Sleep.bytes() }
}

/// The wake command to the sensor at `addr`.
pub open spec fn wake(addr: u8) -> ActionView {
    ActionView::Write { addr, bytes: Command::Wake.bytes() }
}

/// A delay of `millis` milliseconds.
pub open spec fn pause(millis: u64) -> ActionView {
    ActionView::Delay { millis: millis as nat }
}

/// What the driver asks for in and after `n` attempts to put the sensor to
/// sleep that fail: each time the command, then the backoff, then the settle
/// time that goes before the next attempt.
pub open spec fn retries(addr: u8, n: nat) -> Seq<ActionView>
    decreases n,
{
    if n == 0 {
        Seq::empty()
    } else {
        retries(addr, (n - 1) as nat) + seq![
            sleep(addr),
            pause(BACKOFF_MILLIS),
            pause(SETTLE_MILLIS),
        ]
    }
}

/// Whether `done` tells of attempts to put the sensor to sleep that all
/// fail, as a driver that waits for the settle time before an attempt sees
/// them: of every three completions the second is that of the sleep command.
pub open spec fn every_attempt_fails(done: Seq<CompletionView>) -> bool {
    forall|k: int| 0 <= k < done.len() && k % 3 == 1 ==> !(#[trigger] done[k]).ok
}

/// One more completion extends a run by one step.
proof fn lemma_step(phase: Phase, addr: u8, done: Seq<CompletionView>, i: int)
    requires
        0 <= i < done.len(),
    ensures
        run(phase, done.take(i + 1)) == run(phase, done.take(i)).next(done[i]),
        asked(phase, addr, done.take(i + 1)) == asked(phase, addr, done.take(i)).push(
            run(phase, done.take(i + 1)).awaited(addr).unwrap(),
        ),
        told(phase, done.take(i + 1)) == told(phase, done.take(i)) + run(
            phase,
            done.take(i),
        ).reports(done[i]),
{
    assert(done.take(i + 1).drop_last() =~= done.take(i));
}

/// A run in two parts is the first part, then the second part from where the
/// first one ended.
pub proof fn lemma_run_in_two_parts(
    phase: Phase,
    addr: u8,
    first: Seq<CompletionView>,
    second: Seq<CompletionView>,
)
    ensures
        run(phase, first + second) == run(run(phase, first), second),
        asked(phase, addr, first + second) == asked(phase, addr, first) + asked(
            run(phase, first),
            addr,
            second,
        ),
        told(phase, first + second) == told(phase, first) + told(run(phase, first), second),
    decreases second.len(),
{
    if second.len() > 0 {
        lemma_run_in_two_parts(phase, addr, first, second.drop_last());
        assert((first + second).drop_last() =~= first + second.drop_last());
    }
}

/// The first sleep command is repeated for as long as it fails: after any
/// number `n` of failed attempts the driver is still configuring and waits
/// for the settle time that goes before the next attempt. Between two
/// attempts it has asked for the backoff and for the settle time, and for
/// nothing else. Whatever the settle time ends with, the next thing asked
/// for is the sleep command again.
pub proof fn theorem_sleep_is_retried_without_end(addr: u8, done: Seq<CompletionView>, n: nat)
    requires
        done.len() == 3 * n,
        every_attempt_fails(done),
    ensures
        run(Phase::BeforeSleep, done) == Phase::BeforeSleep,
        asked(Phase::BeforeSleep, addr, done) == retries(addr, n),
        told(Phase::BeforeSleep, done) == Seq::new(n, |i: int| Report::SleepFailed),
        forall|settled: CompletionView|
            #![trigger done.push(settled)]
            run(Phase::BeforeSleep, done.push(settled)) == Phase::Sleep && asked(
                Phase::BeforeSleep,
                addr,
                done.push(settled),
            ).last() == sleep(addr),
    decreases n,
{
    let start = Phase::BeforeSleep;
    if n > 0 {
        let before = done.take(3 * n - 3);
        theorem_sleep_is_retried_without_end(addr, before, (n - 1) as nat);
        lemma_step(start, addr, done, 3 * n - 3);
        lemma_step(start, addr, done, 3 * n - 2);
        lemma_step(start, addr, done, 3 * n - 1);
        assert(done.take(3 * n as int) =~= done);
    }
    assert forall|settled: CompletionView|
        #![trigger done.push(settled)]
        run(start, done.push(settled)) == Phase::Sleep && asked(
            start,
            addr,
            done.push(settled),
        ).last() == sleep(addr) by {
        assert(done.push(settled).drop_last() =~= done);
    }
}

/// An attempt to put the sensor to sleep that succeeds ends the
/// configuring, and nothing else does.
pub proof fn theorem_only_success_ends_configuring(phase: Phase, done: CompletionView)
    requires
        phase.state() == State::Configuring,
    ensures
        phase.next(done).state() != State::Configuring <==> phase == Phase::Sleep && done.ok,
        phase == Phase::Sleep && done.ok ==> phase.next(done) == Phase::Wake && phase.reports(done)
            == seq![Report::SleepSucceeded],
{
}

/// The check of the identification register holds nothing up: from the wake
/// command on, the setup is over after five completions, whatever they are,
/// and so whatever the register was read as. The driver has then asked for
/// the wake time, the register, the sleep command, the settle time and the
/// first polling period, and the last line it reported is that the setup is
/// over.
pub proof fn theorem_setup_ends_whatever_the_id(addr: u8, done: Seq<CompletionView>)
    requires
        done.len() == 5,
    ensures
        run(Phase::Wake, done) == Phase::Period,
        run(Phase::Wake, done).state() == State::Polling,
        asked(Phase::Wake, addr, done) == seq![
            pause(SETTLE_MILLIS),
            ActionView::WriteRead { addr, bytes: Command::ReadId.bytes(), len: ID_LEN as nat },
            sleep(addr),
            pause(SETTLE_MILLIS),
            pause(PERIOD_MILLIS),
        ],
        told(Phase::Wake, done) == unless(done[0].ok, Report::WakeFailed) + Phase::ReadId.reports(
            done[2],
        ) + unless(done[3].ok, Report::RestFailed) + seq![Report::Configured],
        told(Phase::Wake, done).last() == Report::Configured,
{
    let start = Phase::Wake;
    lemma_step(start, addr, done, 0);
    lemma_step(start, addr, done, 1);
    lemma_step(start, addr, done, 2);
    lemma_step(start, addr, done, 3);
    lemma_step(start, addr, done, 4);
}

/// However often the first sleep command fails before it succeeds, the
/// setup then runs to its end: seven completions after the last failed
/// attempt, the second of them the success, the driver polls.
pub proof fn theorem_setup_ends_once_sleep_succeeds(
    addr: u8,
    failed: Seq<CompletionView>,
    n: nat,
    settled: CompletionView,
    slept: CompletionView,
    rest: Seq<CompletionView>,
)
    requires
        failed.len() == 3 * n,
        every_attempt_fails(failed),
        slept.ok,
        rest.len() == 5,
    ensures
        run(Phase::BeforeSleep, failed + seq![settled, slept] + rest) == Phase::Period,
        run(Phase::BeforeSleep, failed + seq![settled, slept] + rest).state() == State::Polling,
{
    let start = Phase::BeforeSleep;
    let success = seq![settled, slept];
    theorem_sleep_is_retried_without_end(addr, failed, n);
    lemma_run_in_two_parts(start, addr, failed, success);
    lemma_step(start, addr, success, 0);
    lemma_step(start, addr, success, 1);
    lemma_run_in_two_parts(start, addr, failed + success, rest);
    theorem_setup_ends_whatever_the_id(addr, rest);
}

/// A measurement runs to its end whatever fails on the way: from the start
/// of a polling period the driver is at the start of the next one after
/// eight completions, whatever they are. It has then asked for the wake
/// command, the wake time, the measure command, the conversion time, the
/// result block, the sleep command, the settle time and the next period, in
/// this order. It has reported each command that failed, and at the end the
/// reading that the result block holds.
pub proof fn theorem_measurement_runs_to_its_end(addr: u8, done: Seq<CompletionView>)
    requires
        done.len() == 8,
    ensures
        run(Phase::Period, done) == Phase::Period,
        asked(Phase::Period, addr, done) == seq![
            wake(addr),
            pause(SETTLE_MILLIS),
            ActionView::Write { addr, bytes: Command::Measure.bytes() },
            pause(CONVERSION_MILLIS),
            ActionView::Read { addr, len: RESULT_LEN as nat },
            sleep(addr),
            pause(SETTLE_MILLIS),
            pause(PERIOD_MILLIS),
        ],
        told(Phase::Period, done) == unless(done[1].ok, Report::PollWakeFailed) + unless(
            done[3].ok,
            Report::MeasureFailed,
        ) + unless(done[5].ok, Report::ReadResultFailed) + unless(
            done[6].ok,
            Report::PollSleepFailed,
        ) + seq![Report::Measured(Reading::of(done[5].data))],
{
    let start = Phase::Period;
    lemma_step(start, addr, done, 0);
    lemma_step(start, addr, done, 1);
    lemma_step(start, addr, done, 2);
    lemma_step(start, addr, done, 3);
    lemma_step(start, addr, done, 4);
    lemma_step(start, addr, done, 5);
    lemma_step(start, addr, done, 6);
    lemma_step(start, addr, done, 7);
}

/// A driver stays with its device: whatever it is handed, it asks for one
/// action, and where that is a transaction on the bus it is one with the
/// sensor at the driver's own address.
pub proof fn theorem_asks_only_its_own_device(phase: Phase, addr: u8, done: CompletionView)
    ensures
        phase.next(done).awaited(addr) is Some,
        phase.next(done).awaited(addr).unwrap().target() is Some ==> phase.next(done).awaited(
            addr,
        ).unwrap().target() == Some(addr),
{
}

/// Polling never ends: a driver that polls still polls after any
/// completions.
pub proof fn theorem_polling_is_forever(phase: Phase, done: Seq<CompletionView>)
    requires
        phase.state() == State::Polling,
    ensures
        run(phase, done).state() == State::Polling,
    decreases done.len(),
{
    if done.len() > 0 {
        theorem_polling_is_forever(phase, done.drop_last());
    }
}

/// But for the first sleep command, a failure changes nothing but the
/// report: the phase that follows is the one that follows a success that
/// left the same bytes.
pub proof fn theorem_failures_are_passed_over(
    phase: Phase,
    done: CompletionView,
    failed: CompletionView,
)
    requires
        phase != Phase::Sleep,
        done.ok,
        !failed.ok,
        done.data == failed.data,
    ensures
        phase.next(failed) == phase.next(done),
{
}

} // verus!
