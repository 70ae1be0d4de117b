// SPDX-License-Identifier: AGPL-3.0-only

//! The decisions of the clock tick engine.
//!
//! The engine keeps a timer armed for the top of the next minute. The timer
//! is one that the operating system cancels when the wall clock is set, so
//! the engine hears of a stepped clock instead of drifting. The program
//! around the library owns the timer: it waits, reads, and tells the engine
//! what it saw; the engine answers with what is to be done, in order.

use super::deadline::{
    can_find_next_minute, get_next_minute_absolute_timespec, next_minute, ClockTime,
    SECONDS_PER_MINUTE,
};
use nix::errno::Errno;
use vstd::prelude::*;

verus! {

/// The three things that the engine can tell its listener.
#[derive(Copy, Clone, Debug, PartialEq, Eq, Structural)]
pub enum TickCallback {
    /// A minute boundary has passed.
    ChangedMinute,
    /// The timer was only just armed: a boundary or a step before that may
    /// have gone unseen.
    MinuteMaybeLost,
    /// The wall clock was stepped while the timer was armed.
    AdjustmentHappened,
}

/// Why the engine has stopped.
#[derive(Copy, Clone, Debug, PartialEq, Eq, Structural)]
pub enum TickError {
    /// The operating system failed the timer with this error number.
    Os(i32),
    /// The timer failed with an error that carries no error number.
    NotFromOs,
    /// The clock shows a time from which no next minute can be worked out.
    ClockOutOfRange,
    /// The listener returned an error from a notification.
    CallbackFailed,
}

/// What the engine is told.
#[derive(Copy, Clone, Debug, PartialEq, Eq, Structural)]
pub enum TickEvent {
    /// The timer ran to its deadline.
    MinuteExpired,
    /// The timer was cancelled because the wall clock was set.
    ClockStepped,
    /// The program was woken but the timer had nothing to report.
    SpuriousWake,
    /// The timer, or the wait for it, failed for good.
    TimerFailed(TickError),
    /// The listener returned an error from the last notification.
    CallbackFailed,
}

/// One thing that the engine asks the program to do.
#[derive(Copy, Clone, Debug, PartialEq, Eq, Structural)]
pub enum TickAction {
    /// Arm the timer: first expiry at `deadline` on the wall clock, then every
    /// `interval_seconds`, cancelled if the clock is set.
    Arm { deadline: ClockTime, interval_seconds: i64 },
    /// Call the listener.
    Notify(TickCallback),
}

/// Where the engine stands between two events.
#[derive(Copy, Clone, Debug, PartialEq, Eq, Structural)]
pub enum TickState {
    /// The timer is armed for this deadline. The only steady state.
    Armed(ClockTime),
    /// The engine has stopped for good.
    Stopped(TickError),
}

/// Arming at `now`: the state after it, and what is to be done for it. The
/// timer is set for the top of the next minute and the listener is told that
/// a minute may have been lost, for the timer sees nothing that happened
/// before it was armed. Where no next minute can be worked out the engine
/// stops and nothing is done.
pub open spec fn arm(now: ClockTime) -> (TickState, Seq<TickAction>) {
    if can_find_next_minute(now) {
        (
            TickState::Armed(next_minute(now)),
            seq![
                TickAction::Arm {
                    deadline: next_minute(now),
                    interval_seconds: SECONDS_PER_MINUTE,
                },
                TickAction::Notify(TickCallback::MinuteMaybeLost),
            ],
        )
    } else {
        (TickState::Stopped(TickError::ClockOutOfRange), Seq::empty())
    }
}

/// The state after `event`, seen at time `now` in `state`, and what is to be
/// done for it, in order.
///
/// - A minute that expired is announced, then the timer is armed afresh.
/// - After a step of the clock the timer is armed afresh first and the step
///   announced last, so that a second step during the announcement is not
///   lost; if the timer cannot be armed the step is not announced.
/// - A spurious wake changes nothing.
/// - A failure stops the engine, and a stopped engine stays stopped.
pub open spec fn step(state: TickState, event: TickEvent, now: ClockTime) -> (
    TickState,
    Seq<TickAction>,
) {
    match state {
        TickState::Stopped(_) => (state, Seq::empty()),
        TickState::Armed(_) => match event {
            TickEvent::MinuteExpired => (
                arm(now).0,
                seq![TickAction::Notify(TickCallback::ChangedMinute)] + arm(now).1,
            ),
            TickEvent::ClockStepped => if arm(now).0 is Armed {
                (
                    arm(now).0,
                    arm(now).1 + seq![TickAction::Notify(TickCallback::AdjustmentHappened)],
                )
            } else {
                arm(now)
            },
            TickEvent::SpuriousWake => (state, Seq::empty()),
            TickEvent::TimerFailed(error) => (TickState::Stopped(error), Seq::empty()),
            TickEvent::CallbackFailed => (
                TickState::Stopped(TickError::CallbackFailed),
                Seq::empty(),
            ),
        },
    }
}

/// Arms the timer at `now`. This is how the engine starts, and how it goes on
/// after each expiry and each step of the clock.
pub fn start_ticking(now: ClockTime) -> (begun: (TickState, Vec<TickAction>))
    requires
        now.well_formed(),
    ensures
        begun.0 == arm(now).0,
        begun.1@ == arm(now).1,
{
    match get_next_minute_absolute_timespec(now) {
        Ok(deadline) => {
            let mut actions: Vec<TickAction> = Vec::new();
            actions.push(TickAction::Arm { deadline, interval_seconds: SECONDS_PER_MINUTE });
            actions.push(TickAction::Notify(TickCallback::MinuteMaybeLost));
            assert(actions@ =~= arm(now).1);
            (TickState::Armed(deadline), actions)
        },
        Err(_) => (TickState::Stopped(TickError::ClockOutOfRange), Vec::new()),
    }
}

/// Takes one event: gives the state after it and what the program is to do,
/// in order, before it waits again. A program that gets `Stopped` back ends
/// its loop with that error.
pub fn tick_every_minute(state: TickState, event: TickEvent, now: ClockTime) -> (next: (
    TickState,
    Vec<TickAction>,
))
    requires
        now.well_formed(),
    ensures
        next.0 == step(state, event, now).0,
        next.1@ == step(state, event, now).1,
{
    match state {
        TickState::Stopped(_) => (state, Vec::new()),
        TickState::Armed(_) => match event {
            TickEvent::MinuteExpired => {
                let (armed, arming) = start_ticking(now);
                let mut actions: Vec<TickAction> = Vec::new();
                actions.push(TickAction::Notify(TickCallback::ChangedMinute));
                let mut arming = arming;
                actions.append(&mut arming);
                assert(actions@ =~= step(state, event, now).1);
                (armed, actions)
            },
            TickEvent::ClockStepped => {
                let (armed, arming) = start_ticking(now);
                let mut actions = arming;
                match armed {
                    TickState::Armed(_) => {
                        actions.push(TickAction::Notify(TickCallback::AdjustmentHappened));
                    },
                    TickState::Stopped(_) => {},
                }
                (armed, actions)
            },
            TickEvent::SpuriousWake => (state, Vec::new()),
            TickEvent::TimerFailed(error) => (TickState::Stopped(error), Vec::new()),
            TickEvent::CallbackFailed => (
                TickState::Stopped(TickError::CallbackFailed),
                Vec::new(),
            ),
        },
    }
}

/// What an error number of the operating system means to the engine.
#[derive(Copy, Clone, Debug, PartialEq, Eq, Structural)]
pub enum ErrnoKind {
    /// The operation was cancelled: for the tick timer, the clock was set.
    Canceled,
    /// Nothing to read yet; try again.
    WouldBlock,
    /// Any other error.
    Other,
}

/// What the program saw when it waited for the timer and then read it.
#[derive(Copy, Clone, Debug, PartialEq, Eq, Structural)]
pub enum TimerReport {
    /// The read succeeded: the timer has expired.
    Expired,
    /// The read failed, with this error number if the error carries one.
    ReadFailed(Option<i32>),
    /// The wait for the timer failed, with this error number if the error
    /// carries one.
    WaitFailed(Option<i32>),
}

/// nix's `Errno::from_raw`, and which of the errors that matter to the engine
/// came out of it: `ECANCELED`, `EAGAIN`, or another. Which number stands for
/// which error differs from one kind of machine to the next, so nothing is
/// promised of the answer.
#[verifier::external_body]
fn errno_kind(raw: i32) -> ErrnoKind {
    match Errno::from_raw(raw) {
        Errno::ECANCELED => ErrnoKind::Canceled,
        Errno::EAGAIN => ErrnoKind::WouldBlock,
        _ => ErrnoKind::Other,
    }
}

/// The event that a report is, where `kind` says what the error number in
/// it means, if there is one.
///
/// - A read that succeeded is an expired minute.
/// - A cancelled read or wait is a step of the clock.
/// - A read with nothing to read is a spurious wake. A wait has no such
///   excuse: every other error of a wait is a failure.
/// - Every other error is a failure, with its number where it has one.
pub open spec fn report_event(report: TimerReport, kind: ErrnoKind) -> TickEvent {
    match report {
        TimerReport::Expired => TickEvent::MinuteExpired,
        TimerReport::ReadFailed(None) => TickEvent::TimerFailed(TickError::NotFromOs),
        TimerReport::WaitFailed(None) => TickEvent::TimerFailed(TickError::NotFromOs),
        TimerReport::ReadFailed(Some(raw)) => match kind {
            ErrnoKind::Canceled => TickEvent::ClockStepped,
            ErrnoKind::WouldBlock => TickEvent::SpuriousWake,
            ErrnoKind::Other => TickEvent::TimerFailed(TickError::Os(raw)),
        },
        TimerReport::WaitFailed(Some(raw)) => match kind {
            ErrnoKind::Canceled => TickEvent::ClockStepped,
            _ => TickEvent::TimerFailed(TickError::Os(raw)),
        },
    }
}

/// Turns a report into an event, given what the error number in it means.
pub fn event_of_report(report: TimerReport, kind: ErrnoKind) -> (event: TickEvent)
    ensures
        event == report_event(report, kind),
{
    match report {
        TimerReport::Expired => TickEvent::MinuteExpired,
        TimerReport::ReadFailed(None) | TimerReport::WaitFailed(None) => TickEvent::TimerFailed(
            TickError::NotFromOs,
        ),
        TimerReport::ReadFailed(Some(raw)) => match kind {
            ErrnoKind::Canceled => TickEvent::ClockStepped,
            ErrnoKind::WouldBlock => TickEvent::SpuriousWake,
            ErrnoKind::Other => TickEvent::TimerFailed(TickError::Os(raw)),
        },
        TimerReport::WaitFailed(Some(raw)) => match kind {
            ErrnoKind::Canceled => TickEvent::ClockStepped,
            _ => TickEvent::TimerFailed(TickError::Os(raw)),
        },
    }
}

/// Turns a report into an event. The meaning of an error number is looked up
/// on the machine at hand, so for a report with an error number the event is
/// one of those that some meaning gives; every other report has one event.
pub fn classify_report(report: TimerReport) -> (event: TickEvent)
    ensures
        exists|kind: ErrnoKind| event == report_event(report, kind),
        !(event is CallbackFailed),
        report is Expired <==> event is MinuteExpired,
{
    let kind = match report {
        TimerReport::ReadFailed(Some(raw)) => errno_kind(raw),
        TimerReport::WaitFailed(Some(raw)) => errno_kind(raw),
        _ => ErrnoKind::Other,
    };
    event_of_report(report, kind)
}

/// The state after a run of events, each with the time at which it was seen,
/// and everything that was to be done along the way, in order.
pub open spec fn run(state: TickState, events: Seq<(TickEvent, ClockTime)>) -> (
    TickState,
    Seq<TickAction>,
)
    decreases events.len(),
{
    if events.len() == 0 {
        (state, Seq::empty())
    } else {
        let before = run(state, events.drop_last());
        let last = step(before.0, events.last().0, events.last().1);
        (last.0, before.1 + last.1)
    }
}

/// How often the listener is told `callback` in the course of `actions`.
pub open spec fn notified(actions: Seq<TickAction>, callback: TickCallback) -> nat
    decreases actions.len(),
{
    if actions.len() == 0 {
        0
    } else {
        notified(actions.drop_last(), callback) + if actions.last() == TickAction::Notify(
            callback,
        ) {
            1nat
        } else {
            0nat
        }
    }
}

/// How often `event` occurs among `events`.
pub open spec fn occurrences(events: Seq<(TickEvent, ClockTime)>, event: TickEvent) -> nat
    decreases events.len(),
{
    if events.len() == 0 {
        0
    } else {
        occurrences(events.drop_last(), event) + if events.last().0 == event {
            1nat
        } else {
            0nat
        }
    }
}

/// Whether every arming of the timer in `actions` is followed at once by the
/// warning that a minute may have been lost.
pub open spec fn every_arm_warns(actions: Seq<TickAction>) -> bool {
    forall|i: int|
        0 <= i < actions.len() && #[trigger] actions[i] is Arm ==> i + 1 < actions.len()
            && actions[i + 1] == TickAction::Notify(TickCallback::MinuteMaybeLost)
}

/// Counting over two runs of actions, one after the other, adds up.
pub proof fn lemma_notified_concat(
    first: Seq<TickAction>,
    second: Seq<TickAction>,
    callback: TickCallback,
)
    ensures
        notified(first + second, callback) == notified(first, callback) + notified(
            second,
            callback,
        ),
    decreases second.len(),
{
    if second.len() == 0 {
        assert(first + second =~= first);
    } else {
        assert((first + second).drop_last() =~= first + second.drop_last());
        lemma_notified_concat(first, second.drop_last(), callback);
    }
}

/// What one step tells the listener: of a passed minute once for an expired
/// minute and never else, and of an adjustment once for a step of the clock
/// after which the timer could be armed, and never else. Where a step arms
/// the timer it warns at once that a minute may have been lost.
pub proof fn lemma_step_notifies(state: TickState, event: TickEvent, now: ClockTime)
    ensures
        notified(step(state, event, now).1, TickCallback::ChangedMinute) == if state is Armed
            && event == TickEvent::MinuteExpired {
            1nat
        } else {
            0nat
        },
        notified(step(state, event, now).1, TickCallback::AdjustmentHappened) == if state is Armed
            && event == TickEvent::ClockStepped && step(state, event, now).0 is Armed {
            1nat
        } else {
            0nat
        },
        every_arm_warns(step(state, event, now).1),
{
    reveal_with_fuel(notified, 4);
    let actions = step(state, event, now).1;
    let arming = arm(now).1;
    if state is Armed {
        match event {
            TickEvent::MinuteExpired => {
                let first = seq![TickAction::Notify(TickCallback::ChangedMinute)];
                lemma_notified_concat(first, arming, TickCallback::ChangedMinute);
                lemma_notified_concat(first, arming, TickCallback::AdjustmentHappened);
                assert(arming.len() == 0 || arming.drop_last().drop_last() =~= Seq::empty());
                assert(first.drop_last() =~= Seq::empty());
            },
            TickEvent::ClockStepped => {
                if arm(now).0 is Armed {
                    let last = seq![TickAction::Notify(TickCallback::AdjustmentHappened)];
                    lemma_notified_concat(arming, last, TickCallback::ChangedMinute);
                    lemma_notified_concat(arming, last, TickCallback::AdjustmentHappened);
                    assert(arming.drop_last().drop_last() =~= Seq::empty());
                    assert(last.drop_last() =~= Seq::empty());
                }
            },
            _ => {},
        }
    }
}

/// Over any run of events that leaves the engine armed, the listener was
/// told of a passed minute exactly once for every minute that expired, and
/// of an adjustment exactly once for every step of the clock.
pub proof fn lemma_one_notification_per_event(
    state: TickState,
    events: Seq<(TickEvent, ClockTime)>,
)
    requires
        run(state, events).0 is Armed,
    ensures
        state is Armed,
        notified(run(state, events).1, TickCallback::ChangedMinute) == occurrences(
            events,
            TickEvent::MinuteExpired,
        ),
        notified(run(state, events).1, TickCallback::AdjustmentHappened) == occurrences(
            events,
            TickEvent::ClockStepped,
        ),
    decreases events.len(),
{
    if events.len() > 0 {
        let before = run(state, events.drop_last());
        let last = step(before.0, events.last().0, events.last().1);
        lemma_one_notification_per_event(state, events.drop_last());
        lemma_step_notifies(before.0, events.last().0, events.last().1);
        lemma_notified_concat(before.1, last.1, TickCallback::ChangedMinute);
        lemma_notified_concat(before.1, last.1, TickCallback::AdjustmentHappened);
    }
}

/// Two runs of actions that each warn after every arming still do so when
/// one follows the other.
pub proof fn lemma_every_arm_warns_concat(first: Seq<TickAction>, second: Seq<TickAction>)
    requires
        every_arm_warns(first),
        every_arm_warns(second),
    ensures
        every_arm_warns(first + second),
{
    let whole = first + second;
    assert forall|i: int| 0 <= i < whole.len() && #[trigger] whole[i] is Arm implies i + 1
        < whole.len() && whole[i + 1] == TickAction::Notify(TickCallback::MinuteMaybeLost) by {
        if i < first.len() {
            assert(first[i] is Arm);
            assert(whole[i + 1] == first[i + 1]);
        } else {
            assert(second[i - first.len()] is Arm);
            assert(whole[i + 1] == second[i + 1 - first.len()]);
        }
    }
}

/// Over any run of events, every arming of the timer is followed at once by
/// the warning that a minute may have been lost.
pub proof fn lemma_run_warns_after_every_arm(
    state: TickState,
    events: Seq<(TickEvent, ClockTime)>,
)
    ensures
        every_arm_warns(run(state, events).1),
    decreases events.len(),
{
    if events.len() > 0 {
        let before = run(state, events.drop_last());
        lemma_run_warns_after_every_arm(state, events.drop_last());
        lemma_step_notifies(before.0, events.last().0, events.last().1);
        lemma_every_arm_warns_concat(
            before.1,
            step(before.0, events.last().0, events.last().1).1,
        );
    }
}

/// From its start on, the engine warns that a minute may have been lost
/// before it tells anything else: where it can start at all, the first thing
/// done is to arm the timer and the second is the warning, and every later
/// arming is followed at once by the warning too.
pub proof fn lemma_warns_before_all_else(now: ClockTime, events: Seq<(TickEvent, ClockTime)>)
    ensures
        every_arm_warns(arm(now).1 + run(arm(now).0, events).1),
        arm(now).0 is Armed ==> (arm(now).1 + run(arm(now).0, events).1)[0] is Arm && (arm(now).1
            + run(arm(now).0, events).1)[1] == TickAction::Notify(TickCallback::MinuteMaybeLost),
        arm(now).0 is Stopped ==> arm(now).1 + run(arm(now).0, events).1 == Seq::<
            TickAction,
        >::empty(),
{
    lemma_run_warns_after_every_arm(arm(now).0, events);
    lemma_every_arm_warns_concat(arm(now).1, run(arm(now).0, events).1);
    if arm(now).0 is Stopped {
        lemma_stopped_stays(arm(now).0, events);
        assert(arm(now).1 + run(arm(now).0, events).1 =~= Seq::<TickAction>::empty());
    }
}

/// A stopped engine stays stopped and asks for nothing more.
pub proof fn lemma_stopped_stays(state: TickState, events: Seq<(TickEvent, ClockTime)>)
    requires
        state is Stopped,
    ensures
        run(state, events).0 == state,
        run(state, events).1 == Seq::<TickAction>::empty(),
    decreases events.len(),
{
    if events.len() > 0 {
        lemma_stopped_stays(state, events.drop_last());
    }
}

/// Whether the engine can go on after every one of `events`: none is a
/// failure, and each was seen at a time from which the next minute can be
/// worked out.
pub open spec fn all_survivable(events: Seq<(TickEvent, ClockTime)>) -> bool {
    forall|i: int|
        0 <= i < events.len() ==> !((#[trigger] events[i]).0 is TimerFailed) && !(events[i].0
            is CallbackFailed) && can_find_next_minute(events[i].1)
}

/// Expired minutes, steps of the clock and spurious wakes, at times that the
/// engine can work with, never stop it.
pub proof fn lemma_engine_stays_armed(state: TickState, events: Seq<(TickEvent, ClockTime)>)
    requires
        state is Armed,
        all_survivable(events),
    ensures
        run(state, events).0 is Armed,
    decreases events.len(),
{
    if events.len() > 0 {
        assert forall|i: int| 0 <= i < events.drop_last().len() implies !((
        #[trigger] events.drop_last()[i]).0 is TimerFailed) && !(events.drop_last()[i].0
            is CallbackFailed) && can_find_next_minute(events.drop_last()[i].1) by {
            assert(events.drop_last()[i] == events[i]);
        }
        lemma_engine_stays_armed(state, events.drop_last());
        assert(events.last() == events[events.len() - 1]);
    }
}

/// For any run of expired minutes and steps of the clock, seen at times that
/// the engine can work with: the listener is told of a passed minute exactly
/// once for every minute that expired, and of an adjustment exactly once for
/// every step.
pub proof fn lemma_every_tick_and_step_is_told(
    state: TickState,
    events: Seq<(TickEvent, ClockTime)>,
)
    requires
        state is Armed,
        all_survivable(events),
    ensures
        notified(run(state, events).1, TickCallback::ChangedMinute) == occurrences(
            events,
            TickEvent::MinuteExpired,
        ),
        notified(run(state, events).1, TickCallback::AdjustmentHappened) == occurrences(
            events,
            TickEvent::ClockStepped,
        ),
{
    lemma_engine_stays_armed(state, events);
    lemma_one_notification_per_event(state, events);
}

} // verus!
