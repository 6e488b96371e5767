//! The scheduler: one cycle at a time, at a fixed cadence, whatever the cycles run into.
//!
//! The scheduler decides; its caller acts. The caller performs each action and reports back
//! with the event that ends it: the end of the cycle, or the end of the wait.

use vstd::prelude::*;

verus! {

/// Where the scheduler stands.
#[derive(Clone, Copy, Debug, PartialEq, Eq, Structural)]
pub enum SchedulerState {
    /// Waiting for the next tick.
    Idle,
    /// One cycle is in progress.
    Running,
}

/// What the caller reports.
#[derive(Clone, Copy, Debug, PartialEq, Eq, Structural)]
pub enum SchedulerEvent {
    /// The wait is over.
    TimerFired,
    /// The cycle is over; `failed` tells whether any of its stages failed.
    CycleCompleted { failed: bool },
}

/// What the caller is to do next.
#[derive(Clone, Copy, Debug, PartialEq, Eq, Structural)]
pub enum SchedulerAction {
    /// Run one cycle, then report `CycleCompleted`.
    RunCycle,
    /// Wait for so many seconds, then report `TimerFired`.
    Sleep { seconds: u64 },
    /// The event does not belong to the current state: go on as before.
    Ignore,
}

/// The transition of the scheduler: a tick starts a cycle when none is running, and the end
/// of a cycle, failed or not, starts the full wait.
pub open spec fn transition(state: SchedulerState, interval: u16, event: SchedulerEvent) -> (
    SchedulerState,
    SchedulerAction,
) {
    match (state, event) {
        (SchedulerState::Idle, SchedulerEvent::TimerFired) => (
            SchedulerState::Running,
            SchedulerAction::RunCycle,
        ),
        (SchedulerState::Running, SchedulerEvent::CycleCompleted { failed }) => (
            SchedulerState::Idle,
            SchedulerAction::Sleep { seconds: interval as u64 },
        ),
        _ => (state, SchedulerAction::Ignore),
    }
}

/// The scheduler of one process.
#[derive(Clone, Debug, PartialEq, Eq)]
pub struct Scheduler {
    pub state: SchedulerState,
    pub interval: u16,
}

impl Scheduler {
    /// Starts the scheduler: the first cycle runs at once, before any wait.
    pub fn start(interval: u16) -> (started: (Scheduler, SchedulerAction))
        ensures
            started.0.state == SchedulerState::Running,
            started.0.interval == interval,
            started.1 == SchedulerAction::RunCycle,
    {
        (Scheduler { state: SchedulerState::Running, interval }, SchedulerAction::RunCycle)
    }

    /// Takes one event and says what to do next.
    pub fn step(&mut self, event: SchedulerEvent) -> (action: SchedulerAction)
        ensures
            (final(self).state, action) == transition(old(self).state, old(self).interval, event),
            final(self).interval == old(self).interval,
    {
        match (self.state, event) {
            (SchedulerState::Idle, SchedulerEvent::TimerFired) => {
                self.state = SchedulerState::Running;
                SchedulerAction::RunCycle
            },
            (SchedulerState::Running, SchedulerEvent::CycleCompleted { failed: _ }) => {
                self.state = SchedulerState::Idle;
                SchedulerAction::Sleep { seconds: self.interval as u64 }
            },
            _ => SchedulerAction::Ignore,
        }
    }
}

/// A cycle that failed is followed by the same wait as one that did not, and the tick after
/// that wait starts the next cycle: a failure neither stops the scheduler nor shifts its
/// cadence.
pub proof fn lemma_failure_keeps_cadence(interval: u16, failed: bool)
    ensures
        transition(SchedulerState::Running, interval, SchedulerEvent::CycleCompleted { failed })
            == (SchedulerState::Idle, SchedulerAction::Sleep { seconds: interval as u64 }),
        transition(SchedulerState::Idle, interval, SchedulerEvent::TimerFired) == (
            SchedulerState::Running,
            SchedulerAction::RunCycle,
        ),
{
}

/// Cycles never overlap, and the scheduler never stops: a cycle starts only from `Idle`, a
/// wait starts only from `Running`, and every state has an event that leads to the other.
pub proof fn lemma_one_cycle_at_a_time(state: SchedulerState, interval: u16, event: SchedulerEvent)
    ensures
        transition(state, interval, event).1 == SchedulerAction::RunCycle ==> state
            == SchedulerState::Idle && transition(state, interval, event).0
            == SchedulerState::Running,
        transition(state, interval, event).1 is Sleep ==> state == SchedulerState::Running
            && transition(state, interval, event).0 == SchedulerState::Idle,
        transition(state, interval, event).1 == SchedulerAction::Ignore ==> transition(
            state,
            interval,
            event,
        ).0 == state,
        exists|next: SchedulerEvent| transition(state, interval, next).0 != state,
{
    match state {
        SchedulerState::Idle => {
            assert(transition(state, interval, SchedulerEvent::TimerFired).0 != state);
        },
        SchedulerState::Running => {
            assert(transition(state, interval, SchedulerEvent::CycleCompleted { failed: false }).0
                != state);
        },
    }
}

/// The state that a run of events leaves the scheduler in.
pub open spec fn state_after(
    state: SchedulerState,
    interval: u16,
    events: Seq<SchedulerEvent>,
) -> SchedulerState
    decreases events.len(),
{
    if events.len() == 0 {
        state
    } else {
        transition(state_after(state, interval, events.drop_last()), interval, events.last()).0
    }
}

/// The number of cycles that a run of events starts.
pub open spec fn cycles_started(
    state: SchedulerState,
    interval: u16,
    events: Seq<SchedulerEvent>,
) -> nat
    decreases events.len(),
{
    if events.len() == 0 {
        0
    } else {
        let before = state_after(state, interval, events.drop_last());
        let started = cycles_started(state, interval, events.drop_last());
        if transition(before, interval, events.last()).1 == SchedulerAction::RunCycle {
            started + 1
        } else {
            started
        }
    }
}

/// The number of cycles that a run of events ends, each followed by its wait.
pub open spec fn cycles_ended(
    state: SchedulerState,
    interval: u16,
    events: Seq<SchedulerEvent>,
) -> nat
    decreases events.len(),
{
    if events.len() == 0 {
        0
    } else {
        let before = state_after(state, interval, events.drop_last());
        let ended = cycles_ended(state, interval, events.drop_last());
        if transition(before, interval, events.last()).1 is Sleep {
            ended + 1
        } else {
            ended
        }
    }
}

/// The number of cycles in progress in a state: one while running, none while idle.
pub open spec fn in_progress(state: SchedulerState) -> nat {
    match state {
        SchedulerState::Running => 1,
        SchedulerState::Idle => 0,
    }
}

/// Whatever events arrive, in whatever order, every cycle that was started and has not
/// ended is the one in progress: there is never more than one.
pub proof fn lemma_cycles_never_overlap(
    state: SchedulerState,
    interval: u16,
    events: Seq<SchedulerEvent>,
)
    ensures
        in_progress(state) + cycles_started(state, interval, events) == cycles_ended(
            state,
            interval,
            events,
        ) + in_progress(state_after(state, interval, events)),
        in_progress(state_after(state, interval, events)) <= 1,
    decreases events.len(),
{
    if events.len() > 0 {
        lemma_cycles_never_overlap(state, interval, events.drop_last());
    }
}

} // verus!
