//! The priority that a monitor holds for its job.
//!
//! While a monitor is active its job runs at foreground priority. When the
//! monitor ends, by whichever path, the job goes back to normal priority, and
//! the request for that is issued once.
use vstd::prelude::*;
use crate::status::Guid;

verus! {

/// Whether a job's priority is raised on behalf of a monitor.
#[derive(Clone, Copy, Debug, PartialEq, Eq, Structural)]
pub enum PriorityState {
    /// No monitor holds the job at foreground priority.
    Idle,
    /// A monitor holds the job at foreground priority.
    Boosted,
}

/// What can happen to the monitor of one job.
#[derive(Clone, Copy, Debug, PartialEq, Eq, Structural)]
pub enum MonitorEvent {
    /// A monitor was created for the job, or attached to it, to report every
    /// `interval_millis` milliseconds.
    Created { interval_millis: u32 },
    /// The monitor was asked for a status.
    Polled,
    /// Updates were stopped.
    Stopped,
    /// The job was completed.
    JobCompleted,
    /// The job was cancelled.
    JobCancelled,
    /// The monitor's handle was given up.
    Dropped,
}

/// A request to set the priority of one job.
#[derive(Clone, Copy, Debug, PartialEq, Eq, Structural)]
pub struct PriorityChange {
    pub guid: Guid,
    /// Foreground priority if set, normal priority if not.
    pub foreground: bool,
}

/// Outcome of one event: the state after it, and the priority to request of
/// the service, if any.
#[derive(Clone, Copy, Debug, PartialEq, Eq, Structural)]
pub struct PriorityStep {
    pub state: PriorityState,
    /// `Some(true)` asks for foreground, `Some(false)` for normal priority.
    pub request: Option<bool>,
}

impl MonitorEvent {
    /// Whether the event ends the monitor.
    pub open spec fn ends_monitor(self) -> bool {
        self is Stopped || self is JobCompleted || self is JobCancelled || self is Dropped
    }
}

/// The transition of the priority state on one event.
///
/// Creation always boosts. A poll changes nothing. An event that ends the
/// monitor restores normal priority if the job was boosted, and asks for
/// nothing if it was not.
pub open spec fn priority_step(state: PriorityState, event: MonitorEvent) -> PriorityStep {
    match event {
        MonitorEvent::Created { .. } => PriorityStep {
            state: PriorityState::Boosted,
            request: Some(true),
        },
        MonitorEvent::Polled => PriorityStep { state, request: None },
        _ => match state {
            PriorityState::Boosted => PriorityStep {
                state: PriorityState::Idle,
                request: Some(false),
            },
            PriorityState::Idle => PriorityStep { state: PriorityState::Idle, request: None },
        },
    }
}

/// Takes one step of the priority state.
pub fn step(state: PriorityState, event: MonitorEvent) -> (result: PriorityStep)
    ensures
        result == priority_step(state, event),
{
    match event {
        MonitorEvent::Created { .. } => PriorityStep {
            state: PriorityState::Boosted,
            request: Some(true),
        },
        MonitorEvent::Polled => PriorityStep { state, request: None },
        _ => match state {
            PriorityState::Boosted => PriorityStep {
                state: PriorityState::Idle,
                request: Some(false),
            },
            PriorityState::Idle => PriorityStep { state: PriorityState::Idle, request: None },
        },
    }
}

/// The state that a job is in after `events`, starting idle.
pub open spec fn state_after(events: Seq<MonitorEvent>) -> PriorityState
    decreases events.len(),
{
    if events.len() == 0 {
        PriorityState::Idle
    } else {
        priority_step(state_after(events.drop_last()), events.last()).state
    }
}

/// The priority requests that `events` give rise to, in order, starting
/// idle.
pub open spec fn requests_after(events: Seq<MonitorEvent>) -> Seq<bool>
    decreases events.len(),
{
    if events.len() == 0 {
        Seq::empty()
    } else {
        let before = requests_after(events.drop_last());
        match priority_step(state_after(events.drop_last()), events.last()).request {
            Some(foreground) => before.push(foreground),
            None => before,
        }
    }
}

/// The priority last requested for `guid` in `changes`, if any was.
pub open spec fn requested_priority(changes: Seq<PriorityChange>, guid: Guid) -> Option<bool>
    decreases changes.len(),
{
    if changes.len() == 0 {
        None
    } else if changes.last().guid == guid {
        Some(changes.last().foreground)
    } else {
        requested_priority(changes.drop_last(), guid)
    }
}

/// Whichever events came before, a job is boosted exactly when the last
/// priority requested for it is foreground. An elevated priority therefore
/// never outlives its monitor.
pub proof fn lemma_boosted_iff_foreground_requested_last(events: Seq<MonitorEvent>)
    ensures
        state_after(events) is Boosted <==> (requests_after(events).len() > 0 && requests_after(
            events,
        ).last()),
    decreases events.len(),
{
    if events.len() > 0 {
        lemma_boosted_iff_foreground_requested_last(events.drop_last());
    }
}

/// Normal priority is requested once for each boost at most: every request
/// for normal priority directly follows a request for foreground priority.
pub proof fn lemma_restore_follows_boost(events: Seq<MonitorEvent>, i: int)
    requires
        0 <= i < requests_after(events).len(),
        !requests_after(events)[i],
    ensures
        i > 0,
        requests_after(events)[i - 1],
    decreases events.len(),
{
    let before = events.drop_last();
    lemma_boosted_iff_foreground_requested_last(before);
    if i < requests_after(before).len() {
        lemma_restore_follows_boost(before, i);
    }
}

/// An event that ends the monitor leaves the job idle, and asks for normal
/// priority exactly when the job was boosted.
pub proof fn lemma_end_restores_once(state: PriorityState, event: MonitorEvent)
    requires
        event.ends_monitor(),
    ensures
        priority_step(state, event).state is Idle,
        priority_step(state, event).request == if state is Boosted {
            Some(false)
        } else {
            None::<bool>
        },
        priority_step(priority_step(state, event).state, event).request is None,
{
}

/// A new request decides the priority of its own job and of no other.
pub proof fn lemma_last_request_wins(
    changes: Seq<PriorityChange>,
    change: PriorityChange,
    guid: Guid,
)
    ensures
        requested_priority(changes.push(change), guid) == if guid == change.guid {
            Some(change.foreground)
        } else {
            requested_priority(changes, guid)
        },
{
    assert(changes.push(change).drop_last() =~= changes);
}

} // verus!
