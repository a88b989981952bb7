//! A client as plain values, and what its operations do to it.
//!
//! The executable client states each of its operations over this model. The
//! laws that relate several operations are proved here, once, of the model.
use vstd::prelude::*;
use crate::error::PipeError;
use crate::path::prefixed;
use crate::priority::{
    lemma_last_request_wins, priority_step, requested_priority, MonitorEvent, PriorityChange,
    PriorityState,
};
use crate::protocol::{
    JobRequestView, PollOutcome, PollRequest, PollRequestView, SetPriorityRequestView,
    StartJobRequestView,
};
use crate::status::{BitsJobStatus, BitsProxyUsage, Guid};
use crate::table::MonitorRecord;

verus! {

/// The state of a client.
#[verifier::ext_equal]
pub struct ClientModel {
    /// The name under which the client creates and finds its jobs.
    pub job_name: Seq<char>,
    /// What is put in front of every save path.
    pub save_path_prefix: Seq<char>,
    /// The active monitor of each job that has one.
    pub monitors: Map<Guid, MonitorRecord>,
    /// How many monitors the client has created.
    pub created: nat,
    /// Every priority change that the monitors have asked for, in order.
    pub issued: Seq<PriorityChange>,
    /// The priority changes that have not been handed out yet, in order.
    pub pending: Seq<PriorityChange>,
}

impl ClientModel {
    /// A client that has done nothing yet.
    pub open spec fn initial(job_name: Seq<char>, save_path_prefix: Seq<char>) -> ClientModel {
        ClientModel {
            job_name,
            save_path_prefix,
            monitors: Map::empty(),
            created: 0,
            issued: Seq::empty(),
            pending: Seq::empty(),
        }
    }

    /// Whether a monitor holds `guid` at foreground priority.
    pub open spec fn priority_state(self, guid: Guid) -> PriorityState {
        if self.monitors.contains_key(guid) {
            PriorityState::Boosted
        } else {
            PriorityState::Idle
        }
    }

    /// Whether the monitor with this serial is the active monitor of `guid`.
    pub open spec fn is_current(self, guid: Guid, serial: u64) -> bool {
        self.monitors.contains_key(guid) && self.monitors[guid].serial == serial
    }

    /// What always holds of a client.
    ///
    /// Every active monitor was created by this client. What is pending ends
    /// what was issued. A job has an active monitor exactly when the priority
    /// last requested for it is foreground.
    pub open spec fn consistent(self) -> bool {
        &&& self.created <= u64::MAX
        &&& forall|guid: Guid| #[trigger]
            self.monitors.contains_key(guid) ==> self.monitors[guid].serial < self.created
        &&& self.pending.len() <= self.issued.len()
        &&& self.issued.subrange(self.issued.len() - self.pending.len(), self.issued.len() as int)
            == self.pending
        &&& forall|guid: Guid| #[trigger]
            self.monitors.contains_key(guid) <==> requested_priority(self.issued, guid) == Some(
                true,
            )
    }

    /// The client after `event` has happened to the monitor of `guid`.
    ///
    /// Creation makes a new monitor, with the next serial and the interval of
    /// the event, the active one. An event that ends the monitor takes the active
    /// monitor away. The priority request of the step, where there is one, is
    /// issued.
    pub open spec fn after(self, guid: Guid, event: MonitorEvent) -> ClientModel {
        let step = priority_step(self.priority_state(guid), event);
        let added = match step.request {
            Some(foreground) => seq![PriorityChange { guid, foreground }],
            None => Seq::empty(),
        };
        ClientModel {
            monitors: match event {
                MonitorEvent::Created { interval_millis } => self.monitors.insert(
                    guid,
                    MonitorRecord { serial: self.created as u64, interval_millis },
                ),
                MonitorEvent::Polled => self.monitors,
                _ => self.monitors.remove(guid),
            },
            created: if event is Created {
                self.created + 1
            } else {
                self.created
            },
            issued: self.issued + added,
            pending: self.pending + added,
            ..self
        }
    }

    /// The client after the monitor of `guid`, which it has, was told to
    /// report every `interval_millis` milliseconds.
    pub open spec fn with_interval(self, guid: Guid, interval_millis: u32) -> ClientModel {
        ClientModel {
            monitors: self.monitors.insert(
                guid,
                MonitorRecord { serial: self.monitors[guid].serial, interval_millis },
            ),
            ..self
        }
    }

    /// The client after what was pending has been handed out.
    pub open spec fn drained(self) -> ClientModel {
        ClientModel { pending: Seq::empty(), ..self }
    }

    /// The request that starts a job of this client.
    pub open spec fn start_job_request(
        self,
        url: Seq<char>,
        save_path: Seq<char>,
        proxy_usage: BitsProxyUsage,
    ) -> StartJobRequestView {
        StartJobRequestView {
            job_name: self.job_name,
            url,
            save_path: prefixed(self.save_path_prefix, save_path),
            proxy_usage,
        }
    }

    /// The request that concerns the job `guid` of this client.
    pub open spec fn job_request(self, guid: Guid) -> JobRequestView {
        JobRequestView { job_name: self.job_name, guid }
    }

    /// The request that sets the priority of the job `guid` of this client.
    pub open spec fn priority_request(self, guid: Guid, foreground: bool)
        -> SetPriorityRequestView {
        SetPriorityRequestView { job_name: self.job_name, guid, foreground }
    }

    /// The request that waits for the next status of `guid`, which has a
    /// monitor.
    pub open spec fn poll_request(self, guid: Guid, timeout_millis: u32) -> PollRequestView {
        PollRequestView {
            job_name: self.job_name,
            guid,
            interval_millis: self.monitors[guid].interval_millis,
            timeout_millis,
        }
    }
}

/// What a wait that ended in `outcome` gives the caller, who was willing to
/// wait `timeout_millis` milliseconds.
///
/// A status counts only if it came within the time. A wait that ended
/// without one is a timeout, a lost connection is reported as such, and an
/// error of the operating system is kept as the cause.
pub open spec fn poll_result(timeout_millis: u32, outcome: PollOutcome) -> Result<
    BitsJobStatus,
    PipeError,
> {
    match outcome {
        PollOutcome::Update { waited_millis, status } => if waited_millis <= timeout_millis {
            Ok(status)
        } else {
            Err(PipeError::Timeout)
        },
        PollOutcome::TimedOut => Err(PipeError::Timeout),
        PollOutcome::Disconnected => Err(PipeError::NotConnected),
        PollOutcome::Failed(err) => Err(PipeError::Api(err)),
    }
}

/// What the monitor of `guid` with this serial gives the caller when its
/// wait, if it makes one, ends in `outcome`.
///
/// A monitor that is no longer the active one of its job makes no wait and
/// reports that it is not connected.
pub open spec fn status_result(
    client: ClientModel,
    guid: Guid,
    serial: u64,
    timeout_millis: u32,
    outcome: PollOutcome,
) -> Result<BitsJobStatus, PipeError> {
    if client.is_current(guid, serial) {
        poll_result(timeout_millis, outcome)
    } else {
        Err(PipeError::NotConnected)
    }
}

/// A client that has done nothing yet is in order.
pub proof fn lemma_initial_consistent(job_name: Seq<char>, save_path_prefix: Seq<char>)
    ensures
        ClientModel::initial(job_name, save_path_prefix).consistent(),
{
    let client = ClientModel::initial(job_name, save_path_prefix);
    assert(client.issued.subrange(0, 0) =~= client.pending);
}

/// Every event leaves the client in order, as long as serials are left for a
/// monitor that is created.
pub proof fn lemma_after_stays_consistent(client: ClientModel, guid: Guid, event: MonitorEvent)
    requires
        client.consistent(),
        event is Created ==> client.created < u64::MAX,
    ensures
        client.after(guid, event).consistent(),
{
    let next = client.after(guid, event);
    let step = priority_step(client.priority_state(guid), event);
    assert(next.issued.subrange(next.issued.len() - next.pending.len(), next.issued.len() as int)
        =~= next.pending) by {
        assert(client.issued.subrange(
            client.issued.len() - client.pending.len(),
            client.issued.len() as int,
        ) == client.pending);
        assert forall|i: int| 0 <= i < next.pending.len() implies next.issued[next.issued.len()
            - next.pending.len() + i] == next.pending[i] by {
            if i < client.pending.len() {
                assert(client.pending[i] == client.issued.subrange(
                    client.issued.len() - client.pending.len(),
                    client.issued.len() as int,
                )[i]);
            }
        }
    }
    assert forall|g: Guid| #[trigger]
        next.monitors.contains_key(g) <==> requested_priority(next.issued, g) == Some(true) by {
        assert(client.monitors.contains_key(g) <==> requested_priority(client.issued, g) == Some(
            true,
        ));
        match step.request {
            Some(foreground) => {
                let change = PriorityChange { guid, foreground };
                assert(next.issued =~= client.issued.push(change));
                lemma_last_request_wins(client.issued, change, g);
            },
            None => {},
        }
    }
}

/// A new interval leaves the client in order.
pub proof fn lemma_with_interval_stays_consistent(
    client: ClientModel,
    guid: Guid,
    interval_millis: u32,
)
    requires
        client.consistent(),
        client.monitors.contains_key(guid),
    ensures
        client.with_interval(guid, interval_millis).consistent(),
        client.with_interval(guid, interval_millis).is_current(guid, client.monitors[guid].serial),
{
    let next = client.with_interval(guid, interval_millis);
    assert forall|g: Guid| #[trigger]
        next.monitors.contains_key(g) <==> requested_priority(next.issued, g) == Some(true) by {
        assert(client.monitors.contains_key(g) <==> requested_priority(client.issued, g) == Some(
            true,
        ));
    }
}

/// Handing out what is pending leaves the client in order.
pub proof fn lemma_drained_stays_consistent(client: ClientModel)
    requires
        client.consistent(),
    ensures
        client.drained().consistent(),
{
    let next = client.drained();
    assert(next.issued.subrange(next.issued.len() as int, next.issued.len() as int)
        =~= next.pending);
}

/// Creating a monitor boosts its job: the job is held at foreground priority
/// and foreground is the priority last requested for it. The new monitor is
/// the active one, and whichever monitor the job had before no longer is: its
/// serial is below that of the new one, and no serial is given out twice.
pub proof fn lemma_created_boosts_and_supersedes(
    client: ClientModel,
    guid: Guid,
    interval_millis: u32,
    serial: u64,
)
    requires
        client.consistent(),
        client.created < u64::MAX,
    ensures
        client.after(guid, MonitorEvent::Created { interval_millis }).priority_state(guid)
            is Boosted,
        requested_priority(
            client.after(guid, MonitorEvent::Created { interval_millis }).issued,
            guid,
        ) == Some(true),
        client.after(guid, MonitorEvent::Created { interval_millis }).is_current(
            guid,
            client.created as u64,
        ),
        client.is_current(guid, serial) ==> serial < client.created && !client.after(
            guid,
            MonitorEvent::Created { interval_millis },
        ).is_current(guid, serial),
        client.after(guid, MonitorEvent::Created { interval_millis }).created == client.created
            + 1,
{
    lemma_after_stays_consistent(client, guid, MonitorEvent::Created { interval_millis });
}

/// Ending a monitor restores its job: the job is no longer held at
/// foreground priority, and if it was, normal is the priority last requested
/// for it. No monitor of the job is active afterwards, and the monitors of
/// other jobs are as they were.
pub proof fn lemma_end_restores_and_terminates(
    client: ClientModel,
    guid: Guid,
    event: MonitorEvent,
    other: Guid,
    serial: u64,
)
    requires
        client.consistent(),
        event.ends_monitor(),
    ensures
        client.after(guid, event).priority_state(guid) is Idle,
        client.priority_state(guid) is Boosted ==> requested_priority(
            client.after(guid, event).issued,
            guid,
        ) == Some(false),
        requested_priority(client.after(guid, event).issued, guid) != Some(true),
        !client.after(guid, event).is_current(guid, serial),
        other != guid ==> client.after(guid, event).is_current(other, serial)
            == client.is_current(other, serial),
{
    lemma_after_stays_consistent(client, guid, event);
    if client.priority_state(guid) is Boosted {
        let change = PriorityChange { guid, foreground: false };
        lemma_last_request_wins(client.issued, change, guid);
    }
}

/// Normal priority is requested once: when a monitor has ended, a further
/// event that would end it asks for nothing and changes nothing.
pub proof fn lemma_end_twice_adds_nothing(
    client: ClientModel,
    guid: Guid,
    first: MonitorEvent,
    second: MonitorEvent,
)
    requires
        first.ends_monitor(),
        second.ends_monitor(),
    ensures
        client.after(guid, first).after(guid, second) == client.after(guid, first),
{
}

/// A status request changes nothing, so a job stays boosted however often
/// its monitor is asked.
pub proof fn lemma_poll_changes_nothing(client: ClientModel, guid: Guid)
    ensures
        client.after(guid, MonitorEvent::Polled) == client,
{
}

/// Once its job is completed or cancelled, a monitor fails, and not with a
/// timeout, whatever its wait would have brought.
pub proof fn lemma_status_after_job_end(
    client: ClientModel,
    guid: Guid,
    serial: u64,
    event: MonitorEvent,
    timeout_millis: u32,
    outcome: PollOutcome,
)
    requires
        event is JobCompleted || event is JobCancelled,
    ensures
        status_result(client.after(guid, event), guid, serial, timeout_millis, outcome) == Err::<
            BitsJobStatus,
            PipeError,
        >(PipeError::NotConnected),
{
}

/// A status that is not there in time is a timeout, and one that is there in
/// time is delivered.
pub proof fn lemma_timeout_then_status(
    client: ClientModel,
    guid: Guid,
    serial: u64,
    timeout_millis: u32,
    waited_millis: u32,
    status: BitsJobStatus,
)
    requires
        client.is_current(guid, serial),
    ensures
        timeout_millis < waited_millis ==> status_result(
            client,
            guid,
            serial,
            timeout_millis,
            PollOutcome::Update { waited_millis, status },
        ) == Err::<BitsJobStatus, PipeError>(PipeError::Timeout),
        timeout_millis >= waited_millis ==> status_result(
            client,
            guid,
            serial,
            timeout_millis,
            PollOutcome::Update { waited_millis, status },
        ) == Ok::<BitsJobStatus, PipeError>(status),
{
}

/// A wait that goes by its plan never lasts longer than the caller allows.
/// It ends in a timeout exactly when the timeout is shorter than the interval,
/// and the status that it reads otherwise is in time.
pub proof fn lemma_planned_wait_keeps_the_deadline(
    interval_millis: u32,
    timeout_millis: u32,
    status: BitsJobStatus,
)
    ensures
        PollRequest::plan_of(interval_millis, timeout_millis).wait_millis <= timeout_millis,
        !PollRequest::plan_of(interval_millis, timeout_millis).fetch <==> timeout_millis
            < interval_millis,
        PollRequest::plan_of(interval_millis, timeout_millis).fetch ==> poll_result(
            timeout_millis,
            PollOutcome::Update {
                waited_millis: PollRequest::plan_of(interval_millis, timeout_millis).wait_millis,
                status,
            },
        ) == Ok::<BitsJobStatus, PipeError>(status),
{
}

} // verus!
