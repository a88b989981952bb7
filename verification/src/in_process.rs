//! The client that reaches the service by calls in its own process.
//!
//! Such a call cannot fail to be delivered, so the operations here return
//! the execution result alone.
use vstd::prelude::*;
use crate::error::{ApiError, PipeError};
use crate::model::{
    lemma_after_stays_consistent, lemma_drained_stays_consistent, lemma_initial_consistent,
    lemma_with_interval_stays_consistent, poll_result, status_result, ClientModel,
};
use crate::path::prefix_path;
use crate::priority::{step, MonitorEvent, PriorityChange, PriorityState};
use crate::protocol::{
    accepts, answers, CancelJobFailure, CompleteJobFailure, JobRequest, MonitorJobFailure,
    PollOutcome, PollRequest, ResumeJobFailure, SetJobPriorityFailure, SetPriorityRequest,
    SetUpdateIntervalFailure, StartJobFailure, StartJobRequest, StartJobSuccess,
    SuspendJobFailure,
};
use crate::status::{BitsJobStatus, BitsProxyUsage, Guid};
use crate::table::{MonitorRecord, MonitorTable};

verus! {

/// A client whose commands are carried out by direct calls.
pub struct InProcessClient {
    job_name: String,
    save_path_prefix: String,
    monitors: MonitorTable,
    created: u64,
    pending: Vec<PriorityChange>,
    issued: Ghost<Seq<PriorityChange>>,
}

/// Names one monitor: its job, and the serial that the client gave it.
#[derive(Clone, Copy, Debug, PartialEq, Eq, Structural)]
pub struct MonitorId {
    pub guid: Guid,
    pub serial: u64,
}

/// The caller's end of the monitor of one job.
///
/// The handle holds no state of the job. Whether it is still the active
/// monitor of its job is decided by the client that created it.
#[derive(Debug)]
pub struct InProcessMonitor {
    id: MonitorId,
}

impl View for InProcessClient {
    type V = ClientModel;

    closed spec fn view(&self) -> ClientModel {
        ClientModel {
            job_name: self.job_name@,
            save_path_prefix: self.save_path_prefix@,
            monitors: self.monitors@,
            created: self.created as nat,
            issued: self.issued@,
            pending: self.pending@,
        }
    }
}

impl View for InProcessMonitor {
    type V = MonitorId;

    closed spec fn view(&self) -> MonitorId {
        self.id
    }
}

impl InProcessMonitor {
    /// The job and serial of this monitor.
    pub fn id(&self) -> (result: MonitorId)
        ensures
            result == self@,
    {
        self.id
    }

    /// The job that this monitor reports on.
    pub fn guid(&self) -> (result: Guid)
        ensures
            result == self@.guid,
    {
        self.id.guid
    }

    /// Turns the end of a wait into what the caller gets.
    pub fn deliver(timeout_millis: u32, outcome: PollOutcome) -> (result: Result<
        BitsJobStatus,
        PipeError,
    >)
        ensures
            result == poll_result(timeout_millis, outcome),
    {
        match outcome {
            PollOutcome::Update { waited_millis, status } => {
                if waited_millis <= timeout_millis {
                    Ok(status)
                } else {
                    Err(PipeError::Timeout)
                }
            },
            PollOutcome::TimedOut => Err(PipeError::Timeout),
            PollOutcome::Disconnected => Err(PipeError::NotConnected),
            PollOutcome::Failed(err) => Err(PipeError::Api(err)),
        }
    }

    /// Waits for the next status of the job, for `timeout_millis`
    /// milliseconds at most.
    ///
    /// A monitor that `client` no longer has as the active one of its job
    /// fails with `NotConnected` and makes no wait. Otherwise `poll` is asked
    /// once, with the interval that the client holds for the monitor, and its
    /// outcome is turned into the result.
    pub fn get_status<F>(
        &mut self,
        client: &InProcessClient,
        timeout_millis: u32,
        poll: F,
    ) -> (result: Result<BitsJobStatus, PipeError>) where
        F: FnOnce(PollRequest) -> PollOutcome,

        requires
            client.wf(),
            client@.is_current(old(self)@.guid, old(self)@.serial) ==> accepts(
                poll,
                client@.poll_request(old(self)@.guid, timeout_millis),
            ),
        ensures
            final(self)@ == old(self)@,
            !client@.is_current(old(self)@.guid, old(self)@.serial) ==> result == Err::<
                BitsJobStatus,
                PipeError,
            >(PipeError::NotConnected),
            client@.is_current(old(self)@.guid, old(self)@.serial) ==> exists|outcome: PollOutcome|
                #[trigger] answers(
                    poll,
                    client@.poll_request(old(self)@.guid, timeout_millis),
                    outcome,
                ) && result == status_result(
                    client@,
                    old(self)@.guid,
                    old(self)@.serial,
                    timeout_millis,
                    outcome,
                ),
    {
        match client.poll_request(self, timeout_millis) {
            Some(request) => {
                let outcome = poll(request);
                assert(answers(
                    poll,
                    client@.poll_request(self@.guid, timeout_millis),
                    outcome,
                ));
                Self::deliver(timeout_millis, outcome)
            },
            None => Err(PipeError::NotConnected),
        }
    }
}

impl InProcessClient {
    /// The table of monitors is in order.
    pub closed spec fn table_wf(&self) -> bool {
        self.monitors.wf()
    }

    /// The client is in order.
    pub open spec fn wf(&self) -> bool {
        self.table_wf() && self@.consistent()
    }

    /// Connects, and makes a client for the jobs named `job_name`, whose
    /// files are saved under `save_path_prefix`.
    ///
    /// `connect` is called once. If it fails, so does this, with the same
    /// error.
    pub fn new<F>(
        job_name: String,
        save_path_prefix: String,
        connect: F,
    ) -> (result: Result<InProcessClient, ApiError>) where
        F: FnOnce() -> Result<(), ApiError>,

        requires
            call_requires(connect, ()),
        ensures
            match result {
                Ok(client) => call_ensures(connect, (), Ok::<(), ApiError>(())) && client.wf()
                    && client@ == ClientModel::initial(job_name@, save_path_prefix@),
                Err(err) => call_ensures(connect, (), Err::<(), ApiError>(err)),
            },
    {
        let reply = connect();
        match reply {
            Ok(()) => {
                assert(reply->Ok_0 == ());
                let client = InProcessClient {
                    job_name,
                    save_path_prefix,
                    monitors: MonitorTable::new(),
                    created: 0,
                    pending: Vec::new(),
                    issued: Ghost(Seq::empty()),
                };
                proof {
                    lemma_initial_consistent(job_name@, save_path_prefix@);
                }
                Ok(client)
            },
            Err(err) => Err(err),
        }
    }

    /// The name under which this client creates and finds its jobs.
    pub fn job_name(&self) -> (result: &str)
        ensures
            result@ == self@.job_name,
    {
        self.job_name.as_str()
    }

    /// What this client puts in front of every save path.
    pub fn save_path_prefix(&self) -> (result: &str)
        ensures
            result@ == self@.save_path_prefix,
    {
        self.save_path_prefix.as_str()
    }

    /// How many monitors this client has created. One more can be created
    /// while this is below the largest `u64`.
    pub fn monitors_created(&self) -> (result: u64)
        ensures
            result == self@.created,
    {
        self.created
    }

    /// Whether a monitor holds `guid` at foreground priority.
    pub fn priority_state(&self, guid: Guid) -> (result: PriorityState)
        requires
            self.wf(),
        ensures
            result == self@.priority_state(guid),
    {
        match self.monitors.get(guid) {
            Some(_) => PriorityState::Boosted,
            None => PriorityState::Idle,
        }
    }

    /// The interval of the active monitor of `guid`, if the job has one.
    pub fn update_interval(&self, guid: Guid) -> (result: Option<u32>)
        requires
            self.wf(),
        ensures
            result == if self@.monitors.contains_key(guid) {
                Some(self@.monitors[guid].interval_millis)
            } else {
                None
            },
    {
        match self.monitors.get(guid) {
            Some(record) => Some(record.interval_millis),
            None => None,
        }
    }

    /// Whether `monitor` is the active monitor of its job.
    pub fn is_current(&self, monitor: &InProcessMonitor) -> (result: bool)
        requires
            self.wf(),
        ensures
            result == self@.is_current(monitor@.guid, monitor@.serial),
    {
        match self.monitors.get(monitor.id.guid) {
            Some(record) => record.serial == monitor.id.serial,
            None => false,
        }
    }

    /// The request that starts a job of this client: the client's job name,
    /// the URL, the save path under the client's prefix, and the proxy
    /// setting.
    pub fn start_job_request(&self, url: String, save_path: String, proxy_usage: BitsProxyUsage)
        -> (result: StartJobRequest)
        ensures
            result@ == self@.start_job_request(url@, save_path@, proxy_usage),
    {
        StartJobRequest {
            job_name: self.job_name.clone(),
            url,
            save_path: prefix_path(self.save_path_prefix.as_str(), save_path.as_str()),
            proxy_usage,
        }
    }

    /// The request that concerns the job `guid` of this client.
    pub fn job_request(&self, guid: Guid) -> (result: JobRequest)
        ensures
            result@ == self@.job_request(guid),
    {
        JobRequest { job_name: self.job_name.clone(), guid }
    }

    /// The request that sets the priority of the job `guid` of this client.
    pub fn priority_request(&self, guid: Guid, foreground: bool) -> (result: SetPriorityRequest)
        ensures
            result@ == self@.priority_request(guid, foreground),
    {
        SetPriorityRequest { job_name: self.job_name.clone(), guid, foreground }
    }

    /// The request by which `monitor` waits for its next status, with the
    /// interval that the client holds for it. There is none for a monitor that
    /// is not the active one of its job.
    pub fn poll_request(&self, monitor: &InProcessMonitor, timeout_millis: u32) -> (result: Option<
        PollRequest,
    >)
        requires
            self.wf(),
        ensures
            result is Some <==> self@.is_current(monitor@.guid, monitor@.serial),
            result matches Some(request) ==> request@ == self@.poll_request(
                monitor@.guid,
                timeout_millis,
            ),
    {
        match self.monitors.get(monitor.id.guid) {
            Some(record) => {
                if record.serial == monitor.id.serial {
                    Some(
                        PollRequest {
                            job_name: self.job_name.clone(),
                            guid: monitor.id.guid,
                            interval_millis: record.interval_millis,
                            timeout_millis,
                        },
                    )
                } else {
                    None
                }
            },
            None => None,
        }
    }

    /// Lets `event` happen to the monitor of `guid`, and returns the serial
    /// that a monitor created by it has.
    fn record(&mut self, guid: Guid, event: MonitorEvent) -> (serial: u64)
        requires
            old(self).wf(),
            event is Created ==> old(self)@.created < u64::MAX,
        ensures
            final(self).wf(),
            final(self)@ == old(self)@.after(guid, event),
            serial == old(self)@.created,
    {
        let serial = self.created;
        let state = self.priority_state(guid);
        let outcome = step(state, event);
        match event {
            MonitorEvent::Created { interval_millis } => {
                self.monitors.insert(guid, MonitorRecord { serial, interval_millis });
                self.created = serial + 1;
            },
            MonitorEvent::Polled => {},
            _ => {
                self.monitors.remove(guid);
            },
        }
        match outcome.request {
            Some(foreground) => {
                let change = PriorityChange { guid, foreground };
                self.pending.push(change);
                self.issued = Ghost(self.issued@.push(change));
            },
            None => {},
        }
        proof {
            lemma_after_stays_consistent(old(self)@, guid, event);
            let expected = old(self)@.after(guid, event);
            assert(self@.issued =~= expected.issued);
            assert(self@.pending =~= expected.pending);
        }
        serial
    }

    /// Starts a job that downloads `url` to `save_path` under the client's
    /// prefix, and creates its monitor.
    ///
    /// `driver` is called once, with the request to create the job. If it
    /// gives the identifier of the new job, a monitor with the interval given
    /// becomes the active monitor of that job and foreground priority is
    /// requested for it. If it fails, its failure is returned and the client
    /// is as it was.
    pub fn start_job<F>(
        &mut self,
        url: String,
        save_path: String,
        proxy_usage: BitsProxyUsage,
        monitor_interval_millis: u32,
        driver: F,
    ) -> (result: Result<(StartJobSuccess, InProcessMonitor), StartJobFailure>) where
        F: FnOnce(StartJobRequest) -> Result<Guid, StartJobFailure>,

        requires
            old(self).wf(),
            old(self)@.created < u64::MAX,
            accepts(driver, old(self)@.start_job_request(url@, save_path@, proxy_usage)),
        ensures
            final(self).wf(),
            match result {
                Ok((success, monitor)) => {
                    &&& answers(
                        driver,
                        old(self)@.start_job_request(url@, save_path@, proxy_usage),
                        Ok::<Guid, StartJobFailure>(success.guid),
                    )
                    &&& final(self)@ == old(self)@.after(
                        success.guid,
                        MonitorEvent::Created { interval_millis: monitor_interval_millis },
                    )
                    &&& monitor@ == (MonitorId {
                        guid: success.guid,
                        serial: old(self)@.created as u64,
                    })
                },
                Err(failure) => {
                    &&& answers(
                        driver,
                        old(self)@.start_job_request(url@, save_path@, proxy_usage),
                        Err::<Guid, StartJobFailure>(failure),
                    )
                    &&& final(self)@ == old(self)@
                },
            },
    {
        let request = self.start_job_request(url, save_path, proxy_usage);
        let reply = driver(request);
        match reply {
            Ok(guid) => {
                let serial = self.record(
                    guid,
                    MonitorEvent::Created { interval_millis: monitor_interval_millis },
                );
                Ok((StartJobSuccess { guid }, InProcessMonitor { id: MonitorId { guid, serial } }))
            },
            Err(failure) => Err(failure),
        }
    }

    /// Attaches a new monitor to the job `guid`.
    ///
    /// `driver` is called once, to find the job. If it does, the new monitor
    /// takes the place of the one that the job may have had, and foreground
    /// priority is requested for the job. If it fails, its failure is returned
    /// and the client is as it was.
    pub fn monitor_job<F>(
        &mut self,
        guid: Guid,
        interval_millis: u32,
        driver: F,
    ) -> (result: Result<InProcessMonitor, MonitorJobFailure>) where
        F: FnOnce(JobRequest) -> Result<(), MonitorJobFailure>,

        requires
            old(self).wf(),
            old(self)@.created < u64::MAX,
            accepts(driver, old(self)@.job_request(guid)),
        ensures
            final(self).wf(),
            match result {
                Ok(monitor) => {
                    &&& answers(
                        driver,
                        old(self)@.job_request(guid),
                        Ok::<(), MonitorJobFailure>(()),
                    )
                    &&& final(self)@ == old(self)@.after(
                        guid,
                        MonitorEvent::Created { interval_millis },
                    )
                    &&& monitor@ == (MonitorId { guid, serial: old(self)@.created as u64 })
                },
                Err(failure) => {
                    &&& answers(
                        driver,
                        old(self)@.job_request(guid),
                        Err::<(), MonitorJobFailure>(failure),
                    )
                    &&& final(self)@ == old(self)@
                },
            },
    {
        let request = self.job_request(guid);
        let reply = driver(request);
        match reply {
            Ok(()) => {
                assert(reply->Ok_0 == ());
                let serial = self.record(guid, MonitorEvent::Created { interval_millis });
                Ok(InProcessMonitor { id: MonitorId { guid, serial } })
            },
            Err(failure) => Err(failure),
        }
    }

    /// Suspends the job `guid`. The answer of `driver`, which is called once,
    /// is the result. Monitors are not affected.
    pub fn suspend_job<F>(
        &mut self,
        guid: Guid,
        driver: F,
    ) -> (result: Result<(), SuspendJobFailure>) where
        F: FnOnce(JobRequest) -> Result<(), SuspendJobFailure>,

        requires
            accepts(driver, old(self)@.job_request(guid)),
        ensures
            final(self)@ == old(self)@,
            final(self).table_wf() == old(self).table_wf(),
            answers(driver, old(self)@.job_request(guid), result),
    {
        let request = self.job_request(guid);
        driver(request)
    }

    /// Resumes the job `guid`. The answer of `driver`, which is called once,
    /// is the result. Monitors are not affected.
    pub fn resume_job<F>(
        &mut self,
        guid: Guid,
        driver: F,
    ) -> (result: Result<(), ResumeJobFailure>) where
        F: FnOnce(JobRequest) -> Result<(), ResumeJobFailure>,

        requires
            accepts(driver, old(self)@.job_request(guid)),
        ensures
            final(self)@ == old(self)@,
            final(self).table_wf() == old(self).table_wf(),
            answers(driver, old(self)@.job_request(guid), result),
    {
        let request = self.job_request(guid);
        driver(request)
    }

    /// Sets the priority of the job `guid`: foreground if `foreground` is
    /// set, normal if not. The answer of `driver`, which is called once, is
    /// the result.
    ///
    /// The monitors take no notice. A job with an active monitor is already at
    /// foreground priority and goes back to normal when the monitor ends,
    /// whatever was set here in between.
    pub fn set_job_priority<F>(
        &mut self,
        guid: Guid,
        foreground: bool,
        driver: F,
    ) -> (result: Result<(), SetJobPriorityFailure>) where
        F: FnOnce(SetPriorityRequest) -> Result<(), SetJobPriorityFailure>,

        requires
            accepts(driver, old(self)@.priority_request(guid, foreground)),
        ensures
            final(self)@ == old(self)@,
            final(self).table_wf() == old(self).table_wf(),
            answers(driver, old(self)@.priority_request(guid, foreground), result),
    {
        let request = self.priority_request(guid, foreground);
        driver(request)
    }

    /// Changes the interval of the active monitor of `guid`, which stays the
    /// same monitor. Fails with `NotFound` if the job has none.
    pub fn set_update_interval(&mut self, guid: Guid, interval_millis: u32) -> (result: Result<
        (),
        SetUpdateIntervalFailure,
    >)
        requires
            old(self).wf(),
        ensures
            final(self).wf(),
            result is Ok <==> old(self)@.monitors.contains_key(guid),
            result is Ok ==> final(self)@ == old(self)@.with_interval(guid, interval_millis),
            result is Err ==> final(self)@ == old(self)@ && result == Err::<
                (),
                SetUpdateIntervalFailure,
            >(SetUpdateIntervalFailure::NotFound),
    {
        match self.monitors.get(guid) {
            Some(record) => {
                self.monitors.insert(
                    guid,
                    MonitorRecord { serial: record.serial, interval_millis },
                );
                proof {
                    lemma_with_interval_stays_consistent(old(self)@, guid, interval_millis);
                }
                Ok(())
            },
            None => Err(SetUpdateIntervalFailure::NotFound),
        }
    }

    /// Ends the active monitor of `guid` and requests normal priority for the
    /// job. Fails with `NotFound`, and changes nothing, if the job has none.
    pub fn stop_update(&mut self, guid: Guid) -> (result: Result<(), SetUpdateIntervalFailure>)
        requires
            old(self).wf(),
        ensures
            final(self).wf(),
            final(self)@ == old(self)@.after(guid, MonitorEvent::Stopped),
            result == if old(self)@.monitors.contains_key(guid) {
                Ok::<(), SetUpdateIntervalFailure>(())
            } else {
                Err::<(), SetUpdateIntervalFailure>(SetUpdateIntervalFailure::NotFound)
            },
    {
        let state = self.priority_state(guid);
        self.record(guid, MonitorEvent::Stopped);
        match state {
            PriorityState::Boosted => Ok(()),
            PriorityState::Idle => Err(SetUpdateIntervalFailure::NotFound),
        }
    }

    /// Completes the job `guid`.
    ///
    /// The active monitor of the job, if it has one, is ended first, and
    /// normal priority is requested for the job. Then `driver` is called once,
    /// and its answer is the result.
    pub fn complete_job<F>(
        &mut self,
        guid: Guid,
        driver: F,
    ) -> (result: Result<(), CompleteJobFailure>) where
        F: FnOnce(JobRequest) -> Result<(), CompleteJobFailure>,

        requires
            old(self).wf(),
            accepts(driver, old(self)@.job_request(guid)),
        ensures
            final(self).wf(),
            final(self)@ == old(self)@.after(guid, MonitorEvent::JobCompleted),
            answers(driver, old(self)@.job_request(guid), result),
    {
        self.record(guid, MonitorEvent::JobCompleted);
        let request = self.job_request(guid);
        driver(request)
    }

    /// Cancels the job `guid`.
    ///
    /// The active monitor of the job, if it has one, is ended first, and
    /// normal priority is requested for the job. Then `driver` is called once,
    /// and its answer is the result.
    pub fn cancel_job<F>(
        &mut self,
        guid: Guid,
        driver: F,
    ) -> (result: Result<(), CancelJobFailure>) where
        F: FnOnce(JobRequest) -> Result<(), CancelJobFailure>,

        requires
            old(self).wf(),
            accepts(driver, old(self)@.job_request(guid)),
        ensures
            final(self).wf(),
            final(self)@ == old(self)@.after(guid, MonitorEvent::JobCancelled),
            answers(driver, old(self)@.job_request(guid), result),
    {
        self.record(guid, MonitorEvent::JobCancelled);
        let request = self.job_request(guid);
        driver(request)
    }

    /// Gives up `monitor`.
    ///
    /// If it is the active monitor of its job it is ended, and normal priority
    /// is requested for the job. A monitor that was ended or superseded before
    /// changes nothing.
    pub fn release(&mut self, monitor: InProcessMonitor)
        requires
            old(self).wf(),
        ensures
            final(self).wf(),
            final(self)@ == if old(self)@.is_current(monitor@.guid, monitor@.serial) {
                old(self)@.after(monitor@.guid, MonitorEvent::Dropped)
            } else {
                old(self)@
            },
    {
        if self.is_current(&monitor) {
            self.record(monitor.id.guid, MonitorEvent::Dropped);
        }
    }

    /// Hands out the priority changes that the monitors have asked for since
    /// the last call, in the order in which they are to be made.
    pub fn take_priority_requests(&mut self) -> (result: Vec<PriorityChange>)
        requires
            old(self).wf(),
        ensures
            final(self).wf(),
            result@ == old(self)@.pending,
            final(self)@ == old(self)@.drained(),
    {
        let mut result: Vec<PriorityChange> = Vec::new();
        std::mem::swap(&mut result, &mut self.pending);
        proof {
            lemma_drained_stays_consistent(old(self)@);
        }
        result
    }
}

} // verus!
