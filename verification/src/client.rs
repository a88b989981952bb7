//! The caller's view: one client type and one monitor type, whatever the
//! transport.
//!
//! Each operation answers in two tiers. The outer result fails only when the
//! transport does. The inner result is the service's own verdict on the
//! request. With the one transport that exists, calls in the client's own
//! process, the outer result of a job operation is always `Ok`.
use vstd::prelude::*;
use crate::error::{ApiError, PipeError};
use crate::in_process::{InProcessClient, InProcessMonitor, MonitorId};
use crate::model::{status_result, ClientModel};
use crate::priority::{MonitorEvent, PriorityChange, PriorityState};
use crate::protocol::{
    accepts, answers, CancelJobFailure, CompleteJobFailure, JobRequest, MonitorJobFailure,
    PollOutcome, PollRequest, ResumeJobFailure, SetJobPriorityFailure, SetPriorityRequest,
    SetUpdateIntervalFailure, StartJobFailure, StartJobRequest, StartJobSuccess,
    SuspendJobFailure,
};
use crate::status::{BitsJobStatus, BitsProxyUsage, Guid};

verus! {

/// A client of the transfer service, for the jobs of one name.
///
/// Each variant is one way to reach the service. Callers see the same
/// operations and the same errors whichever it is. A second variant, which
/// reaches the service through a helper process over a pipe, has its place
/// here; the errors that only such a transport can produce are in
/// `PipeError` already.
pub enum BitsClient {
    /// Carries out every command by a call in the client's own process.
    InProcess(InProcessClient),
}

/// The caller's end of the monitor of one job.
#[derive(Debug)]
pub enum BitsMonitorClient {
    InProcess(InProcessMonitor),
}

impl View for BitsClient {
    type V = ClientModel;

    open spec fn view(&self) -> ClientModel {
        match self {
            BitsClient::InProcess(client) => client@,
        }
    }
}

impl View for BitsMonitorClient {
    type V = MonitorId;

    open spec fn view(&self) -> MonitorId {
        match self {
            BitsMonitorClient::InProcess(monitor) => monitor@,
        }
    }
}

impl BitsClient {
    /// The client is in order.
    pub open spec fn wf(&self) -> bool {
        match self {
            BitsClient::InProcess(client) => client.wf(),
        }
    }

    /// Connects, and makes a client for the jobs named `job_name`, whose
    /// files are saved under `save_path_prefix`.
    ///
    /// `connect` is called once. The client is made exactly when it succeeds.
    /// When it fails, its error is returned as the cause of an `Api` error,
    /// and no other error is possible.
    pub fn new<F>(
        job_name: String,
        save_path_prefix: String,
        connect: F,
    ) -> (result: Result<BitsClient, PipeError>) where
        F: FnOnce() -> Result<(), ApiError>,

        requires
            call_requires(connect, ()),
        ensures
            match result {
                Ok(client) => call_ensures(connect, (), Ok::<(), ApiError>(())) && client.wf()
                    && client@ == ClientModel::initial(job_name@, save_path_prefix@),
                Err(err) => err is Api && call_ensures(
                    connect,
                    (),
                    Err::<(), ApiError>(err->Api_0),
                ),
            },
    {
        match InProcessClient::new(job_name, save_path_prefix, connect) {
            Ok(client) => Ok(BitsClient::InProcess(client)),
            Err(err) => Err(PipeError::from(err)),
        }
    }

    /// Starts a job that downloads `url` to `save_path` under the client's
    /// prefix, with the proxy setting given, and creates its monitor, which
    /// reports about every `monitor_interval_millis` milliseconds.
    ///
    /// `driver` is called once, with the request to create the job. If it
    /// gives the identifier of the new job, that identifier is returned with
    /// the monitor, which is then the active monitor of the job, and foreground
    /// priority is requested for the job. If it fails, its failure is the
    /// inner result and the client is as it was.
    pub fn start_job<F>(
        &mut self,
        url: String,
        save_path: String,
        proxy_usage: BitsProxyUsage,
        monitor_interval_millis: u32,
        driver: F,
    ) -> (result: Result<
        Result<(StartJobSuccess, BitsMonitorClient), StartJobFailure>,
        PipeError,
    >) where
        F: FnOnce(StartJobRequest) -> Result<Guid, StartJobFailure>,

        requires
            old(self).wf(),
            old(self)@.created < u64::MAX,
            accepts(driver, old(self)@.start_job_request(url@, save_path@, proxy_usage)),
        ensures
            final(self).wf(),
            match result {
                Ok(Ok((success, monitor))) => {
                    &&& answers(
                        driver,
                        old(self)@.start_job_request(url@, save_path@, proxy_usage),
                        Ok::<Guid, StartJobFailure>(success.guid),
                    )
                    &&& final(self)@ == old(self)@.after(
                        success.guid,
                        MonitorEvent::Created { interval_millis: monitor_interval_millis },
                    )
                    &&& monitor@ == (MonitorId {
                        guid: success.guid,
                        serial: old(self)@.created as u64,
                    })
                },
                Ok(Err(failure)) => {
                    &&& answers(
                        driver,
                        old(self)@.start_job_request(url@, save_path@, proxy_usage),
                        Err::<Guid, StartJobFailure>(failure),
                    )
                    &&& final(self)@ == old(self)@
                },
                Err(_) => false,
            },
    {
        match self {
            BitsClient::InProcess(client) => {
                let started =
                    client.start_job(url, save_path, proxy_usage, monitor_interval_millis, driver);
                match started {
                    Ok((success, monitor)) => Ok(
                        Ok((success, BitsMonitorClient::InProcess(monitor))),
                    ),
                    Err(failure) => Ok(Err(failure)),
                }
            },
        }
    }

    /// Attaches a new monitor, which reports about every `interval_millis`
    /// milliseconds, to the job `guid`.
    ///
    /// `driver` is called once, to find the job. If it does, the new monitor
    /// takes the place of the one that the job may have had, and foreground
    /// priority is requested for the job. If it does not, its failure is the
    /// inner result, never an outer error, and the client is as it was.
    pub fn monitor_job<F>(
        &mut self,
        guid: Guid,
        interval_millis: u32,
        driver: F,
    ) -> (result: Result<Result<BitsMonitorClient, MonitorJobFailure>, PipeError>) where
        F: FnOnce(JobRequest) -> Result<(), MonitorJobFailure>,

        requires
            old(self).wf(),
            old(self)@.created < u64::MAX,
            accepts(driver, old(self)@.job_request(guid)),
        ensures
            final(self).wf(),
            match result {
                Ok(Ok(monitor)) => {
                    &&& answers(
                        driver,
                        old(self)@.job_request(guid),
                        Ok::<(), MonitorJobFailure>(()),
                    )
                    &&& final(self)@ == old(self)@.after(
                        guid,
                        MonitorEvent::Created { interval_millis },
                    )
                    &&& monitor@ == (MonitorId { guid, serial: old(self)@.created as u64 })
                },
                Ok(Err(failure)) => {
                    &&& answers(
                        driver,
                        old(self)@.job_request(guid),
                        Err::<(), MonitorJobFailure>(failure),
                    )
                    &&& final(self)@ == old(self)@
                },
                Err(_) => false,
            },
    {
        match self {
            BitsClient::InProcess(client) => {
                match client.monitor_job(guid, interval_millis, driver) {
                    Ok(monitor) => Ok(Ok(BitsMonitorClient::InProcess(monitor))),
                    Err(failure) => Ok(Err(failure)),
                }
            },
        }
    }

    /// Suspends the job `guid`. The answer of `driver`, which is called once,
    /// is the inner result. Monitors are not affected.
    pub fn suspend_job<F>(
        &mut self,
        guid: Guid,
        driver: F,
    ) -> (result: Result<Result<(), SuspendJobFailure>, PipeError>) where
        F: FnOnce(JobRequest) -> Result<(), SuspendJobFailure>,

        requires
            accepts(driver, old(self)@.job_request(guid)),
        ensures
            final(self)@ == old(self)@,
            final(self).wf() == old(self).wf(),
            result matches Ok(inner) && answers(driver, old(self)@.job_request(guid), inner),
    {
        match self {
            BitsClient::InProcess(client) => Ok(client.suspend_job(guid, driver)),
        }
    }

    /// Resumes the job `guid`. The answer of `driver`, which is called once,
    /// is the inner result. Monitors are not affected.
    pub fn resume_job<F>(
        &mut self,
        guid: Guid,
        driver: F,
    ) -> (result: Result<Result<(), ResumeJobFailure>, PipeError>) where
        F: FnOnce(JobRequest) -> Result<(), ResumeJobFailure>,

        requires
            accepts(driver, old(self)@.job_request(guid)),
        ensures
            final(self)@ == old(self)@,
            final(self).wf() == old(self).wf(),
            result matches Ok(inner) && answers(driver, old(self)@.job_request(guid), inner),
    {
        match self {
            BitsClient::InProcess(client) => Ok(client.resume_job(guid, driver)),
        }
    }

    /// Sets the priority of the job `guid`: foreground if `foreground` is
    /// set, normal if not. The answer of `driver`, which is called once, is
    /// the inner result.
    ///
    /// This is seldom needed. A job with an active monitor is at foreground
    /// priority already, and goes back to normal when the monitor ends,
    /// whatever was set here in between: of two requests, the later one
    /// decides.
    pub fn set_job_priority<F>(
        &mut self,
        guid: Guid,
        foreground: bool,
        driver: F,
    ) -> (result: Result<Result<(), SetJobPriorityFailure>, PipeError>) where
        F: FnOnce(SetPriorityRequest) -> Result<(), SetJobPriorityFailure>,

        requires
            accepts(driver, old(self)@.priority_request(guid, foreground)),
        ensures
            final(self)@ == old(self)@,
            final(self).wf() == old(self).wf(),
            result matches Ok(inner) && answers(
                driver,
                old(self)@.priority_request(guid, foreground),
                inner,
            ),
    {
        match self {
            BitsClient::InProcess(client) => Ok(client.set_job_priority(guid, foreground, driver)),
        }
    }

    /// Changes the interval of the active monitor of `guid`, which stays the
    /// same monitor. The inner result is `NotFound` exactly when the job has
    /// no active monitor, and then nothing changes.
    pub fn set_update_interval(&mut self, guid: Guid, interval_millis: u32) -> (result: Result<
        Result<(), SetUpdateIntervalFailure>,
        PipeError,
    >)
        requires
            old(self).wf(),
        ensures
            final(self).wf(),
            result == if old(self)@.monitors.contains_key(guid) {
                Ok::<Result<(), SetUpdateIntervalFailure>, PipeError>(Ok(()))
            } else {
                Ok::<Result<(), SetUpdateIntervalFailure>, PipeError>(
                    Err(SetUpdateIntervalFailure::NotFound),
                )
            },
            final(self)@ == if old(self)@.monitors.contains_key(guid) {
                old(self)@.with_interval(guid, interval_millis)
            } else {
                old(self)@
            },
    {
        match self {
            BitsClient::InProcess(client) => {
                let inner = client.set_update_interval(guid, interval_millis);
                assert(inner is Ok ==> inner->Ok_0 == ());
                Ok(inner)
            },
        }
    }

    /// Ends the active monitor of `guid` and requests normal priority for the
    /// job. The inner result is `NotFound` exactly when the job has no active
    /// monitor, and then nothing changes.
    pub fn stop_update(&mut self, guid: Guid) -> (result: Result<
        Result<(), SetUpdateIntervalFailure>,
        PipeError,
    >)
        requires
            old(self).wf(),
        ensures
            final(self).wf(),
            result == if old(self)@.monitors.contains_key(guid) {
                Ok::<Result<(), SetUpdateIntervalFailure>, PipeError>(Ok(()))
            } else {
                Ok::<Result<(), SetUpdateIntervalFailure>, PipeError>(
                    Err(SetUpdateIntervalFailure::NotFound),
                )
            },
            final(self)@ == old(self)@.after(guid, MonitorEvent::Stopped),
    {
        match self {
            BitsClient::InProcess(client) => Ok(client.stop_update(guid)),
        }
    }

    /// Completes the job `guid`.
    ///
    /// The active monitor of the job, if it has one, is ended first, and
    /// normal priority is requested for the job. Then `driver` is called once,
    /// and its answer is the inner result.
    pub fn complete_job<F>(
        &mut self,
        guid: Guid,
        driver: F,
    ) -> (result: Result<Result<(), CompleteJobFailure>, PipeError>) where
        F: FnOnce(JobRequest) -> Result<(), CompleteJobFailure>,

        requires
            old(self).wf(),
            accepts(driver, old(self)@.job_request(guid)),
        ensures
            final(self).wf(),
            final(self)@ == old(self)@.after(guid, MonitorEvent::JobCompleted),
            result matches Ok(inner) && answers(driver, old(self)@.job_request(guid), inner),
    {
        match self {
            BitsClient::InProcess(client) => Ok(client.complete_job(guid, driver)),
        }
    }

    /// Cancels the job `guid`.
    ///
    /// The active monitor of the job, if it has one, is ended first, and
    /// normal priority is requested for the job. Then `driver` is called once,
    /// and its answer is the inner result.
    pub fn cancel_job<F>(
        &mut self,
        guid: Guid,
        driver: F,
    ) -> (result: Result<Result<(), CancelJobFailure>, PipeError>) where
        F: FnOnce(JobRequest) -> Result<(), CancelJobFailure>,

        requires
            old(self).wf(),
            accepts(driver, old(self)@.job_request(guid)),
        ensures
            final(self).wf(),
            final(self)@ == old(self)@.after(guid, MonitorEvent::JobCancelled),
            result matches Ok(inner) && answers(driver, old(self)@.job_request(guid), inner),
    {
        match self {
            BitsClient::InProcess(client) => Ok(client.cancel_job(guid, driver)),
        }
    }

    /// Gives up `monitor`.
    ///
    /// If it is the active monitor of its job it is ended, and normal priority
    /// is requested for the job. A monitor that was ended or superseded before
    /// changes nothing.
    pub fn release(&mut self, monitor: BitsMonitorClient)
        requires
            old(self).wf(),
        ensures
            final(self).wf(),
            final(self)@ == if old(self)@.is_current(monitor@.guid, monitor@.serial) {
                old(self)@.after(monitor@.guid, MonitorEvent::Dropped)
            } else {
                old(self)@
            },
    {
        match self {
            BitsClient::InProcess(client) => match monitor {
                BitsMonitorClient::InProcess(monitor) => client.release(monitor),
            },
        }
    }

    /// Hands out the priority changes that the monitors have asked for since
    /// the last call, in the order in which they are to be made.
    ///
    /// Whether the service carries them out is of no consequence to any
    /// operation of the client.
    pub fn take_priority_requests(&mut self) -> (result: Vec<PriorityChange>)
        requires
            old(self).wf(),
        ensures
            final(self).wf(),
            result@ == old(self)@.pending,
            final(self)@ == old(self)@.drained(),
    {
        match self {
            BitsClient::InProcess(client) => client.take_priority_requests(),
        }
    }

    /// The name under which this client creates and finds its jobs.
    pub fn job_name(&self) -> (result: &str)
        ensures
            result@ == self@.job_name,
    {
        match self {
            BitsClient::InProcess(client) => client.job_name(),
        }
    }

    /// What this client puts in front of every save path.
    pub fn save_path_prefix(&self) -> (result: &str)
        ensures
            result@ == self@.save_path_prefix,
    {
        match self {
            BitsClient::InProcess(client) => client.save_path_prefix(),
        }
    }

    /// How many monitors this client has created. One more can be created
    /// while this is below the largest `u64`.
    pub fn monitors_created(&self) -> (result: u64)
        ensures
            result == self@.created,
    {
        match self {
            BitsClient::InProcess(client) => client.monitors_created(),
        }
    }

    /// Whether a monitor holds `guid` at foreground priority.
    pub fn priority_state(&self, guid: Guid) -> (result: PriorityState)
        requires
            self.wf(),
        ensures
            result == self@.priority_state(guid),
    {
        match self {
            BitsClient::InProcess(client) => client.priority_state(guid),
        }
    }

    /// The interval of the active monitor of `guid`, if the job has one.
    pub fn update_interval(&self, guid: Guid) -> (result: Option<u32>)
        requires
            self.wf(),
        ensures
            result == if self@.monitors.contains_key(guid) {
                Some(self@.monitors[guid].interval_millis)
            } else {
                None
            },
    {
        match self {
            BitsClient::InProcess(client) => client.update_interval(guid),
        }
    }

    /// Whether `monitor` is the active monitor of its job.
    pub fn is_current(&self, monitor: &BitsMonitorClient) -> (result: bool)
        requires
            self.wf(),
        ensures
            result == self@.is_current(monitor@.guid, monitor@.serial),
    {
        match self {
            BitsClient::InProcess(client) => match monitor {
                BitsMonitorClient::InProcess(monitor) => client.is_current(monitor),
            },
        }
    }
}

impl BitsMonitorClient {
    /// The job that this monitor reports on.
    pub fn guid(&self) -> (result: Guid)
        ensures
            result == self@.guid,
    {
        match self {
            BitsMonitorClient::InProcess(monitor) => monitor.guid(),
        }
    }

    /// Waits for the next status of the job, for `timeout_millis`
    /// milliseconds at most.
    ///
    /// A monitor that `client` no longer has as the active one of its job,
    /// because updates were stopped, the job was completed or cancelled, or
    /// another monitor was attached, fails with `NotConnected` and makes no
    /// wait. Otherwise `poll` is asked once, with the interval that the client
    /// holds for the monitor and with the timeout. A status that it brings
    /// within the timeout is returned. A status that comes later, or none, is
    /// a `Timeout`. Any other error means that the connection is gone.
    ///
    /// The handle itself is not changed, and nothing of the timeout is kept.
    pub fn get_status<F>(
        &mut self,
        client: &BitsClient,
        timeout_millis: u32,
        poll: F,
    ) -> (result: Result<BitsJobStatus, PipeError>) where
        F: FnOnce(PollRequest) -> PollOutcome,

        requires
            client.wf(),
            client@.is_current(old(self)@.guid, old(self)@.serial) ==> accepts(
                poll,
                client@.poll_request(old(self)@.guid, timeout_millis),
            ),
        ensures
            final(self)@ == old(self)@,
            !client@.is_current(old(self)@.guid, old(self)@.serial) ==> result == Err::<
                BitsJobStatus,
                PipeError,
            >(PipeError::NotConnected),
            client@.is_current(old(self)@.guid, old(self)@.serial) ==> exists|outcome: PollOutcome|
                #[trigger] answers(
                    poll,
                    client@.poll_request(old(self)@.guid, timeout_millis),
                    outcome,
                ) && result == status_result(
                    client@,
                    old(self)@.guid,
                    old(self)@.serial,
                    timeout_millis,
                    outcome,
                ),
    {
        match self {
            BitsMonitorClient::InProcess(monitor) => match client {
                BitsClient::InProcess(client) => monitor.get_status(client, timeout_millis, poll),
            },
        }
    }
}

} // verus!
