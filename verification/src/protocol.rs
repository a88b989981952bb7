//! What goes to the service and what comes back: one request type for each
//! shape of command, and for each operation the closed set of reasons for
//! which the service may reject it.
use vstd::prelude::*;
use crate::error::ApiError;
use crate::status::{BitsJobStatus, BitsProxyUsage, Guid};

verus! {

/// Why the service did not start a job.
#[derive(Clone, Copy, Debug, PartialEq, Eq, Structural)]
pub enum StartJobFailure {
    /// The URL or the save path is not acceptable.
    ArgumentValidation,
    /// The service failed with this result code.
    Service(i32),
}

/// Why no monitor was attached to a job.
#[derive(Clone, Copy, Debug, PartialEq, Eq, Structural)]
pub enum MonitorJobFailure {
    /// The service has no such job under the client's job name.
    NotFound,
    /// The service failed with this result code.
    Service(i32),
}

/// Why a job was not suspended.
#[derive(Clone, Copy, Debug, PartialEq, Eq, Structural)]
pub enum SuspendJobFailure {
    NotFound,
    /// The job is in a state from which it cannot be suspended.
    InvalidState,
    Service(i32),
}

/// Why a job was not resumed.
#[derive(Clone, Copy, Debug, PartialEq, Eq, Structural)]
pub enum ResumeJobFailure {
    NotFound,
    /// The job is in a state from which it cannot be resumed.
    InvalidState,
    Service(i32),
}

/// Why the priority of a job was not set.
#[derive(Clone, Copy, Debug, PartialEq, Eq, Structural)]
pub enum SetJobPriorityFailure {
    NotFound,
    Service(i32),
}

/// Why the updates of a job were not changed.
#[derive(Clone, Copy, Debug, PartialEq, Eq, Structural)]
pub enum SetUpdateIntervalFailure {
    /// The job has no active monitor.
    NotFound,
}

/// Why a job was not completed.
#[derive(Clone, Copy, Debug, PartialEq, Eq, Structural)]
pub enum CompleteJobFailure {
    NotFound,
    /// The job was completed or cancelled before.
    AlreadyCompleted,
    Service(i32),
}

/// Why a job was not cancelled.
#[derive(Clone, Copy, Debug, PartialEq, Eq, Structural)]
pub enum CancelJobFailure {
    NotFound,
    /// The job was completed or cancelled before.
    AlreadyCompleted,
    Service(i32),
}

/// A started job.
#[derive(Clone, Copy, Debug, PartialEq, Eq, Structural)]
pub struct StartJobSuccess {
    /// The identifier that the service gave the job.
    pub guid: Guid,
}

/// The request to create a job and start its transfer.
#[derive(Clone, Debug, PartialEq, Eq)]
pub struct StartJobRequest {
    /// The client's job name, under which the job is created.
    pub job_name: String,
    pub url: String,
    /// Where the file is saved, the client's prefix included.
    pub save_path: String,
    pub proxy_usage: BitsProxyUsage,
}

/// A `StartJobRequest` as plain values.
pub struct StartJobRequestView {
    pub job_name: Seq<char>,
    pub url: Seq<char>,
    pub save_path: Seq<char>,
    pub proxy_usage: BitsProxyUsage,
}

impl View for StartJobRequest {
    type V = StartJobRequestView;

    open spec fn view(&self) -> StartJobRequestView {
        StartJobRequestView {
            job_name: self.job_name@,
            url: self.url@,
            save_path: self.save_path@,
            proxy_usage: self.proxy_usage,
        }
    }
}

/// A request that concerns one existing job.
#[derive(Clone, Debug, PartialEq, Eq)]
pub struct JobRequest {
    /// The client's job name. The service acts only on jobs of this name.
    pub job_name: String,
    pub guid: Guid,
}

/// A `JobRequest` as plain values.
pub struct JobRequestView {
    pub job_name: Seq<char>,
    pub guid: Guid,
}

impl View for JobRequest {
    type V = JobRequestView;

    open spec fn view(&self) -> JobRequestView {
        JobRequestView { job_name: self.job_name@, guid: self.guid }
    }
}

/// The request to set the priority of one job.
#[derive(Clone, Debug, PartialEq, Eq)]
pub struct SetPriorityRequest {
    pub job_name: String,
    pub guid: Guid,
    /// Foreground priority if set, normal priority if not.
    pub foreground: bool,
}

/// A `SetPriorityRequest` as plain values.
pub struct SetPriorityRequestView {
    pub job_name: Seq<char>,
    pub guid: Guid,
    pub foreground: bool,
}

impl View for SetPriorityRequest {
    type V = SetPriorityRequestView;

    open spec fn view(&self) -> SetPriorityRequestView {
        SetPriorityRequestView {
            job_name: self.job_name@,
            guid: self.guid,
            foreground: self.foreground,
        }
    }
}

/// The request to wait for the next status of a job.
#[derive(Clone, Debug, PartialEq, Eq)]
pub struct PollRequest {
    pub job_name: String,
    pub guid: Guid,
    /// How often the monitor reports, in milliseconds.
    pub interval_millis: u32,
    /// How long the caller is willing to wait, in milliseconds.
    pub timeout_millis: u32,
}

/// A `PollRequest` as plain values.
pub struct PollRequestView {
    pub job_name: Seq<char>,
    pub guid: Guid,
    pub interval_millis: u32,
    pub timeout_millis: u32,
}

impl View for PollRequest {
    type V = PollRequestView;

    open spec fn view(&self) -> PollRequestView {
        PollRequestView {
            job_name: self.job_name@,
            guid: self.guid,
            interval_millis: self.interval_millis,
            timeout_millis: self.timeout_millis,
        }
    }
}

/// What a wait for the next status does when nothing wakes it early: how
/// long it lasts, and whether a status is read at its end.
#[derive(Clone, Copy, Debug, PartialEq, Eq, Structural)]
pub struct PollPlan {
    pub wait_millis: u32,
    pub fetch: bool,
}

impl PollRequest {
    /// The plan of a wait with this interval and timeout.
    ///
    /// A status is due one interval into the wait. If the caller is willing
    /// to wait that long, the wait lasts the interval and a status is read.
    /// Otherwise it lasts the timeout and none is.
    pub open spec fn plan_of(interval_millis: u32, timeout_millis: u32) -> PollPlan {
        if interval_millis <= timeout_millis {
            PollPlan { wait_millis: interval_millis, fetch: true }
        } else {
            PollPlan { wait_millis: timeout_millis, fetch: false }
        }
    }

    /// The plan of the wait that this request asks for.
    pub fn plan(&self) -> (result: PollPlan)
        ensures
            result == Self::plan_of(self.interval_millis, self.timeout_millis),
    {
        if self.interval_millis <= self.timeout_millis {
            PollPlan { wait_millis: self.interval_millis, fetch: true }
        } else {
            PollPlan { wait_millis: self.timeout_millis, fetch: false }
        }
    }
}

/// How a wait for the next status ended.
#[derive(Clone, Copy, Debug, PartialEq, Eq)]
pub enum PollOutcome {
    /// A status became available `waited_millis` milliseconds into the wait.
    Update { waited_millis: u32, status: BitsJobStatus },
    /// The wait ended without a status.
    TimedOut,
    /// The connection to the service is gone.
    Disconnected,
    /// The operating system reported an error.
    Failed(ApiError),
}

/// `driver` may be called with every request that reads as `request`.
pub open spec fn accepts<Req: View, Reply, F: FnOnce(Req) -> Reply>(
    driver: F,
    request: Req::V,
) -> bool {
    forall|req: Req| req@ == request ==> call_requires(driver, (req,))
}

/// `reply` is an answer of `driver` to a request that reads as `request`.
pub open spec fn answers<Req: View, Reply, F: FnOnce(Req) -> Reply>(
    driver: F,
    request: Req::V,
    reply: Reply,
) -> bool {
    exists|req: Req| req@ == request && call_ensures(driver, (req,), reply)
}

} // verus!
