//! Client side of a background file-transfer service.
//!
//! A [`BitsClient`] turns each caller intent into one request to the service
//! and unwraps the answer into two tiers: an outer communication result and
//! an inner, per-operation execution result. A [`BitsMonitorClient`] polls one
//! job for status and owns that job's priority boost while it is active.
//!
//! The service itself is not part of this crate. Every operation that needs
//! it takes the call as a function value, so the decisions made around the
//! call are stated and proved here for whatever the service answers.
pub mod client;
pub mod error;
pub mod in_process;
pub mod model;
pub mod path;
pub mod priority;
pub mod protocol;
pub mod status;
pub mod table;

pub use client::{BitsClient, BitsMonitorClient};
pub use error::PipeError as Error;
pub use error::{ApiError, FileLine, PipeError};
pub use in_process::{InProcessClient, InProcessMonitor, MonitorId};
pub use model::ClientModel;
pub use protocol::{
    CancelJobFailure, CompleteJobFailure, JobRequest, MonitorJobFailure, PollOutcome, PollPlan,
    PollRequest,
    ResumeJobFailure, SetJobPriorityFailure, SetPriorityRequest, SetUpdateIntervalFailure,
    StartJobFailure, StartJobRequest, StartJobSuccess, SuspendJobFailure,
};
pub use priority::{MonitorEvent, PriorityChange, PriorityState, PriorityStep};
pub use table::{MonitorRecord, MonitorTable};
pub use status::{
    BitsErrorContext, BitsJobError, BitsJobProgress, BitsJobState, BitsJobStatus, BitsProxyUsage,
    Guid,
};
