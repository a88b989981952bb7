//! Point-in-time view of one job, as the service reports it.
//!
//! The enumerations mirror those of the service and are handed through
//! unchanged.
use vstd::prelude::*;

verus! {

/// The 128-bit identifier that the service assigns to a job when it creates
/// it.
#[derive(Clone, Copy, Debug, PartialEq, Eq, Structural, Hash)]
pub struct Guid(pub u128);

/// Which proxy a job uses.
#[derive(Clone, Copy, Debug, PartialEq, Eq, Structural)]
pub enum BitsProxyUsage {
    /// The proxy configured for the user.
    Preconfig,
    /// No proxy.
    NoProxy,
    /// Detect the proxy settings automatically.
    AutoDetect,
}

/// State of a job.
#[derive(Clone, Copy, Debug, PartialEq, Eq, Structural)]
pub enum BitsJobState {
    Queued,
    Connecting,
    Transferring,
    Suspended,
    Error,
    TransientError,
    Transferred,
    Acknowledged,
    Cancelled,
    /// A state that this enumeration does not name, by its number.
    Other(u32),
}

/// Where an error of a job occurred.
#[derive(Clone, Copy, Debug, PartialEq, Eq, Structural)]
pub enum BitsErrorContext {
    /// The error has no context.
    Absent,
    Unknown,
    GeneralQueueManager,
    QueueManagerNotification,
    LocalFile,
    RemoteFile,
    GeneralTransport,
    RemoteApplication,
    /// A context that this enumeration does not name, by its number.
    Other(u32),
}

/// Detail of the error that a job is in.
#[derive(Clone, Copy, Debug, PartialEq, Eq, Structural)]
pub struct BitsJobError {
    pub context: BitsErrorContext,
    /// The result code of the failed transfer step.
    pub code: i32,
}

/// How far a job's transfer has come.
#[derive(Clone, Copy, Debug, PartialEq, Eq, Structural)]
pub struct BitsJobProgress {
    /// Size of the whole transfer, once the service knows it.
    pub total_bytes: Option<u64>,
    pub transferred_bytes: u64,
    pub total_files: u32,
    pub transferred_files: u32,
}

/// One status report of a job.
#[derive(Clone, Copy, Debug, PartialEq, Eq, Structural)]
pub struct BitsJobStatus {
    pub state: BitsJobState,
    pub progress: BitsJobProgress,
    /// Set while the job is in an error state.
    pub error: Option<BitsJobError>,
}

impl BitsJobProgress {
    /// The transferred share of the total in whole percent, rounded down and
    /// capped at 100. There is none while the total is unknown or zero.
    pub open spec fn percent_spec(self) -> Option<u8> {
        match self.total_bytes {
            Some(total) => if total == 0 {
                None
            } else if self.transferred_bytes >= total {
                Some(100u8)
            } else {
                Some(((self.transferred_bytes * 100) / (total as int)) as u8)
            },
            None => None,
        }
    }

    /// The transferred share of the total in whole percent.
    ///
    /// It is below 100 exactly while fewer bytes are transferred than the
    /// total holds.
    pub fn percent(&self) -> (result: Option<u8>)
        ensures
            result == self.percent_spec(),
            result is Some <==> (self.total_bytes matches Some(total) && total > 0),
            result matches Some(p) ==> p <= 100 && (p < 100 <==> self.transferred_bytes
                < self.total_bytes.unwrap()),
    {
        match self.total_bytes {
            Some(total) => {
                if total == 0 {
                    None
                } else if self.transferred_bytes >= total {
                    Some(100)
                } else {
                    let scaled: u128 = self.transferred_bytes as u128 * 100;
                    let share: u128 = scaled / (total as u128);
                    assert(share < 100) by (nonlinear_arith)
                        requires
                            share == scaled / (total as u128),
                            scaled == self.transferred_bytes * 100,
                            self.transferred_bytes < total,
                            total > 0,
                    ;
                    Some(share as u8)
                }
            },
            None => None,
        }
    }
}

} // verus!
