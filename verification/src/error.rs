//! Communication failures: the transport itself is broken.
//!
//! The set is closed and is the same for every transport, so call sites do
//! not change when the transport does.
use vstd::prelude::*;

verus! {

/// Source position of a failing system call.
#[derive(Clone, Copy, Debug, PartialEq, Eq)]
pub struct FileLine {
    pub file: &'static str,
    pub line: u32,
}

/// An error code of the operating system, with what is known of the call
/// that produced it.
#[derive(Clone, Copy, Debug, PartialEq, Eq)]
pub struct ApiError {
    /// The result code as the system reported it.
    pub code: i32,
    /// Name of the failing function, if known.
    pub function: Option<&'static str>,
    /// Where the failing call was made, if known.
    pub file_line: Option<FileLine>,
}

/// A failure of the transport, as opposed to a request that the service
/// rejected.
#[derive(Clone, Debug, PartialEq, Eq)]
pub enum PipeError {
    /// The transport is not established, or was severed.
    NotConnected,
    /// No response arrived within the caller's deadline.
    Timeout,
    /// A frame of the first number of bytes was to be written, and the second
    /// number of bytes was written.
    WriteCount(usize, u32),
    /// An error of the operating system, kept as the cause.
    Api(ApiError),
}

impl From<ApiError> for PipeError {
    fn from(err: ApiError) -> (result: PipeError) {
        PipeError::Api(err)
    }
}

impl vstd::std_specs::convert::FromSpecImpl<ApiError> for PipeError {
    open spec fn obeys_from_spec() -> bool {
        true
    }

    open spec fn from_spec(err: ApiError) -> PipeError {
        PipeError::Api(err)
    }
}

impl PipeError {
    /// What a framed write of `expected` bytes that wrote `actual` bytes
    /// amounts to: nothing when the counts agree, `WriteCount` otherwise.
    pub open spec fn write_outcome(expected: usize, actual: u32) -> Result<(), PipeError> {
        if actual as int == expected as int {
            Ok(())
        } else {
            Err(PipeError::WriteCount(expected, actual))
        }
    }

    /// Checks that a framed write wrote exactly the bytes of the frame.
    pub fn check_write(expected: usize, actual: u32) -> (result: Result<(), PipeError>)
        ensures
            result == Self::write_outcome(expected, actual),
    {
        if actual as u64 == expected as u64 {
            Ok(())
        } else {
            Err(PipeError::WriteCount(expected, actual))
        }
    }

    /// The operating-system error behind this failure, if there is one.
    pub fn cause(&self) -> (result: Option<ApiError>)
        ensures
            result == match *self {
                PipeError::Api(err) => Some(err),
                _ => None,
            },
    {
        match self {
            PipeError::Api(err) => Some(*err),
            _ => None,
        }
    }

    /// Whether the failure is a missed deadline. Every other kind means that
    /// the connection, or the job, is gone.
    pub fn is_timeout(&self) -> (result: bool)
        ensures
            result == (*self is Timeout),
    {
        match self {
            PipeError::Timeout => true,
            _ => false,
        }
    }
}

/// A write that wrote the whole frame never yields `WriteCount`, and a write
/// that wrote less always does, with both counts as they were.
pub proof fn lemma_write_count_only_on_short_write(expected: usize, actual: u32)
    requires
        actual <= expected,
    ensures
        PipeError::write_outcome(expected, actual) is Err <==> actual < expected,
        PipeError::write_outcome(expected, actual) is Err ==> PipeError::write_outcome(
            expected,
            actual,
        ) == Err::<(), PipeError>(PipeError::WriteCount(expected, actual)),
{
}

} // verus!
