//! The error type of the library.
use vstd::prelude::*;
use crate::text::concat2;

verus! {

/// Errors reported by queue operations.
#[derive(Debug)]
pub enum BullmqError {
    /// No job with the given id exists.
    JobNotFound(String),
    /// The worker has been shut down.
    WorkerClosed,
    /// The job's lock token no longer matches: the job was stalled and
    /// recovered by another worker.
    LockMismatch,
    /// The queue is paused.
    QueuePaused,
    /// A Lua script reported an error.
    ScriptError(String),
    /// The operation is not implemented.
    NotImplemented(String),
    /// A script replied with a value of a shape that its decoder does not
    /// accept; the text names the script and what was expected.
    UnexpectedReply(String),
    /// Any other error, with its message.
    Other(String),
}

/// The message of an error, as its `Display` text reads.
pub open spec fn error_message(e: BullmqError) -> Seq<char> {
    match e {
        BullmqError::JobNotFound(id) => "Job not found: "@ + id@,
        BullmqError::WorkerClosed => "Worker has been shut down"@,
        BullmqError::LockMismatch => "Lock token mismatch: job was stalled and recovered"@,
        BullmqError::QueuePaused => "Queue is paused"@,
        BullmqError::ScriptError(s) => "Script error: "@ + s@,
        BullmqError::NotImplemented(s) => "Not implemented: "@ + s@,
        BullmqError::UnexpectedReply(s) => s@,
        BullmqError::Other(s) => s@,
    }
}

impl BullmqError {
    /// The human-readable message of the error.
    pub fn message(&self) -> (r: String)
        ensures
            r@ == error_message(*self),
    {
        match self {
            BullmqError::JobNotFound(id) => concat2("Job not found: ", id.as_str()),
            BullmqError::WorkerClosed => "Worker has been shut down".to_owned(),
            BullmqError::LockMismatch => "Lock token mismatch: job was stalled and recovered".to_owned(),
            BullmqError::QueuePaused => "Queue is paused".to_owned(),
            BullmqError::ScriptError(s) => concat2("Script error: ", s.as_str()),
            BullmqError::NotImplemented(s) => concat2("Not implemented: ", s.as_str()),
            BullmqError::UnexpectedReply(s) => s.clone(),
            BullmqError::Other(s) => s.clone(),
        }
    }
}

} // verus!
