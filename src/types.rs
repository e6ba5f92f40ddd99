use vstd::prelude::*;

verus! {

/// A locator (URL or path) of one generated image.
#[derive(Debug, Clone, PartialEq, Eq)]
pub struct DalleResponse {
    pub image_url: String,
}

/// Why a generation did not produce images.
#[derive(Debug, Clone, PartialEq, Eq)]
pub enum GenerationError {
    /// The request could not be carried out (connection, I/O); transient.
    Transport(String),
    /// A reply could not be parsed or lacked a field it must have.
    Protocol(String),
    /// The service rejected the task; the message holds the full reply for
    /// diagnostics.
    Rejected(String),
    /// The attempt budget ran out while the task was pending; holds the number
    /// of status requests made (the budget plus one).
    Timeout(u128),
    /// An enclosing deadline or cancellation fired.
    Cancelled,
}

/// What one status request reported about a task that is not rejected.
#[derive(Debug, Clone, PartialEq, Eq)]
pub enum PollStatus {
    /// The task succeeded with these images, in the order the service gave.
    Done(Vec<DalleResponse>),
    /// The task is still running.
    Pending,
}

} // verus!
