//! Client-side lifecycle of remote image generation tasks: request and reply
//! handling, a bounded poll loop, and best-effort realisation of the
//! resulting image references into bytes.
pub mod types;
pub mod json;
pub mod protocol;
pub mod polling;
pub mod session;
pub mod fetch;
pub mod client;
pub mod fake;

pub use types::{DalleResponse, GenerationError, PollStatus};
pub use protocol::{
    get_task, read_remaining_credits, read_task_id, submit_body, task_url, TaskReply, CREDITS_URL,
    POLL_INTERVAL_SECS, TASKS_URL,
};
pub use polling::{PollDecision, PollLoop};
pub use session::{Action, Event, Session, Stage};
pub use fetch::{fetch_all, FetchError, FetchedArtifact};
pub use client::{ClientError, Dalle};
pub use fake::{Data, DalleClient, FakeDalle};
