//! Bootstrapper core: the workflow that brings a machine from "nothing
//! installed" to "application running", the progress channel between the
//! worker and the observer, and the observer's dispatch rules.

pub mod channel;
pub mod driver;
pub mod laws;
pub mod observer;
pub mod signal;
pub mod workflow;

pub use channel::ProgressQueue;
pub use driver::{Collaborators, ProgressSink, RunRecord, fast_path, run_downloader};
pub use observer::{Observer, Reaction};
pub use signal::ProgressSignal;
pub use workflow::{Action, Event, FailureCause, Phase, RuntimeHandle, Workflow, WorkflowOutcome};
