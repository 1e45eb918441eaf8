//! Verified core of an AppSignal instrumentation client.
//!
//! The client never talks to the collector itself. Every operation checks and
//! encodes its arguments and hands back an [`AgentCall`]: the one invocation
//! of the agent's native interface that a driver has to make. Where the
//! agent answers, the answer goes back into the client as a plain value: the
//! handle to [`Transaction::opened`], the verdict on sample data to
//! [`Transaction::keeps_sample_data`].

pub mod agent;
pub mod download;
pub mod error_name;
pub mod error_record;
pub mod fault;
pub mod json;
pub mod lifecycle;
pub mod metrics;
pub mod native_text;
pub mod stack;
pub mod transaction;

pub use agent::{AgentCall, Call};
pub use download::{download_agent_archive, Download};
pub use error_record::ErrorRecord;
pub use fault::{track_panic, track_panic_with, PanicReport};
pub use lifecycle::{start, stop, Config, Environment};
pub use metrics::{add_distribution_value, increment_counter, set_gauge};
pub use native_text::{EncodeError, NativeText};
pub use stack::{capture_frames, frames_in, Frame};
pub use transaction::Transaction;
