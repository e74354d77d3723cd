//! Verified core of a health-polling sidecar.
//!
//! The library describes and proves the polling loop's decisions: the
//! configuration model, the round-robin interleaving of the per-tick task
//! set, the global concurrency bound and tick atomicity, and the
//! classification of request outcomes. The surrounding process (HTTP
//! front-end, configuration loading, the actual network calls) lives
//! outside the library and only hands plain values in and out.

pub mod config;
pub mod outcome;
pub mod poller;
pub mod schedule;

pub use config::{ConfigError, Endpoint, Payload, RpcServiceConfig};
pub use outcome::{FetchResult, Outcome, OutcomeKind, RequestPlan};
pub use poller::Poller;
pub use schedule::Task;
