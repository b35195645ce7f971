//! Dispatch of network-measurement jobs to a probe network: region
//! resolution, per-job request building and retry, bounded-concurrency
//! scheduling and the bookkeeping of the progress pipeline.

pub mod text;
pub mod errors;
pub mod regions;
pub mod resolver;
pub mod options;
pub mod job;
pub mod retry;
pub mod headers;
pub mod scheduler;
pub mod validators;
pub mod nodes;
pub mod config;
pub mod api;
pub mod display;
pub mod progress;
