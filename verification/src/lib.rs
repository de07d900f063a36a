//! A minimal HTTP trigger service core: an authenticated endpoint that shells
//! out to a container-orchestration command and reports the result.
//!
//! This crate holds the verified decision logic of that service: the
//! credential check, the primary/fallback command policy, the reduction of
//! command outcomes to a single result, the response envelope, and the pure
//! parts of settings handling and log-line formatting. The surrounding
//! process (HTTP server, process spawning, file and clock access) lives
//! outside the library and hands it plain values.

pub mod apply;
pub mod formatter;
pub mod response;
pub mod settings;
pub mod text;
pub mod trigger;

pub use response::ApiResponse;
pub use trigger::CommandOutcome;
