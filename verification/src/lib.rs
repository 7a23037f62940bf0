//! A small plugin SDK for endpoint isolation tooling.
//!
//! The library turns a list of `key=value` command-line tokens into an
//! argument map, builds standardized single-line JSON responses, and
//! decides the outcome (exit code, stdout line, stderr diagnostics) of
//! the isolate and unisolate entry points. All of the decision logic and
//! the exact bytes of the emitted JSON line are specified and verified;
//! a thin unverified shell performs the actual reads of the process
//! arguments, the writes to the standard streams, and the process exit.

pub mod args;
pub mod entry;
pub mod json;
pub mod response;

pub use args::parse_args;
pub use args::ArgMap;
pub use entry::run_isolate;
pub use entry::run_unisolate;
pub use entry::Action;
pub use entry::Outcome;
pub use response::error_response;
pub use response::success_response;
pub use response::Response;
pub use response::Status;
