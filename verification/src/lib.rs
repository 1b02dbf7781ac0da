//! Startup bootstrap for a locally-hosted backend sidecar process.
//!
//! The library holds the decision logic of the bootstrap: resolving the
//! sidecar binary's expected path next to the running application binary,
//! choosing the one startup action from the build-time deployment mode,
//! mapping the operating system's spawn reply to a launch outcome, and
//! rendering the single diagnostic log line.  The surrounding application
//! performs the process spawn and the file writes and hands their results
//! in as plain values.

pub mod diag;
pub mod launch;
pub mod locator;
