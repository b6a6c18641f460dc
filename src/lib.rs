//! Supervision of a bundled local server process: locating its executable,
//! planning its launch, sequencing startup, and holding its handle.
pub mod paths;
pub mod resolve;
pub mod launch;
pub mod supervisor;
pub mod startup;
pub mod download;
