//! Scaffolds a minimal Python project directory: a target folder (optionally
//! nested under a base directory) holding a source stub and a launcher script.
//!
//! The library is split along the boundary between logic and I/O. Parsing the
//! command line into a [`config::Config`], resolving the target path, and
//! deciding each filesystem step are verified here; the binary around the
//! library performs the actual filesystem calls and feeds their results back
//! into the [`materialize::Run`] state machine.

pub mod args;
pub mod config;
pub mod materialize;
pub mod paths;
