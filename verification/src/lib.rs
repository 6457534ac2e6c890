//! A system-information display engine: probes report optional facts about
//! the host, a shared accumulator collects them write-once, and a renderer
//! turns each accumulator snapshot into terminal lines beside an ASCII logo.
//!
//! All gathering of raw data (file contents, command output, environment
//! variables) happens outside this crate; every function here is a pure,
//! verified transformation from those plain values to the displayed result.

pub mod colors;
pub mod config;
pub mod driver;
pub mod json;
pub mod logging;
pub mod logo;
pub mod render;
pub mod dispatch;
pub mod probes;
pub mod report;
pub mod text;
