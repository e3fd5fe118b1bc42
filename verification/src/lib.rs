//! Verified core of the Prism command-line tool: argument parsing, report
//! rendering, raw XDR decoding, cache-size formatting and the decisions of
//! the trace streaming server.

pub mod analysis;
pub mod base64;
pub mod clean;
pub mod cli;
pub mod cli_laws;
pub mod db;
pub mod decode;
pub mod logging;
pub mod renderers;
pub mod report;
pub mod serve;
pub mod text;
pub mod version;
