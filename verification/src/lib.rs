//! Collects the textual contents of files discovered under a directory,
//! filtered by filename substrings and excluded path substrings, and renders
//! them as one concatenated report.
//!
//! The library holds the pure pipeline: classification of a file as text or
//! binary, the include/exclude filter decisions, UTF-8 decoding of contents,
//! and the rendering of the final report. Directory walking, clipboard access
//! and command-line parsing live outside it and hand plain values in.

pub mod app;
pub mod laws;
pub mod text;
pub mod util;
