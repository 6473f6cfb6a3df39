//! Runs one shell command in every visible subdirectory and lays out a
//! labelled, separator-delimited report for each of them.
//!
//! The library holds the decisions: which directory entries take part, what
//! is reported for each outcome under the `ignore_errors` and `quiet` flags,
//! and how each report block becomes a line of text.
use vstd::prelude::*;

pub mod config;
pub mod decimal;
pub mod lines;
pub mod listing;
pub mod outcome;
pub mod report;
