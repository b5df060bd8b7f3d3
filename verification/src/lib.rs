//! A periodic service-health poller, as a library of decisions.
//!
//! The poller reads a list of services from its configuration, asks a
//! service-control command for the status of each, classifies what the
//! command answers, reports the round and logs the failures. This library
//! decides and computes; its caller reads files and clocks, runs the
//! command, prints and sleeps.
//!
//! - [`config`]: the configuration, its default, its normal form, its JSON.
//! - [`status`]: from the outcome of one invocation to a status or an error.
//! - [`errlog`]: the lines of the error log.
//! - [`stamp`]: the time that a round carries.
//! - [`report`]: the report of a round and its JSON.
//! - [`poll`]: the poll loop as a state machine.
//! - [`json`]: JSON documents as mathematical values, and `serde_json`.
//! - [`text`]: substring search and decimal numerals.

pub mod config;
pub mod errlog;
pub mod json;
pub mod poll;
pub mod report;
pub mod stamp;
pub mod status;
pub mod text;
