//! Watches a configured list of image files and reapplies a declarative
//! pipeline of image transformations whenever a watched file changes.
//!
//! The crate holds the verified core: the configuration resolver that turns a
//! typed document into concrete per-file tasks, the change detector that
//! decides from modification timestamps when a task must run, and the
//! pipeline executor that applies the configured transformations in one
//! fixed, documented order. Reading the configuration file, polling the
//! filesystem and loading or saving images belong to the surrounding binary.

pub mod config;
pub mod text;
pub mod paths;
pub mod pipeline;
pub mod watch;
