//! Decision and data-shaping logic of an OpenTelemetry exporter for PostgreSQL.
//!
//! The executor hooks of the extension gather plain values from PostgreSQL
//! (query descriptor, plan state tree, configuration settings) and hand them to
//! this library, which decides what is exported and shapes the spans that are
//! queued for the background worker.

pub mod text;
pub mod trace;
pub mod bounded;
pub mod postgres;
pub mod span;
pub mod queue;
pub mod config;
pub mod worker;
