//! Decision logic of the Chronos delay-queue service: configuration, message
//! routing by deadline, insert retries, metric definitions and label sets.

pub mod config;
pub mod decimal;
pub mod headers;
pub mod metric_definitions;
pub mod metric_labels;
pub mod metrics_server;
pub mod receiver;
pub mod telemetry;
pub mod timestamp;
