//! Coordination core of a telemetry generator: many simulated entities draw
//! rows from a shared budget, batch them per entity and hand full batches to
//! a sink under a bounded number of concurrent flushes.
pub mod batch;
pub mod budget;
pub mod config;
pub mod entity;
pub mod identity;
pub mod producer;
