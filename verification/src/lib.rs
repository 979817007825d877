//! Scheduling core of a liveness-monitoring engine: the data model of a
//! monitor, the rules by which monitors are reconciled, scheduled and probed,
//! and the decisions taken by the supervisory loop.

pub mod config;
pub mod db;
pub mod extensions;
pub mod models;
pub mod monitor;
pub mod names;
pub mod signal;
