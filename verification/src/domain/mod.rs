//! The experiment's configuration, results, adapter interface and run.

pub mod config;
pub mod experiment;
pub mod results;
pub mod traits;
