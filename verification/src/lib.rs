//! Entity state machines over continuous-query results, the registry that links
//! a state machine reaction to its companion source, and the dashboard reaction's
//! configuration model.

pub mod keyed;
pub mod config;
pub mod json;
pub mod template;
pub mod engine;
pub mod registry;
pub mod clock;
pub mod node;
pub mod component;
pub mod dashboard;
pub mod descriptor;
pub mod laws;
pub mod postgres;
