//! Deploy orchestration for cluster hosts and user environments.
pub mod error;
pub mod generated;
pub mod paths;
pub mod runtime;
pub mod runtime_flow;
pub mod runtime_model;
pub mod schema_runtime;
pub mod socket;
pub mod text;
pub mod text_laws;
