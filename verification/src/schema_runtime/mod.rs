//! The deploy engine: request validation, command construction, the deploy and
//! test pipelines, and the durable state they move.

pub mod activation;
pub mod admissions;
pub mod answers;
pub mod configuration;
pub mod decisions;
pub mod deploy_decisions;
pub mod effects;
pub mod engine;
pub mod flake_metadata;
pub mod flake_policy;
pub mod inputs;
pub mod invariants;
pub mod laws;
pub mod listings;
pub mod materialization;
pub mod meta;
pub mod nix_command;
pub mod ordinary;
pub mod pipeline;
pub mod queries;
pub mod readings;
pub mod requested;
pub mod requests;
pub mod restarts;
pub mod resume;
pub mod retention;
pub mod runner;
pub mod shell;
pub mod sources;
pub mod ssh_target;
pub mod steps;
pub mod store;
pub mod store_path;
pub mod taking_effect;
pub mod test_runs;
pub mod trials;
pub mod writes;
