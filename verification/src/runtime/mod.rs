//! The planes of the deploy daemon: what each one keeps, and how a request moves
//! from plane to plane.

pub mod activator;
pub mod authorization;
pub mod builder;
pub mod codec;
pub mod communicate;
pub mod conversation;
pub mod copier;
pub mod dispatcher;
pub mod gc_root;
pub mod laws;
pub mod nexus;
pub mod observation;
pub mod run;
pub mod socket;
pub mod source_stager;
pub mod store;
pub mod toolchain;
pub mod trace;
