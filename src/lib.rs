//! Orchestration logic for comparing two builds of one library: package
//! references, build lanes, build-plan scanning, the hand-off protocol to the
//! analysis process, and recovery of crate identities inside it.

pub mod capture;
pub mod error;
pub mod identity;
pub mod json;
pub mod lane;
pub mod launch;
pub mod orchestrate;
pub mod package;
pub mod plan;
pub mod registry;
pub mod sources;
