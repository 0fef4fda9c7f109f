//! Change-computation core for scaffolding a new contract module.
//!
//! The library computes, without performing any I/O, the ordered list of
//! project mutations (file creations and a manifest edit) needed to add a
//! new contract module to a project. An external applier is expected to
//! carry the changes out.

pub mod changes;
pub mod generator;
pub mod laws;
pub mod templates;

pub use changes::Changes;
pub use changes::ContractConfig;
pub use changes::FileCreation;
pub use changes::RequirementConfig;
pub use changes::TOMLEdition;
pub use generator::GetChangesForNewContract;
