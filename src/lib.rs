//! A registry of users, surveys, candidates, votes and administrators, each
//! kept as string records in a collection of its own, with unique
//! identifiers, references checked on creation and authentication by RFC.
pub mod laws;
pub mod model;
pub mod registry;
pub mod store;

pub use model::RegistryError;
pub use registry::TalentManagementContract;
pub use store::RecordStore;
