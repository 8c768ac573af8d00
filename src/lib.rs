//! Cross-contract instantiation harness: artifact introspection, salt
//! policies, request building, address resolution and the scenario state
//! machine that ties them together.
pub mod artifact;
pub mod driver;
pub mod events;
pub mod genesis;
pub mod hex;
pub mod salt;
pub mod scenario;
