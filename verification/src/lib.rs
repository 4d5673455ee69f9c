//! Core of an attestation protocol: schema registry, BLS key registry,
//! delegated attestation and revocation, with every state transition
//! verified against its contract.

pub mod bytes;
pub mod errors;
pub mod host;
pub mod instructions;
pub mod laws;
pub mod laws_of_operations;
pub mod state;
pub mod table;
pub mod utils;

pub use errors::Error;
