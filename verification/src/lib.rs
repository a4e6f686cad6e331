//! Chunked confidential-metadata transfer: an ElGamal-encrypted secret is
//! re-encrypted chunk by chunk under a new holder's key, each chunk guarded by
//! a zero-knowledge equality proof, and committed atomically once every chunk
//! has been proven.

pub mod buffer_assisted;
pub mod curve;
pub mod equality_proof;
pub mod error;
pub mod instruction;
pub mod laws;
pub mod pod;
pub mod processor;
pub mod state;
pub mod transcript;
pub mod transfer_proof;
