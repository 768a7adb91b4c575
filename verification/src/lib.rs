//! Reconstruction of per-asset histories of non-fungible tokens from the
//! instructions of a token program and a metadata program.

pub mod assemble;
pub mod bonbon;
pub mod config;
pub mod convert;
pub mod fetch;
pub mod instruction;
pub mod laws;
pub mod ownership;
pub mod partition;
pub mod pubkey;
pub mod rows;
pub mod search;
pub mod transaction;
pub mod trusted;
