//! Confidential transfers: their data, construction, verification and tracing.

pub mod asset_mixer;
pub mod asset_record;
pub mod balance;
pub mod classify;
pub mod guarantees;
pub mod lib;
pub mod policies;
pub mod sig;
pub mod structs;
pub mod tracing;
