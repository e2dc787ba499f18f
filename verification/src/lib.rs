//! Confidential transfer core: classification of transfers, balance checks,
//! preparation of proof inputs, batched verification bookkeeping and asset
//! tracing, with the byte utilities they rest on.

pub mod algebra;
pub mod bytes;
pub mod errors;
pub mod ristretto;
pub mod utils;
pub mod xfr;
