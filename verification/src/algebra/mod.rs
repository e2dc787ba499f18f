//! Scalars and group elements of pairing-friendly curves.

pub mod bls12_381;
