//! The errors of the transfer core.

use vstd::prelude::*;

verus! {

/// Why an operation on a transfer was refused.
#[derive(Clone, Copy, Debug, PartialEq, Eq, Structural)]
pub enum ZeiError {
    /// Lengths or shapes of the arguments do not fit together.
    ParameterError,
    /// On construction: some asset's outputs exceed its inputs, or the proof
    /// does not fit the kind of transfer.
    XfrCreationAssetAmountError,
    /// On verification: revealed amounts do not balance, or revealed asset
    /// types differ.
    XfrVerifyAssetAmountError,
    /// The range proofs were rejected.
    XfrVerifyConfidentialAmountError,
    /// The asset-equality proofs were rejected.
    XfrVerifyConfidentialAssetError,
    /// The asset-mixing proofs were rejected.
    XfrVerifyAssetMixError,
    /// A signature is invalid.
    XfrVerifyMultisigError,
    /// A tracing proof was rejected.
    XfrVerifyTrackingError,
    /// A transfer body breaks its own invariants.
    InconsistentStructureError,
    /// A traced amount or asset type is not the expected one.
    AssetTracingExtractionError,
    /// A traced identity attribute is not the expected one.
    IdentityTracingExtractionError,
}

} // verus!
