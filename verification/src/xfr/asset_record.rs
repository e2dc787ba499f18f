//! Making records: what they hide, and the commitments that hide it.

use crate::ristretto::{
    pedersen_commit, pedersen_commitment, ristretto_decodes, scalar_from_u64, Scalar,
};
use crate::utils::u64_to_u32_pair;
use crate::xfr::asset_mixer::{asset_type_scalar, asset_type_to_scalar};
use crate::xfr::sig::XfrPublicKey;
use crate::xfr::structs::{
    AssetRecord, AssetType, BlindAssetRecord, OpenAssetRecord, XfrAmount, XfrAssetType,
};
use vstd::prelude::*;

verus! {

/// What a record hides.
#[derive(Clone, Copy, Debug, PartialEq, Eq, Structural)]
#[allow(non_camel_case_types)]
pub enum AssetRecordType {
    NonConfidentialAmount_ConfidentialAssetType,
    ConfidentialAmount_NonConfidentialAssetType,
    ConfidentialAmount_ConfidentialAssetType,
    NonConfidentialAmount_NonConfidentialAssetType,
}

impl AssetRecordType {
    /// Whether a record of this type hides its amount.
    pub open spec fn hides_amount(&self) -> bool {
        *self is ConfidentialAmount_NonConfidentialAssetType
            || *self is ConfidentialAmount_ConfidentialAssetType
    }

    /// Whether a record of this type hides its asset type.
    pub open spec fn hides_asset_type(&self) -> bool {
        *self is NonConfidentialAmount_ConfidentialAssetType
            || *self is ConfidentialAmount_ConfidentialAssetType
    }

    /// Whether a record of this type hides its amount.
    pub fn is_confidential_amount(&self) -> (hidden: bool)
        ensures
            hidden == self.hides_amount(),
    {
        match self {
            AssetRecordType::ConfidentialAmount_NonConfidentialAssetType => true,
            AssetRecordType::ConfidentialAmount_ConfidentialAssetType => true,
            _ => false,
        }
    }

    /// Whether a record of this type hides its asset type.
    pub fn is_confidential_asset_type(&self) -> (hidden: bool)
        ensures
            hidden == self.hides_asset_type(),
    {
        match self {
            AssetRecordType::NonConfidentialAmount_ConfidentialAssetType => true,
            AssetRecordType::ConfidentialAmount_ConfidentialAssetType => true,
            _ => false,
        }
    }
}

impl OpenAssetRecord {
    /// The wire record says of the amount and the asset type what the
    /// sender knows: a revealed amount or asset type is the sender's, and a
    /// hidden one is committed to under the sender's blinding factors, the
    /// amount by its low and its high 32 bits.
    pub open spec fn well_formed(&self) -> bool {
        &&& match self.blind_asset_record.amount {
            XfrAmount::NonConfidential(amount) => amount == self.amount,
            XfrAmount::Confidential((low, high)) => {
                &&& low@ == pedersen_commitment(
                    (self.amount % 0x1_0000_0000) as nat,
                    self.amount_blinds.0@,
                )
                &&& high@ == pedersen_commitment(
                    (self.amount / 0x1_0000_0000) as nat,
                    self.amount_blinds.1@,
                )
                &&& ristretto_decodes(low@)
                &&& ristretto_decodes(high@)
            },
        }
        &&& match self.blind_asset_record.asset_type {
            XfrAssetType::NonConfidential(asset_type) => asset_type == self.asset_type,
            XfrAssetType::Confidential(c) => {
                &&& c@ == pedersen_commitment(asset_type_scalar(self.asset_type), self.type_blind@)
                &&& ristretto_decodes(c@)
            },
        }
    }
}

/// Makes the record of `amount` of `asset_type` for the owner `public_key`,
/// hiding what `asset_record_type` says, under the given blinding factors.
pub fn build_open_asset_record(
    amount: u64,
    asset_type: AssetType,
    asset_record_type: AssetRecordType,
    public_key: XfrPublicKey,
    amount_blinds: (Scalar, Scalar),
    type_blind: Scalar,
) -> (record: OpenAssetRecord)
    ensures
        record.well_formed(),
        record.amount == amount,
        record.asset_type == asset_type,
        record.amount_blinds == amount_blinds,
        record.type_blind == type_blind,
        record.blind_asset_record.public_key == public_key,
        record.blind_asset_record.amount is Confidential == asset_record_type.hides_amount(),
        record.blind_asset_record.asset_type is Confidential
            == asset_record_type.hides_asset_type(),
{
    let xfr_amount = if asset_record_type.is_confidential_amount() {
        let (low, high) = u64_to_u32_pair(amount);
        XfrAmount::Confidential(
            (
                pedersen_commit(&scalar_from_u64(low as u64), &amount_blinds.0),
                pedersen_commit(&scalar_from_u64(high as u64), &amount_blinds.1),
            ),
        )
    } else {
        XfrAmount::NonConfidential(amount)
    };
    let xfr_asset_type = if asset_record_type.is_confidential_asset_type() {
        XfrAssetType::Confidential(pedersen_commit(&asset_type_to_scalar(&asset_type), &type_blind))
    } else {
        XfrAssetType::NonConfidential(asset_type)
    };
    OpenAssetRecord {
        blind_asset_record: BlindAssetRecord {
            amount: xfr_amount,
            asset_type: xfr_asset_type,
            public_key,
        },
        amount,
        amount_blinds,
        asset_type,
        type_blind,
    }
}

impl AssetRecord {
    /// The record with no tracer memos, no identity proofs and no owner memo.
    pub fn from_open_asset_record_no_asset_tracking(open_asset_record: OpenAssetRecord) -> (record:
        AssetRecord)
        ensures
            record.open_asset_record == open_asset_record,
            record.asset_tracers_memos@.len() == 0,
            record.identity_proofs@.len() == 0,
            record.owner_memo is None,
    {
        AssetRecord {
            open_asset_record,
            asset_tracers_memos: Vec::new(),
            identity_proofs: Vec::new(),
            owner_memo: None,
        }
    }
}

} // verus!
