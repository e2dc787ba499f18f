//! What the asset-mixing proof is made from and verified against.

use crate::errors::ZeiError;
use crate::ristretto::{
    group_order, pedersen_commit, pedersen_commitment, point_add, point_scale, ristretto_decodes,
    ristretto_scaled, ristretto_sum, scalar_add, scalar_from_u128, scalar_from_u64, scalar_mul,
    CompressedRistretto, Scalar,
};
use crate::utils::{le_value, u64_to_u32_pair, u8_le_slice_to_u128};
use crate::xfr::structs::{
    AssetMixProof, AssetType, BlindAssetRecord, OpenAssetRecord, XfrAmount, XfrAssetType,
};
use vstd::prelude::*;

verus! {

/// Two to the power 32: the weight of the high limb of an amount.
pub const POW_2_32: u64 = 0x1_0000_0000u64;

/// The integer that stands for an asset type when it is committed: its 16
/// bytes read least significant first.
pub open spec fn asset_type_scalar(asset_type: AssetType) -> nat {
    le_value(asset_type@)
}

/// The scalar that stands for an asset type when it is committed.
pub fn asset_type_to_scalar(asset_type: &AssetType) -> (s: Scalar)
    ensures
        s@ == asset_type_scalar(*asset_type),
{
    scalar_from_u128(u8_le_slice_to_u128(asset_type.as_slice()))
}

/// What the prover of an asset-mixing proof knows of one record.
#[derive(Clone, Copy, Debug, PartialEq, Eq)]
pub struct AssetMixWitness {
    pub amount: u64,
    pub asset_type: Scalar,
    /// The blinding of the low limb plus `2^32` times that of the high limb.
    pub amount_blind: Scalar,
    pub type_blind: Scalar,
}

impl AssetMixWitness {
    /// The witness is the one of `record`.
    pub open spec fn is_of(&self, record: OpenAssetRecord) -> bool {
        &&& self.amount == record.amount
        &&& self.asset_type@ == asset_type_scalar(record.asset_type)
        &&& self.amount_blind@ == (record.amount_blinds.0@ + 0x1_0000_0000nat
            * record.amount_blinds.1@) % group_order()
        &&& self.type_blind == record.type_blind
    }
}

/// The asset-mixing witness of a record.
pub fn asset_mix_witness(record: &OpenAssetRecord) -> (witness: AssetMixWitness)
    ensures
        witness.is_of(*record),
{
    let pow2_32 = scalar_from_u64(POW_2_32);
    let high = scalar_mul(&pow2_32, &record.amount_blinds.1);
    proof {
        vstd::arithmetic::div_mod::lemma_add_mod_noop_right(
            record.amount_blinds.0@ as int,
            (0x1_0000_0000nat * record.amount_blinds.1@) as int,
            group_order() as int,
        );
    }
    AssetMixWitness {
        amount: record.amount,
        asset_type: asset_type_to_scalar(&record.asset_type),
        amount_blind: scalar_add(&record.amount_blinds.0, &high),
        type_blind: record.type_blind,
    }
}


/// The commitment to the whole amount: that of the low limb plus `2^32` times
/// that of the high limb. A revealed amount is committed with blinding zero.
/// `None` where a hidden amount's commitments do not both encode a point.
pub open spec fn amount_commitment(amount: XfrAmount) -> Option<Seq<u8>> {
    match amount {
        XfrAmount::Confidential((low, high)) => if ristretto_decodes(low@) && ristretto_decodes(
            high@,
        ) {
            Some(ristretto_sum(low@, ristretto_scaled(0x1_0000_0000, high@)))
        } else {
            None
        },
        XfrAmount::NonConfidential(amount) => Some(
            ristretto_sum(
                pedersen_commitment((amount % 0x1_0000_0000) as nat, 0),
                ristretto_scaled(
                    0x1_0000_0000,
                    pedersen_commitment((amount / 0x1_0000_0000) as nat, 0),
                ),
            ),
        ),
    }
}

/// The commitment to the asset type. A revealed asset type is committed
/// with blinding zero.
pub open spec fn type_commitment(asset_type: XfrAssetType) -> Seq<u8> {
    match asset_type {
        XfrAssetType::Confidential(c) => c@,
        XfrAssetType::NonConfidential(t) => pedersen_commitment(asset_type_scalar(t), 0),
    }
}

/// The commitments to amount and asset type of each record; `None` where
/// the amount of some record has none.
pub open spec fn record_commitments(records: Seq<BlindAssetRecord>) -> Option<
    Seq<(Seq<u8>, Seq<u8>)>,
> {
    if forall|i: int| 0 <= i < records.len() ==> amount_commitment(
        (#[trigger] records[i]).amount,
    ) is Some {
        Some(
            Seq::new(
                records.len(),
                |i: int|
                    (
                        amount_commitment(records[i].amount)->0,
                        type_commitment(records[i].asset_type),
                    ),
            ),
        )
    } else {
        None
    }
}

/// The encodings that a list of pairs of commitments holds.
pub open spec fn encodings(pairs: Seq<(CompressedRistretto, CompressedRistretto)>) -> Seq<
    (Seq<u8>, Seq<u8>),
> {
    Seq::new(pairs.len(), |i: int| (pairs[i].0@, pairs[i].1@))
}

/// Commits to the whole amount of a record.
pub fn commit_amount(amount: &XfrAmount) -> (r: Result<CompressedRistretto, ZeiError>)
    ensures
        r is Ok <==> amount_commitment(*amount) is Some,
        r is Ok ==> r->Ok_0@ == amount_commitment(*amount)->0,
        r is Err ==> r->Err_0 == ZeiError::InconsistentStructureError,
{
    let pow2_32 = scalar_from_u64(POW_2_32);
    let (low, high) = match amount {
        XfrAmount::Confidential((c1, c2)) => (*c1, *c2),
        XfrAmount::NonConfidential(amount) => {
            let (low, high) = u64_to_u32_pair(*amount);
            let zero = scalar_from_u64(0);
            (
                pedersen_commit(&scalar_from_u64(low as u64), &zero),
                pedersen_commit(&scalar_from_u64(high as u64), &zero),
            )
        },
    };
    let scaled = match point_scale(&pow2_32, &high) {
        Some(p) => p,
        None => {
            return Err(ZeiError::InconsistentStructureError);
        },
    };
    match point_add(&low, &scaled) {
        Some(sum) => Ok(sum),
        None => Err(ZeiError::InconsistentStructureError),
    }
}

/// Commits to the asset type of a record.
pub fn commit_asset_type(asset_type: &XfrAssetType) -> (c: CompressedRistretto)
    ensures
        c@ == type_commitment(*asset_type),
{
    match asset_type {
        XfrAssetType::Confidential(c) => *c,
        XfrAssetType::NonConfidential(t) => {
            let scalar = asset_type_to_scalar(t);
            pedersen_commit(&scalar, &scalar_from_u64(0))
        },
    }
}

/// The commitments to amount and asset type of each record.
pub fn process_bars(bars: &[BlindAssetRecord]) -> (r: Result<
    Vec<(CompressedRistretto, CompressedRistretto)>,
    ZeiError,
>)
    ensures
        r is Ok <==> record_commitments(bars@) is Some,
        r is Ok ==> encodings(r->Ok_0@) == record_commitments(bars@)->0,
        r is Err ==> r->Err_0 == ZeiError::InconsistentStructureError,
{
    let mut coms: Vec<(CompressedRistretto, CompressedRistretto)> = Vec::new();
    let mut i: usize = 0;
    while i < bars.len()
        invariant
            i <= bars@.len(),
            coms@.len() == i,
            forall|j: int| 0 <= j < i ==> amount_commitment((#[trigger] bars@[j]).amount) is Some,
            forall|j: int|
                0 <= j < i ==> (#[trigger] coms@[j]).0@ == amount_commitment(bars@[j].amount)->0
                    && coms@[j].1@ == type_commitment(bars@[j].asset_type),
        decreases bars@.len() - i,
    {
        let com_amount = match commit_amount(&bars[i].amount) {
            Ok(c) => c,
            Err(e) => {
                return Err(e);
            },
        };
        let com_type = commit_asset_type(&bars[i].asset_type);
        coms.push((com_amount, com_type));
        i += 1;
    }
    assert(encodings(coms@) =~= record_commitments(bars@)->0);
    Ok(coms)
}

/// What the verifier of an asset-mixing proof is given: the commitments of
/// the inputs and of the outputs, and the proof.
#[derive(Debug, PartialEq, Eq)]
pub struct AssetMixingInstance<'a> {
    pub inputs: Vec<(CompressedRistretto, CompressedRistretto)>,
    pub outputs: Vec<(CompressedRistretto, CompressedRistretto)>,
    pub proof: &'a AssetMixProof,
}

/// The input records, the output records and a proof of one body.
pub type BarsInstance<'a> = (&'a [BlindAssetRecord], &'a [BlindAssetRecord], &'a AssetMixProof);

/// The commitments of every record of every instance exist.
pub open spec fn instances_commit(bars_instances: Seq<BarsInstance>) -> bool {
    forall|k: int|
        0 <= k < bars_instances.len() ==> record_commitments((#[trigger] bars_instances[k]).0@) is Some
            && record_commitments(bars_instances[k].1@) is Some
}

/// `instance` is what the asset-mixing verifier is given for `bars`.
pub open spec fn instance_is_of(instance: AssetMixingInstance, bars: BarsInstance) -> bool {
    &&& Some(encodings(instance.inputs@)) == record_commitments(bars.0@)
    &&& Some(encodings(instance.outputs@)) == record_commitments(bars.1@)
    &&& instance.proof == bars.2
}

/// Prepares the asset-mixing proofs of a batch of bodies for their
/// verifier: for each, the commitments of its records, and its proof.
///
/// Fails with `InconsistentStructureError` where a hidden amount's commitment
/// encodes no point.
pub fn batch_verify_asset_mix<'a>(bars_instances: &[BarsInstance<'a>]) -> (r: Result<
    Vec<AssetMixingInstance<'a>>,
    ZeiError,
>)
    ensures
        r is Ok <==> instances_commit(bars_instances@),
        r is Ok ==> r->Ok_0@.len() == bars_instances@.len(),
        r is Ok ==> forall|k: int|
            0 <= k < bars_instances@.len() ==> instance_is_of(
                #[trigger] r->Ok_0@[k],
                bars_instances@[k],
            ),
        r is Err ==> r->Err_0 == ZeiError::InconsistentStructureError,
{
    let mut asset_mix_instances: Vec<AssetMixingInstance<'a>> = Vec::new();
    let mut i: usize = 0;
    while i < bars_instances.len()
        invariant
            i <= bars_instances@.len(),
            asset_mix_instances@.len() == i,
            forall|k: int|
                0 <= k < i ==> record_commitments((#[trigger] bars_instances@[k]).0@) is Some
                    && record_commitments(bars_instances@[k].1@) is Some,
            forall|k: int|
                0 <= k < i ==> instance_is_of(
                    #[trigger] asset_mix_instances@[k],
                    bars_instances@[k],
                ),
        decreases bars_instances@.len() - i,
    {
        let instance = &bars_instances[i];
        let in_coms = match process_bars(instance.0) {
            Ok(coms) => coms,
            Err(e) => {
                return Err(e);
            },
        };
        let out_coms = match process_bars(instance.1) {
            Ok(coms) => coms,
            Err(e) => {
                return Err(e);
            },
        };
        asset_mix_instances.push(
            AssetMixingInstance { inputs: in_coms, outputs: out_coms, proof: instance.2 },
        );
        i += 1;
    }
    Ok(asset_mix_instances)
}

} // verus!
