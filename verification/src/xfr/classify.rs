//! Classification of a transfer by what its records hide.

use crate::xfr::structs::{same_asset_type, AssetRecord, AssetType, OpenAssetRecord};
use vstd::prelude::*;

verus! {

/// The kind of a transfer: whether it moves one asset type or several, and
/// what its records hide.
#[derive(Clone, Copy, Debug, PartialEq, Eq, Structural)]
#[allow(non_camel_case_types)]
pub enum XfrType {
    /// One asset type, and every amount and asset type is revealed.
    NonConfidential_SingleAsset,
    /// One asset type; some amount is hidden and every asset type is revealed.
    ConfidentialAmount_NonConfidentialAssetType_SingleAsset,
    /// One asset type; some asset type is hidden and every amount is revealed.
    NonConfidentialAmount_ConfidentialAssetType_SingleAsset,
    /// One asset type; amounts and asset types are hidden.
    Confidential_SingleAsset,
    /// Several asset types, and something is hidden.
    Confidential_MultiAsset,
    /// Several asset types, and every amount and asset type is revealed.
    NonConfidential_MultiAsset,
}

/// The open records of the inputs, then those of the outputs.
pub open spec fn open_records(inputs: Seq<AssetRecord>, outputs: Seq<AssetRecord>) -> Seq<
    OpenAssetRecord,
> {
    Seq::new(
        inputs.len() + outputs.len(),
        |i: int|
            if i < inputs.len() {
                inputs[i].open_asset_record
            } else {
                outputs[i - inputs.len()].open_asset_record
            },
    )
}

/// The record hides its amount.
pub open spec fn hides_amount(record: OpenAssetRecord) -> bool {
    record.blind_asset_record.amount is Confidential
}

/// The record hides its asset type.
pub open spec fn hides_type(record: OpenAssetRecord) -> bool {
    record.blind_asset_record.asset_type is Confidential
}

/// Some record's asset type is not that of the first record.
pub open spec fn multi_asset(records: Seq<OpenAssetRecord>) -> bool {
    exists|i: int| 0 <= i < records.len() && #[trigger] records[i].asset_type != records[0].asset_type
}

/// Some record hides both its amount and its asset type.
pub open spec fn some_hides_all(records: Seq<OpenAssetRecord>) -> bool {
    exists|i: int|
        0 <= i < records.len() && hides_amount(#[trigger] records[i]) && hides_type(records[i])
}

/// Some record hides its amount and reveals its asset type.
pub open spec fn some_hides_amount_only(records: Seq<OpenAssetRecord>) -> bool {
    exists|i: int|
        0 <= i < records.len() && hides_amount(#[trigger] records[i]) && !hides_type(records[i])
}

/// Some record hides its asset type and reveals its amount.
pub open spec fn some_hides_type_only(records: Seq<OpenAssetRecord>) -> bool {
    exists|i: int|
        0 <= i < records.len() && hides_type(#[trigger] records[i]) && !hides_amount(records[i])
}

/// The kind that the four flags of a transfer decide.
pub open spec fn decide(multi: bool, all: bool, amount_only: bool, type_only: bool) -> XfrType {
    if multi {
        if all || amount_only || type_only {
            XfrType::Confidential_MultiAsset
        } else {
            XfrType::NonConfidential_MultiAsset
        }
    } else if all || (amount_only && type_only) {
        XfrType::Confidential_SingleAsset
    } else if amount_only {
        XfrType::ConfidentialAmount_NonConfidentialAssetType_SingleAsset
    } else if type_only {
        XfrType::NonConfidentialAmount_ConfidentialAssetType_SingleAsset
    } else {
        XfrType::NonConfidential_SingleAsset
    }
}

/// The kind of the transfer that the records make.
pub open spec fn classify(records: Seq<OpenAssetRecord>) -> XfrType {
    decide(
        multi_asset(records),
        some_hides_all(records),
        some_hides_amount_only(records),
        some_hides_type_only(records),
    )
}

/// The flags of a transfer, as far as its records have been looked at.
struct Flags {
    multi: bool,
    all: bool,
    amount_only: bool,
    type_only: bool,
}

impl Flags {
    /// The flags say of the first `n` of `records`, against the asset type
    /// `reference`, what the four predicates say.
    spec fn cover(&self, records: Seq<OpenAssetRecord>, n: int, reference: AssetType) -> bool {
        &&& self.multi == exists|i: int|
            0 <= i < n && #[trigger] records[i].asset_type != reference
        &&& self.all == exists|i: int|
            0 <= i < n && hides_amount(#[trigger] records[i]) && hides_type(records[i])
        &&& self.amount_only == exists|i: int|
            0 <= i < n && hides_amount(#[trigger] records[i]) && !hides_type(records[i])
        &&& self.type_only == exists|i: int|
            0 <= i < n && hides_type(#[trigger] records[i]) && !hides_amount(records[i])
    }

    /// Takes in the records of `slice`, which are those of `records` from `start` on.
    fn scan(
        self,
        slice: &[AssetRecord],
        reference: &AssetType,
        Ghost(records): Ghost<Seq<OpenAssetRecord>>,
        Ghost(start): Ghost<int>,
    ) -> (flags: Flags)
        requires
            0 <= start,
            start + slice@.len() <= records.len(),
            forall|j: int|
                0 <= j < slice@.len() ==> records[start + j] == (#[trigger] slice@[j]).open_asset_record,
            self.cover(records, start, *reference),
        ensures
            flags.cover(records, start + slice@.len(), *reference),
    {
        let mut flags = self;
        let mut i: usize = 0;
        while i < slice.len()
            invariant
                i <= slice@.len(),
                0 <= start,
                start + slice@.len() <= records.len(),
                forall|j: int|
                    0 <= j < slice@.len() ==> records[start + j] == (
                    #[trigger] slice@[j]).open_asset_record,
                flags.cover(records, start + i, *reference),
            decreases slice@.len() - i,
        {
            let record = &slice[i].open_asset_record;
            assert(records[start + i] == *record);
            let hidden_amount = record.blind_asset_record.amount.is_confidential();
            let hidden_type = record.blind_asset_record.asset_type.is_confidential();
            if !same_asset_type(reference, &record.asset_type) {
                flags.multi = true;
            }
            if hidden_amount && hidden_type {
                flags.all = true;
            } else if hidden_amount {
                flags.amount_only = true;
            } else if hidden_type {
                flags.type_only = true;
            }
            i += 1;
        }
        flags
    }
}

impl XfrType {
    /// Classifies the transfer that `inputs_record` and `outputs_record` make.
    ///
    /// The asset types are compared with that of the first record, which is
    /// the first input where there is one.
    pub fn from_inputs_outputs(inputs_record: &[AssetRecord], outputs_record: &[AssetRecord]) -> (kind:
        XfrType)
        ensures
            kind == classify(open_records(inputs_record@, outputs_record@)),
    {
        let ghost records = open_records(inputs_record@, outputs_record@);
        let flags = Flags { multi: false, all: false, amount_only: false, type_only: false };
        if inputs_record.len() == 0 && outputs_record.len() == 0 {
            return XfrType::NonConfidential_SingleAsset;
        }
        let reference = if inputs_record.len() > 0 {
            inputs_record[0].open_asset_record.asset_type
        } else {
            outputs_record[0].open_asset_record.asset_type
        };
        assert(reference == records[0].asset_type);
        let flags = flags.scan(inputs_record, &reference, Ghost(records), Ghost(0));
        let flags = flags.scan(
            outputs_record,
            &reference,
            Ghost(records),
            Ghost(inputs_record@.len() as int),
        );
        if flags.multi {
            if flags.all || flags.amount_only || flags.type_only {
                XfrType::Confidential_MultiAsset
            } else {
                XfrType::NonConfidential_MultiAsset
            }
        } else if flags.all || (flags.amount_only && flags.type_only) {
            XfrType::Confidential_SingleAsset
        } else if flags.amount_only {
            XfrType::ConfidentialAmount_NonConfidentialAssetType_SingleAsset
        } else if flags.type_only {
            XfrType::NonConfidentialAmount_ConfidentialAssetType_SingleAsset
        } else {
            XfrType::NonConfidential_SingleAsset
        }
    }

    /// Whether the kind is one of the two with several asset types.
    pub fn is_multi_asset(&self) -> (multi: bool)
        ensures
            multi == (*self is Confidential_MultiAsset || *self is NonConfidential_MultiAsset),
    {
        match self {
            XfrType::NonConfidential_MultiAsset | XfrType::Confidential_MultiAsset => true,
            _ => false,
        }
    }
}

/// The kind of a transfer follows from three facts about its records:
/// whether some asset type differs from the first, whether some amount is
/// hidden, and whether some asset type is hidden.
pub proof fn lemma_classify_by_three_facts(records: Seq<OpenAssetRecord>)
    ensures
        classify(records) == {
            let several = multi_asset(records);
            let amount = exists|i: int| 0 <= i < records.len() && hides_amount(#[trigger] records[i]);
            let kind = exists|i: int| 0 <= i < records.len() && hides_type(#[trigger] records[i]);
            if several {
                if amount || kind {
                    XfrType::Confidential_MultiAsset
                } else {
                    XfrType::NonConfidential_MultiAsset
                }
            } else if amount && kind {
                XfrType::Confidential_SingleAsset
            } else if amount {
                XfrType::ConfidentialAmount_NonConfidentialAssetType_SingleAsset
            } else if kind {
                XfrType::NonConfidentialAmount_ConfidentialAssetType_SingleAsset
            } else {
                XfrType::NonConfidential_SingleAsset
            }
        },
{
    let amount = exists|i: int| 0 <= i < records.len() && hides_amount(#[trigger] records[i]);
    let kind = exists|i: int| 0 <= i < records.len() && hides_type(#[trigger] records[i]);
    if amount {
        let i = choose|i: int| 0 <= i < records.len() && hides_amount(#[trigger] records[i]);
        assert(some_hides_all(records) || some_hides_amount_only(records));
    }
    if kind {
        let i = choose|i: int| 0 <= i < records.len() && hides_type(#[trigger] records[i]);
        assert(some_hides_all(records) || some_hides_type_only(records));
    }
}

} // verus!
