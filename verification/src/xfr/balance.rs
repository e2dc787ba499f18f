//! Sums of amounts, and the test that a transfer does not create value.

use crate::errors::ZeiError;
use crate::utils::{
    le_value, lemma_le_value_bound, lemma_le_value_injective, lemma_pow256_widths,
    u8_le_slice_to_u128,
};
use crate::xfr::structs::{same_asset_type, AssetRecord, AssetType, BlindAssetRecord};
use std::collections::HashMap;
use vstd::prelude::*;

verus! {

/// The sum of the terms.
pub open spec fn sum_u64(terms: Seq<u64>) -> nat
    decreases terms.len(),
{
    if terms.len() == 0 {
        0
    } else {
        sum_u64(terms.drop_last()) + terms.last() as nat
    }
}

/// A sum of `n` 64-bit terms is at most `n` times the largest of them.
pub proof fn lemma_sum_u64_bound(terms: Seq<u64>)
    ensures
        sum_u64(terms) <= terms.len() * 0xFFFF_FFFF_FFFF_FFFF,
    decreases terms.len(),
{
    if terms.len() > 0 {
        lemma_sum_u64_bound(terms.drop_last());
    }
}

/// The sum of the terms, in 128 bits, where it cannot overflow.
pub fn safe_sum_u64(terms: &[u64]) -> (sum: u128)
    ensures
        sum == sum_u64(terms@),
{
    let mut sum: u128 = 0;
    let mut i: usize = 0;
    while i < terms.len()
        invariant
            i <= terms@.len(),
            sum == sum_u64(terms@.take(i as int)),
        decreases terms@.len() - i,
    {
        proof {
            lemma_sum_u64_bound(terms@.take(i as int));
            assert(terms@.take(i + 1).drop_last() == terms@.take(i as int));
        }
        sum = sum + terms[i] as u128;
        i += 1;
    }
    proof {
        assert(terms@.take(terms@.len() as int) == terms@);
    }
    sum
}

/// An amount of an asset type.
pub type Entry = (AssetType, u64);

/// The total of the amounts of asset type `asset_type` among `entries`.
pub open spec fn total_of(entries: Seq<Entry>, asset_type: AssetType) -> nat
    decreases entries.len(),
{
    if entries.len() == 0 {
        0
    } else {
        total_of(entries.drop_last(), asset_type) + if entries.last().0 == asset_type {
            entries.last().1 as nat
        } else {
            0
        }
    }
}

/// In each asset type, the inputs amount to at least as much as the outputs.
pub open spec fn balanced(inputs: Seq<Entry>, outputs: Seq<Entry>) -> bool {
    forall|asset_type: AssetType| #[trigger]
        total_of(inputs, asset_type) >= total_of(outputs, asset_type)
}

/// The total of one asset type among `n` entries is at most `n` times the largest amount.
pub proof fn lemma_total_of_bound(entries: Seq<Entry>, asset_type: AssetType)
    ensures
        total_of(entries, asset_type) <= entries.len() * 0xFFFF_FFFF_FFFF_FFFF,
    decreases entries.len(),
{
    if entries.len() > 0 {
        lemma_total_of_bound(entries.drop_last(), asset_type);
    }
}

/// An asset type that no entry has totals zero.
pub proof fn lemma_total_of_absent(entries: Seq<Entry>, asset_type: AssetType)
    requires
        forall|i: int| 0 <= i < entries.len() ==> (#[trigger] entries[i]).0 != asset_type,
    ensures
        total_of(entries, asset_type) == 0,
    decreases entries.len(),
{
    if entries.len() > 0 {
        assert(entries.last() == entries[entries.len() - 1]);
        assert forall|i: int| 0 <= i < entries.drop_last().len() implies (
        #[trigger] entries.drop_last()[i]).0 != asset_type by {
            assert(entries.drop_last()[i] == entries[i]);
        }
        lemma_total_of_absent(entries.drop_last(), asset_type);
    }
}

/// The number under which an asset type is filed: its 16 bytes read least
/// significant first.
pub open spec fn type_key(asset_type: AssetType) -> u128 {
    le_value(asset_type@) as u128
}

/// The total filed under `key`, which is zero where nothing is filed.
pub open spec fn filed_total(totals: Map<u128, u128>, key: u128) -> nat {
    if totals.contains_key(key) {
        totals[key] as nat
    } else {
        0
    }
}

/// Different asset types are filed under different numbers.
pub proof fn lemma_type_key_injective(a: AssetType, b: AssetType)
    requires
        type_key(a) == type_key(b),
    ensures
        a == b,
{
    lemma_le_value_bound(a@);
    lemma_le_value_bound(b@);
    lemma_pow256_widths();
    lemma_le_value_injective(a@, b@);
    assert(a =~= b);
}

/// The number under which an asset type is filed.
fn key_of(asset_type: &AssetType) -> (key: u128)
    ensures
        key == type_key(*asset_type),
{
    u8_le_slice_to_u128(asset_type.as_slice())
}

/// The total filed under `key`.
fn total_filed(totals: &HashMap<u128, u128>, key: u128) -> (total: u128)
    ensures
        total == filed_total(totals@, key),
{
    broadcast use vstd::std_specs::hash::group_hash_axioms;

    match totals.get(&key) {
        Some(total) => *total,
        None => 0,
    }
}

/// The totals of the amounts of the entries, asset type by asset type.
fn totals_by_type(entries: &Vec<Entry>) -> (totals: HashMap<u128, u128>)
    ensures
        forall|asset_type: AssetType|
            filed_total(totals@, #[trigger] type_key(asset_type)) == total_of(entries@, asset_type),
{
    broadcast use vstd::std_specs::hash::group_hash_axioms;

    let mut totals: HashMap<u128, u128> = HashMap::new();
    let mut i: usize = 0;
    while i < entries.len()
        invariant
            i <= entries@.len(),
            forall|asset_type: AssetType|
                filed_total(totals@, #[trigger] type_key(asset_type)) == total_of(
                    entries@.take(i as int),
                    asset_type,
                ),
        decreases entries@.len() - i,
    {
        let key = key_of(&entries[i].0);
        let before = total_filed(&totals, key);
        let ghost filed = totals@;
        proof {
            assert(entries@.take(i + 1).drop_last() == entries@.take(i as int));
            lemma_total_of_bound(entries@.take(i as int), entries@[i as int].0);
        }
        totals.insert(key, before + entries[i].1 as u128);
        proof {
            assert forall|asset_type: AssetType|
                filed_total(totals@, #[trigger] type_key(asset_type)) == total_of(
                    entries@.take(i + 1),
                    asset_type,
                ) by {
                if type_key(asset_type) == key {
                    lemma_type_key_injective(asset_type, entries@[i as int].0);
                } else {
                    assert(filed_total(totals@, type_key(asset_type)) == filed_total(
                        filed,
                        type_key(asset_type),
                    ));
                }
            }
        }
        i += 1;
    }
    proof {
        assert(entries@.take(entries@.len() as int) == entries@);
    }
    totals
}

/// Whether, in each asset type, the inputs amount to at least as much as the outputs.
pub fn is_balanced(inputs: &Vec<Entry>, outputs: &Vec<Entry>) -> (ok: bool)
    ensures
        ok == balanced(inputs@, outputs@),
{
    let totals_in = totals_by_type(inputs);
    let totals_out = totals_by_type(outputs);
    let mut i: usize = 0;
    while i < outputs.len()
        invariant
            i <= outputs@.len(),
            forall|asset_type: AssetType|
                filed_total(totals_in@, #[trigger] type_key(asset_type)) == total_of(
                    inputs@,
                    asset_type,
                ),
            forall|asset_type: AssetType|
                filed_total(totals_out@, #[trigger] type_key(asset_type)) == total_of(
                    outputs@,
                    asset_type,
                ),
            forall|j: int|
                0 <= j < i ==> total_of(inputs@, (#[trigger] outputs@[j]).0) >= total_of(
                    outputs@,
                    outputs@[j].0,
                ),
        decreases outputs@.len() - i,
    {
        let key = key_of(&outputs[i].0);
        if total_filed(&totals_in, key) < total_filed(&totals_out, key) {
            return false;
        }
        i += 1;
    }
    proof {
        assert forall|asset_type: AssetType| #[trigger]
            total_of(inputs@, asset_type) >= total_of(outputs@, asset_type) by {
            if exists|j: int| 0 <= j < outputs@.len() && (#[trigger] outputs@[j]).0 == asset_type {
                let j = choose|j: int|
                    0 <= j < outputs@.len() && (#[trigger] outputs@[j]).0 == asset_type;
                assert(total_of(inputs@, outputs@[j].0) >= total_of(outputs@, outputs@[j].0));
            } else {
                lemma_total_of_absent(outputs@, asset_type);
            }
        }
    }
    true
}


/// The amount and asset type of each record, as its sender knows them.
pub open spec fn open_entries(records: Seq<AssetRecord>) -> Seq<Entry> {
    Seq::new(
        records.len(),
        |i: int| (records[i].open_asset_record.asset_type, records[i].open_asset_record.amount),
    )
}

/// The record reveals its amount and its asset type.
pub open spec fn is_plain(record: BlindAssetRecord) -> bool {
    record.amount is NonConfidential && record.asset_type is NonConfidential
}

/// The amount and asset type of each record, as the records reveal them.
pub open spec fn plain_entries(records: Seq<BlindAssetRecord>) -> Seq<Entry> {
    Seq::new(
        records.len(),
        |i: int| (records[i].asset_type->NonConfidential_0, records[i].amount->NonConfidential_0),
    )
}

/// The amounts that the records reveal.
pub open spec fn plain_amounts(records: Seq<BlindAssetRecord>) -> Seq<u64> {
    Seq::new(records.len(), |i: int| records[i].amount->NonConfidential_0)
}

/// Every record reveals its amount.
pub open spec fn amounts_revealed(records: Seq<BlindAssetRecord>) -> bool {
    forall|i: int| 0 <= i < records.len() ==> (#[trigger] records[i]).amount is NonConfidential
}

/// Every record reveals its asset type.
pub open spec fn types_revealed(records: Seq<BlindAssetRecord>) -> bool {
    forall|i: int| 0 <= i < records.len() ==> (#[trigger] records[i]).asset_type is NonConfidential
}

/// The revealed asset types of the records are all the same.
pub open spec fn same_revealed_type(records: Seq<BlindAssetRecord>) -> bool {
    forall|i: int, j: int|
        0 <= i < records.len() && 0 <= j < records.len() ==> (
        #[trigger] records[i]).asset_type->NonConfidential_0 == (
        #[trigger] records[j]).asset_type->NonConfidential_0
}

/// What `check_asset_amount` returns.
pub open spec fn spec_check_asset_amount(
    inputs: Seq<AssetRecord>,
    outputs: Seq<AssetRecord>,
) -> Result<(), ZeiError> {
    if balanced(open_entries(inputs), open_entries(outputs)) {
        Ok(())
    } else {
        Err(ZeiError::XfrCreationAssetAmountError)
    }
}

/// What `verify_plain_amounts` returns.
pub open spec fn spec_verify_plain_amounts(
    inputs: Seq<BlindAssetRecord>,
    outputs: Seq<BlindAssetRecord>,
) -> Result<(), ZeiError> {
    if !amounts_revealed(inputs) || !amounts_revealed(outputs) {
        Err(ZeiError::InconsistentStructureError)
    } else if sum_u64(plain_amounts(inputs)) >= sum_u64(plain_amounts(outputs)) {
        Ok(())
    } else {
        Err(ZeiError::XfrVerifyAssetAmountError)
    }
}

/// What `verify_plain_asset` returns.
pub open spec fn spec_verify_plain_asset(
    inputs: Seq<BlindAssetRecord>,
    outputs: Seq<BlindAssetRecord>,
) -> Result<(), ZeiError> {
    if !types_revealed(inputs) || !types_revealed(outputs) {
        Err(ZeiError::InconsistentStructureError)
    } else if same_revealed_type(inputs + outputs) {
        Ok(())
    } else {
        Err(ZeiError::XfrVerifyAssetAmountError)
    }
}

/// What `verify_plain_asset_mix` returns.
pub open spec fn spec_verify_plain_asset_mix(
    inputs: Seq<BlindAssetRecord>,
    outputs: Seq<BlindAssetRecord>,
) -> Result<(), ZeiError> {
    if !amounts_revealed(inputs) || !types_revealed(inputs) || !amounts_revealed(outputs)
        || !types_revealed(outputs) {
        Err(ZeiError::InconsistentStructureError)
    } else if balanced(plain_entries(inputs), plain_entries(outputs)) {
        Ok(())
    } else {
        Err(ZeiError::XfrVerifyAssetAmountError)
    }
}

/// The amount and asset type of each record, as its sender knows them.
fn entries_of_open(records: &[AssetRecord]) -> (entries: Vec<Entry>)
    ensures
        entries@ == open_entries(records@),
{
    let mut entries: Vec<Entry> = Vec::new();
    let mut i: usize = 0;
    while i < records.len()
        invariant
            i <= records@.len(),
            entries@ == open_entries(records@).take(i as int),
        decreases records@.len() - i,
    {
        let open = &records[i].open_asset_record;
        entries.push((open.asset_type, open.amount));
        i += 1;
        assert(entries@ =~= open_entries(records@).take(i as int));
    }
    assert(open_entries(records@).take(records@.len() as int) =~= open_entries(records@));
    entries
}

/// The amounts that the records reveal; `None` where one hides its amount.
fn amounts_of_plain(records: &[BlindAssetRecord]) -> (amounts: Option<Vec<u64>>)
    ensures
        amounts is Some <==> amounts_revealed(records@),
        amounts is Some ==> amounts->0@ == plain_amounts(records@),
{
    let mut amounts: Vec<u64> = Vec::new();
    let mut i: usize = 0;
    while i < records.len()
        invariant
            i <= records@.len(),
            amounts_revealed(records@.take(i as int)),
            amounts@ == plain_amounts(records@).take(i as int),
        decreases records@.len() - i,
    {
        match records[i].amount.get_amount() {
            None => {
                return None;
            },
            Some(amount) => {
                amounts.push(amount);
            },
        }
        i += 1;
        assert(amounts@ =~= plain_amounts(records@).take(i as int));
        assert forall|j: int| 0 <= j < i implies (
        #[trigger] records@.take(i as int)[j]).amount is NonConfidential by {
            if j < i - 1 {
                assert(records@.take(i - 1)[j] == records@[j]);
            }
        }
    }
    assert(records@.take(records@.len() as int) =~= records@);
    assert(plain_amounts(records@).take(records@.len() as int) =~= plain_amounts(records@));
    Some(amounts)
}

/// The asset types that the records reveal; `None` where one hides its asset type.
fn types_of_plain(records: &[BlindAssetRecord]) -> (types: Option<Vec<AssetType>>)
    ensures
        types is Some <==> types_revealed(records@),
        types is Some ==> types->0@.len() == records@.len(),
        types is Some ==> forall|i: int|
            0 <= i < records@.len() ==> (#[trigger] types->0@[i])
                == records@[i].asset_type->NonConfidential_0,
{
    let mut types: Vec<AssetType> = Vec::new();
    let mut i: usize = 0;
    while i < records.len()
        invariant
            i <= records@.len(),
            types@.len() == i,
            forall|j: int| 0 <= j < i ==> (#[trigger] records@[j]).asset_type is NonConfidential,
            forall|j: int|
                0 <= j < i ==> (#[trigger] types@[j]) == records@[j].asset_type->NonConfidential_0,
        decreases records@.len() - i,
    {
        match records[i].asset_type.get_asset_type() {
            None => {
                return None;
            },
            Some(asset_type) => {
                types.push(asset_type);
            },
        }
        i += 1;
    }
    Some(types)
}

/// The amount and asset type of each record, as the records reveal them;
/// `None` where a record hides one of the two.
fn entries_of_plain(records: &[BlindAssetRecord]) -> (entries: Option<Vec<Entry>>)
    ensures
        entries is Some <==> amounts_revealed(records@) && types_revealed(records@),
        entries is Some ==> entries->0@ == plain_entries(records@),
{
    let mut entries: Vec<Entry> = Vec::new();
    let mut i: usize = 0;
    while i < records.len()
        invariant
            i <= records@.len(),
            forall|j: int| 0 <= j < i ==> is_plain(#[trigger] records@[j]),
            entries@ == plain_entries(records@).take(i as int),
        decreases records@.len() - i,
    {
        let amount = records[i].amount.get_amount();
        let asset_type = records[i].asset_type.get_asset_type();
        match (asset_type, amount) {
            (Some(t), Some(a)) => {
                entries.push((t, a));
            },
            _ => {
                return None;
            },
        }
        i += 1;
        assert(entries@ =~= plain_entries(records@).take(i as int));
    }
    assert(plain_entries(records@).take(records@.len() as int) =~= plain_entries(records@));
    Some(entries)
}

/// Checks that in each asset type the inputs amount to at least as much as
/// the outputs, by the amounts and asset types that the sender knows.
pub fn check_asset_amount(inputs: &[AssetRecord], outputs: &[AssetRecord]) -> (r: Result<
    (),
    ZeiError,
>)
    ensures
        r == spec_check_asset_amount(inputs@, outputs@),
{
    let ins = entries_of_open(inputs);
    let outs = entries_of_open(outputs);
    if is_balanced(&ins, &outs) {
        Ok(())
    } else {
        Err(ZeiError::XfrCreationAssetAmountError)
    }
}

/// Checks that the revealed amounts of the inputs sum to at least as much
/// as those of the outputs.
pub fn verify_plain_amounts(inputs: &[BlindAssetRecord], outputs: &[BlindAssetRecord]) -> (r:
    Result<(), ZeiError>)
    ensures
        r == spec_verify_plain_amounts(inputs@, outputs@),
{
    let in_amount = match amounts_of_plain(inputs) {
        Some(amounts) => amounts,
        None => {
            return Err(ZeiError::InconsistentStructureError);
        },
    };
    let out_amount = match amounts_of_plain(outputs) {
        Some(amounts) => amounts,
        None => {
            return Err(ZeiError::InconsistentStructureError);
        },
    };
    let sum_inputs = safe_sum_u64(in_amount.as_slice());
    let sum_outputs = safe_sum_u64(out_amount.as_slice());
    if sum_inputs < sum_outputs {
        return Err(ZeiError::XfrVerifyAssetAmountError);
    }
    Ok(())
}

/// Whether all asset types of the list are the same.
pub fn all_equal(list: &Vec<AssetType>) -> (same: bool)
    ensures
        same == forall|i: int, j: int|
            0 <= i < list@.len() && 0 <= j < list@.len() ==> #[trigger] list@[i] == #[trigger] list@[j],
{
    let mut i: usize = 1;
    while i < list.len()
        invariant
            1 <= i,
            forall|j: int| 0 <= j < i && j < list@.len() ==> #[trigger] list@[j] == list@[0],
        decreases list@.len() - i,
    {
        if !same_asset_type(&list[i], &list[0]) {
            return false;
        }
        i += 1;
    }
    true
}

/// Checks that the revealed asset types of the inputs and outputs are all the same.
pub fn verify_plain_asset(inputs: &[BlindAssetRecord], outputs: &[BlindAssetRecord]) -> (r: Result<
    (),
    ZeiError,
>)
    ensures
        r == spec_verify_plain_asset(inputs@, outputs@),
{
    let mut list = match types_of_plain(inputs) {
        Some(types) => types,
        None => {
            return Err(ZeiError::InconsistentStructureError);
        },
    };
    let mut out_types = match types_of_plain(outputs) {
        Some(types) => types,
        None => {
            return Err(ZeiError::InconsistentStructureError);
        },
    };
    let ghost in_types = list@;
    list.append(&mut out_types);
    proof {
        let records = inputs@ + outputs@;
        assert(list@.len() == records.len());
        assert forall|i: int| 0 <= i < records.len() implies (#[trigger] list@[i])
            == records[i].asset_type->NonConfidential_0 by {
            if i < inputs@.len() {
                assert(list@[i] == in_types[i]);
            } else {
                assert(records[i] == outputs@[i - inputs@.len()]);
            }
        }
        if same_revealed_type(records) {
            assert forall|i: int, j: int|
                0 <= i < list@.len() && 0 <= j < list@.len() implies #[trigger] list@[i]
                == #[trigger] list@[j] by {
                assert(records[i].asset_type->NonConfidential_0
                    == records[j].asset_type->NonConfidential_0);
            }
        }
    }
    let same = all_equal(&list);
    proof {
        let records = inputs@ + outputs@;
        if same {
            assert forall|i: int, j: int|
                0 <= i < records.len() && 0 <= j < records.len() implies (
            #[trigger] records[i]).asset_type->NonConfidential_0 == (
            #[trigger] records[j]).asset_type->NonConfidential_0 by {
                assert(list@[i] == list@[j]);
            }
        }
    }
    if same {
        Ok(())
    } else {
        Err(ZeiError::XfrVerifyAssetAmountError)
    }
}

/// Checks that in each asset type the revealed amounts of the inputs sum to
/// at least as much as those of the outputs.
pub fn verify_plain_asset_mix(inputs: &[BlindAssetRecord], outputs: &[BlindAssetRecord]) -> (r:
    Result<(), ZeiError>)
    ensures
        r == spec_verify_plain_asset_mix(inputs@, outputs@),
{
    let ins = match entries_of_plain(inputs) {
        Some(entries) => entries,
        None => {
            return Err(ZeiError::InconsistentStructureError);
        },
    };
    let outs = match entries_of_plain(outputs) {
        Some(entries) => entries,
        None => {
            return Err(ZeiError::InconsistentStructureError);
        },
    };
    if is_balanced(&ins, &outs) {
        Ok(())
    } else {
        Err(ZeiError::XfrVerifyAssetAmountError)
    }
}

} // verus!
