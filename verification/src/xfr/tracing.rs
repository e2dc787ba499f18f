//! Asset tracing: finding the memos addressed to a tracer in a transfer,
//! and recovering or confirming what they disclose.

use crate::errors::ZeiError;
use crate::xfr::lib::{
    first_failure, lemma_first_failure_at, lemma_first_failure_none, lemma_first_failure_ok,
};
use crate::xfr::sig::XfrPublicKey;
use crate::xfr::structs::{
    same_asset_type, AssetTracerEncKeys, AssetTracerKeyPair, AssetTracerMemo, AssetType,
    BlindAssetRecord, XfrBody,
};
use vstd::prelude::*;

verus! {

/// A record and one of its tracer memos.
pub type BarMemo<'a> = (&'a BlindAssetRecord, &'a AssetTracerMemo);

/// The `i`-th record of a body, the inputs counted first.
pub open spec fn record_at(body: &XfrBody, i: int) -> BlindAssetRecord {
    if i < body.inputs@.len() {
        body.inputs@[i]
    } else {
        body.outputs@[i - body.inputs@.len()]
    }
}

/// Those of the first `n` of `memos` that are under the keys `key`, in
/// order, each paired with `record`.
pub open spec fn memos_under_key(
    record: BlindAssetRecord,
    memos: Seq<AssetTracerMemo>,
    key: AssetTracerEncKeys,
    n: int,
) -> Seq<(BlindAssetRecord, AssetTracerMemo)>
    decreases n,
{
    if n <= 0 {
        Seq::empty()
    } else {
        let before = memos_under_key(record, memos, key, n - 1);
        if memos[n - 1].enc_key == key {
            before.push((record, memos[n - 1]))
        } else {
            before
        }
    }
}

/// The memos under the keys `key` of the first `n` records of the body,
/// record by record, each paired with its record.
pub open spec fn traced_memos(body: &XfrBody, key: AssetTracerEncKeys, n: int) -> Seq<
    (BlindAssetRecord, AssetTracerMemo),
>
    decreases n,
{
    if n <= 0 {
        Seq::empty()
    } else {
        traced_memos(body, key, n - 1) + memos_under_key(
            record_at(body, n - 1),
            body.asset_tracing_memos@[n - 1]@,
            key,
            body.asset_tracing_memos@[n - 1]@.len() as int,
        )
    }
}

/// The records and memos that the references point to.
pub open spec fn pointed(pairs: Seq<BarMemo>) -> Seq<(BlindAssetRecord, AssetTracerMemo)> {
    Seq::new(pairs.len(), |i: int| (*pairs[i].0, *pairs[i].1))
}

/// What `find_tracing_memos` finds, or why it refuses the body.
pub open spec fn spec_find_tracing_memos(body: &XfrBody, key: AssetTracerEncKeys) -> Result<
    Seq<(BlindAssetRecord, AssetTracerMemo)>,
    ZeiError,
> {
    if body.inputs@.len() + body.outputs@.len() != body.asset_tracing_memos@.len() {
        Err(ZeiError::InconsistentStructureError)
    } else {
        Ok(traced_memos(body, key, body.asset_tracing_memos@.len() as int))
    }
}

/// Finds the memos of a body that are addressed to the tracer with the
/// encryption keys `pub_key`: inputs first, then outputs, each record's
/// memos in their order, each memo with its record.
///
/// `InconsistentStructureError` where the body does not hold one list of
/// memos for each input and output.
pub fn find_tracing_memos<'a>(xfr_body: &'a XfrBody, pub_key: &AssetTracerEncKeys) -> (r: Result<
    Vec<BarMemo<'a>>,
    ZeiError,
>)
    ensures
        match spec_find_tracing_memos(xfr_body, *pub_key) {
            Err(e) => r is Err && r->Err_0 == e,
            Ok(found) => r is Ok && pointed(r->Ok_0@) == found,
        },
{
    let mut result: Vec<BarMemo<'a>> = Vec::new();
    let n_inputs = xfr_body.inputs.len();
    let n_memos = xfr_body.asset_tracing_memos.len();
    if n_memos < n_inputs || n_memos - n_inputs != xfr_body.outputs.len() {
        return Err(ZeiError::InconsistentStructureError);
    }
    let mut i: usize = 0;
    while i < n_memos
        invariant
            i <= n_memos,
            n_inputs == xfr_body.inputs@.len(),
            n_memos == xfr_body.asset_tracing_memos@.len(),
            n_memos == n_inputs + xfr_body.outputs@.len(),
            pointed(result@) == traced_memos(xfr_body, *pub_key, i as int),
        decreases n_memos - i,
    {
        let blind_asset_record: &'a BlindAssetRecord = if i < n_inputs {
            &xfr_body.inputs[i]
        } else {
            &xfr_body.outputs[i - n_inputs]
        };
        let bar_memos: &'a Vec<AssetTracerMemo> = &xfr_body.asset_tracing_memos[i];
        let ghost before = pointed(result@);
        let mut k: usize = 0;
        while k < bar_memos.len()
            invariant
                k <= bar_memos@.len(),
                *blind_asset_record == record_at(xfr_body, i as int),
                pointed(result@) == before + memos_under_key(
                    *blind_asset_record,
                    bar_memos@,
                    *pub_key,
                    k as int,
                ),
            decreases bar_memos@.len() - k,
        {
            let memo: &'a AssetTracerMemo = &bar_memos[k];
            let ghost so_far = pointed(result@);
            let ghost under_key = memos_under_key(
                *blind_asset_record,
                bar_memos@,
                *pub_key,
                k as int,
            );
            if memo.enc_key.same_keys(pub_key) {
                result.push((blind_asset_record, memo));
                assert(pointed(result@) =~= so_far.push((*blind_asset_record, *memo)));
                assert(so_far.push((*blind_asset_record, *memo)) =~= before + under_key.push(
                    (*blind_asset_record, *memo),
                ));
            }
            k += 1;
        }
        i += 1;
    }
    Ok(result)
}


/// What tracing recovers of a record: amount, asset type, identity
/// attributes and the public key that owns the record.
pub type RecordData = (u64, AssetType, Vec<u32>, XfrPublicKey);

/// The mathematical content of a `RecordData`.
pub type RecordDataContent = (u64, AssetType, Seq<u32>, XfrPublicKey);

/// The content of each of the data.
pub open spec fn data_content(data: Seq<RecordData>) -> Seq<RecordDataContent> {
    Seq::new(data.len(), |i: int| (data[i].0, data[i].1, data[i].2@, data[i].3))
}

/// What decrypting the ciphertexts of one memo with the tracer's keys gave:
/// the amount, the asset type among the candidates, and the identity
/// attributes. A field whose ciphertext the memo lacks is not read.
#[derive(Debug, PartialEq, Eq)]
pub struct MemoDecryption {
    pub amount: Result<u64, ZeiError>,
    pub asset_type: Result<AssetType, ZeiError>,
    pub attributes: Result<Vec<u32>, ZeiError>,
}

/// The amount of a record as tracing recovers it: read from the record
/// where the memo encrypts none, else what decryption gave.
pub open spec fn traced_amount(
    record: BlindAssetRecord,
    memo: AssetTracerMemo,
    decrypted: Result<u64, ZeiError>,
) -> Result<u64, ZeiError> {
    if memo.lock_amount is None {
        match record.amount.revealed() {
            Some(amount) => Ok(amount),
            None => Err(ZeiError::InconsistentStructureError),
        }
    } else {
        decrypted
    }
}

/// The asset type of a record as tracing recovers it: read from the record
/// where the memo encrypts none, else what decryption gave.
pub open spec fn traced_asset_type(
    record: BlindAssetRecord,
    memo: AssetTracerMemo,
    decrypted: Result<AssetType, ZeiError>,
) -> Result<AssetType, ZeiError> {
    if memo.lock_asset_type is None {
        match record.asset_type.revealed() {
            Some(asset_type) => Ok(asset_type),
            None => Err(ZeiError::InconsistentStructureError),
        }
    } else {
        decrypted
    }
}

/// The identity attributes as tracing recovers them: none where the memo
/// encrypts none, else what decryption gave.
pub open spec fn traced_attributes(
    memo: AssetTracerMemo,
    decrypted: Result<Vec<u32>, ZeiError>,
) -> Result<Seq<u32>, ZeiError> {
    if memo.lock_attributes is None {
        Ok(Seq::empty())
    } else {
        match decrypted {
            Ok(attributes) => Ok(attributes@),
            Err(e) => Err(e),
        }
    }
}

/// What tracing recovers from one memo: the first failure among amount,
/// asset type and attributes, in this order, or the data.
pub open spec fn traced_data(
    record: BlindAssetRecord,
    memo: AssetTracerMemo,
    decryption: MemoDecryption,
) -> Result<RecordDataContent, ZeiError> {
    let amount = traced_amount(record, memo, decryption.amount);
    let asset_type = traced_asset_type(record, memo, decryption.asset_type);
    let attributes = traced_attributes(memo, decryption.attributes);
    if amount is Err {
        Err(amount->Err_0)
    } else if asset_type is Err {
        Err(asset_type->Err_0)
    } else if attributes is Err {
        Err(attributes->Err_0)
    } else {
        Ok((amount->Ok_0, asset_type->Ok_0, attributes->Ok_0, record.public_key))
    }
}

/// Whether tracing succeeds on each memo.
pub open spec fn traced_outcomes(
    memos: Seq<(BlindAssetRecord, AssetTracerMemo)>,
    decryptions: Seq<MemoDecryption>,
) -> Seq<Result<(), ZeiError>> {
    Seq::new(
        memos.len(),
        |i: int|
            match traced_data(memos[i].0, memos[i].1, decryptions[i]) {
                Ok(_) => Ok(()),
                Err(e) => Err(e),
            },
    )
}

/// What `extract_tracking_info` returns: `ParameterError` unless there is
/// one decryption for each memo; else the first failure of a memo, in
/// order; else the data of each memo.
pub open spec fn spec_extract_tracking_info(
    memos: Seq<(BlindAssetRecord, AssetTracerMemo)>,
    decryptions: Seq<MemoDecryption>,
) -> Result<Seq<RecordDataContent>, ZeiError> {
    if memos.len() != decryptions.len() {
        Err(ZeiError::ParameterError)
    } else if first_failure(traced_outcomes(memos, decryptions)) is Err {
        Err(first_failure(traced_outcomes(memos, decryptions))->Err_0)
    } else {
        Ok(
            Seq::new(
                memos.len(),
                |i: int| traced_data(memos[i].0, memos[i].1, decryptions[i])->Ok_0,
            ),
        )
    }
}

/// A copy of a list of attributes.
fn copy_attributes(attributes: &Vec<u32>) -> (copy: Vec<u32>)
    ensures
        copy@ == attributes@,
{
    let mut copy: Vec<u32> = Vec::new();
    let mut i: usize = 0;
    while i < attributes.len()
        invariant
            i <= attributes@.len(),
            copy@ == attributes@.take(i as int),
        decreases attributes@.len() - i,
    {
        copy.push(attributes[i]);
        i += 1;
        assert(copy@ =~= attributes@.take(i as int));
    }
    assert(attributes@.take(attributes@.len() as int) =~= attributes@);
    copy
}

/// Recovers what one memo discloses of its record.
pub fn extract_record_data(
    blind_asset_record: &BlindAssetRecord,
    memo: &AssetTracerMemo,
    decryption: &MemoDecryption,
) -> (r: Result<RecordData, ZeiError>)
    ensures
        match traced_data(*blind_asset_record, *memo, *decryption) {
            Err(e) => r is Err && r->Err_0 == e,
            Ok(data) => r is Ok && (r->Ok_0.0, r->Ok_0.1, r->Ok_0.2@, r->Ok_0.3) == data,
        },
{
    let amount = match memo.lock_amount {
        None => match blind_asset_record.amount.get_amount() {
            Some(amount) => amount,
            None => {
                return Err(ZeiError::InconsistentStructureError);
            },
        },
        Some(_) => match decryption.amount {
            Ok(amount) => amount,
            Err(e) => {
                return Err(e);
            },
        },
    };
    let asset_type = match memo.lock_asset_type {
        None => match blind_asset_record.asset_type.get_asset_type() {
            Some(asset_type) => asset_type,
            None => {
                return Err(ZeiError::InconsistentStructureError);
            },
        },
        Some(_) => match decryption.asset_type {
            Ok(asset_type) => asset_type,
            Err(e) => {
                return Err(e);
            },
        },
    };
    let attributes = match &memo.lock_attributes {
        None => Vec::new(),
        Some(_) => match &decryption.attributes {
            Ok(attributes) => copy_attributes(attributes),
            Err(e) => {
                return Err(*e);
            },
        },
    };
    Ok((amount, asset_type, attributes, blind_asset_record.public_key))
}

/// Recovers what the memos disclose of their records, given what
/// decrypting each memo gave: for each memo the amount, the asset type, the
/// identity attributes, and the public key that owns the record.
///
/// An amount or asset type that the memo does not encrypt is read from the
/// record, and the record must reveal it (`InconsistentStructureError`).
/// A failed decryption is returned as it is. `ParameterError` unless there
/// is one decryption for each memo.
pub fn extract_tracking_info(memos: &[BarMemo], decryptions: &[MemoDecryption]) -> (r: Result<
    Vec<RecordData>,
    ZeiError,
>)
    ensures
        match spec_extract_tracking_info(pointed(memos@), decryptions@) {
            Err(e) => r is Err && r->Err_0 == e,
            Ok(data) => r is Ok && data_content(r->Ok_0@) == data,
        },
{
    if memos.len() != decryptions.len() {
        return Err(ZeiError::ParameterError);
    }
    let ghost outcomes = traced_outcomes(pointed(memos@), decryptions@);
    let mut result: Vec<RecordData> = Vec::new();
    let mut i: usize = 0;
    while i < memos.len()
        invariant
            i <= memos@.len(),
            memos@.len() == decryptions@.len(),
            outcomes == traced_outcomes(pointed(memos@), decryptions@),
            result@.len() == i,
            forall|j: int| 0 <= j < i ==> outcomes[j] is Ok,
            forall|j: int|
                0 <= j < i ==> Ok::<RecordDataContent, ZeiError>(
                    (
                        (#[trigger] result@[j]).0,
                        result@[j].1,
                        result@[j].2@,
                        result@[j].3,
                    ),
                ) == traced_data(*memos@[j].0, *memos@[j].1, decryptions@[j]),
        decreases memos@.len() - i,
    {
        let bar_memo = &memos[i];
        assert(pointed(memos@)[i as int] == (*bar_memo.0, *bar_memo.1));
        match extract_record_data(bar_memo.0, bar_memo.1, &decryptions[i]) {
            Err(e) => {
                proof {
                    lemma_first_failure_at(outcomes, i as int);
                }
                return Err(e);
            },
            Ok(data) => {
                result.push(data);
            },
        }
        i += 1;
    }
    proof {
        lemma_first_failure_none(outcomes);
        let data = spec_extract_tracking_info(pointed(memos@), decryptions@)->Ok_0;
        assert(data_content(result@) =~= data);
    }
    Ok(result)
}

/// Recovers what a body discloses to the tracer with the keys
/// `tracer_keypair`, given what decrypting each of the tracer's memos gave,
/// in the order in which `find_tracing_memos` finds them.
pub fn trace_assets(
    xfr_body: &XfrBody,
    tracer_keypair: &AssetTracerKeyPair,
    decryptions: &[MemoDecryption],
) -> (r: Result<Vec<RecordData>, ZeiError>)
    ensures
        match spec_find_tracing_memos(xfr_body, tracer_keypair.enc_key) {
            Err(e) => r is Err && r->Err_0 == e,
            Ok(found) => match spec_extract_tracking_info(found, decryptions@) {
                Err(e) => r is Err && r->Err_0 == e,
                Ok(data) => r is Ok && data_content(r->Ok_0@) == data,
            },
        },
{
    let bars_memos = match find_tracing_memos(xfr_body, &tracer_keypair.enc_key) {
        Ok(found) => found,
        Err(e) => {
            return Err(e);
        },
    };
    extract_tracking_info(bars_memos.as_slice(), decryptions)
}


/// What testing the ciphertexts of one memo against expected data gave: for
/// the expected amount, for the expected asset type as the one candidate,
/// and for each expected identity attribute whether its ciphertext holds
/// it. A field whose ciphertext the memo lacks is not read.
#[derive(Debug, PartialEq, Eq)]
pub struct MemoVerification {
    pub amount: Result<(), ZeiError>,
    pub asset_type: Result<AssetType, ZeiError>,
    pub attributes: Result<Vec<bool>, ZeiError>,
}

/// Every one of the answers is `true`.
pub open spec fn all_true(answers: Seq<bool>) -> bool {
    forall|i: int| 0 <= i < answers.len() ==> answers[i]
}

/// Whether the amount of a record is the expected one: compared with the
/// record where the memo encrypts none, else what the test of the
/// ciphertext gave.
pub open spec fn amount_confirmed(
    record: BlindAssetRecord,
    memo: AssetTracerMemo,
    tested: Result<(), ZeiError>,
    expected: u64,
) -> Result<(), ZeiError> {
    if memo.lock_amount is None {
        match record.amount.revealed() {
            None => Err(ZeiError::InconsistentStructureError),
            Some(amount) => if amount == expected {
                Ok(())
            } else {
                Err(ZeiError::AssetTracingExtractionError)
            },
        }
    } else {
        tested
    }
}

/// Whether the asset type of a record is the expected one: compared with
/// the record where the memo encrypts none, else whether decryption with
/// the expected type as the one candidate succeeded.
pub open spec fn asset_type_confirmed(
    record: BlindAssetRecord,
    memo: AssetTracerMemo,
    tested: Result<AssetType, ZeiError>,
    expected: AssetType,
) -> Result<(), ZeiError> {
    if memo.lock_asset_type is None {
        match record.asset_type.revealed() {
            None => Err(ZeiError::InconsistentStructureError),
            Some(asset_type) => if asset_type == expected {
                Ok(())
            } else {
                Err(ZeiError::AssetTracingExtractionError)
            },
        }
    } else {
        match tested {
            Ok(_) => Ok(()),
            Err(e) => Err(e),
        }
    }
}

/// Whether the identity attributes are the expected ones: nothing to
/// confirm where the memo encrypts none, else every attribute's test must
/// have answered `true`.
pub open spec fn attributes_confirmed(
    memo: AssetTracerMemo,
    tested: Result<Vec<bool>, ZeiError>,
) -> Result<(), ZeiError> {
    if memo.lock_attributes is None {
        Ok(())
    } else {
        match tested {
            Err(e) => Err(e),
            Ok(answers) => if all_true(answers@) {
                Ok(())
            } else {
                Err(ZeiError::IdentityTracingExtractionError)
            },
        }
    }
}

/// Whether one memo confirms the expected data: the first failure among
/// amount, asset type and attributes, in this order.
pub open spec fn memo_confirmed(
    record: BlindAssetRecord,
    memo: AssetTracerMemo,
    verification: MemoVerification,
    expected: RecordData,
) -> Result<(), ZeiError> {
    let amount = amount_confirmed(record, memo, verification.amount, expected.0);
    let asset_type = asset_type_confirmed(record, memo, verification.asset_type, expected.1);
    if amount is Err {
        amount
    } else if asset_type is Err {
        asset_type
    } else {
        attributes_confirmed(memo, verification.attributes)
    }
}

/// Whether each memo confirms the data expected of it.
pub open spec fn confirmations(
    memos: Seq<(BlindAssetRecord, AssetTracerMemo)>,
    verifications: Seq<MemoVerification>,
    expected_data: Seq<RecordData>,
) -> Seq<Result<(), ZeiError>> {
    Seq::new(
        memos.len(),
        |i: int| memo_confirmed(memos[i].0, memos[i].1, verifications[i], expected_data[i]),
    )
}

/// What `verify_tracing_memos` returns: `ParameterError` unless there is
/// one expected datum and one verification for each memo; else the first
/// failure of a memo, in order.
pub open spec fn spec_verify_tracing_memos(
    memos: Seq<(BlindAssetRecord, AssetTracerMemo)>,
    verifications: Seq<MemoVerification>,
    expected_data: Seq<RecordData>,
) -> Result<(), ZeiError> {
    if memos.len() != expected_data.len() || memos.len() != verifications.len() {
        Err(ZeiError::ParameterError)
    } else {
        first_failure(confirmations(memos, verifications, expected_data))
    }
}

/// Whether every one of the answers is `true`.
fn all_answers_true(answers: &Vec<bool>) -> (all: bool)
    ensures
        all == all_true(answers@),
{
    let mut i: usize = 0;
    while i < answers.len()
        invariant
            i <= answers@.len(),
            forall|j: int| 0 <= j < i ==> answers@[j],
        decreases answers@.len() - i,
    {
        if !answers[i] {
            return false;
        }
        i += 1;
    }
    true
}

/// Tests what one memo discloses of its record against the expected data.
pub fn verify_record_data(
    blind_asset_record: &BlindAssetRecord,
    memo: &AssetTracerMemo,
    verification: &MemoVerification,
    expected: &RecordData,
) -> (r: Result<(), ZeiError>)
    ensures
        r == memo_confirmed(*blind_asset_record, *memo, *verification, *expected),
{
    match memo.lock_amount {
        None => {
            let bar_amount = match blind_asset_record.amount.get_amount() {
                Some(amount) => amount,
                None => {
                    return Err(ZeiError::InconsistentStructureError);
                },
            };
            if bar_amount != expected.0 {
                return Err(ZeiError::AssetTracingExtractionError);
            }
        },
        Some(_) => {
            if verification.amount.is_err() {
                return verification.amount;
            }
        },
    }
    match memo.lock_asset_type {
        None => {
            let asset_type = match blind_asset_record.asset_type.get_asset_type() {
                Some(asset_type) => asset_type,
                None => {
                    return Err(ZeiError::InconsistentStructureError);
                },
            };
            if !same_asset_type(&asset_type, &expected.1) {
                return Err(ZeiError::AssetTracingExtractionError);
            }
        },
        Some(_) => {
            match verification.asset_type {
                Ok(_) => {},
                Err(e) => {
                    return Err(e);
                },
            }
        },
    }
    if memo.lock_attributes.is_some() {
        match &verification.attributes {
            Err(e) => {
                return Err(*e);
            },
            Ok(answers) => {
                if !all_answers_true(answers) {
                    return Err(ZeiError::IdentityTracingExtractionError);
                }
            },
        }
    }
    Ok(())
}

/// Tests what the memos disclose of their records against the expected
/// data, given what testing the ciphertexts of each memo gave.
///
/// An amount or asset type that the memo does not encrypt is compared with
/// the record's (`AssetTracingExtractionError` where it differs,
/// `InconsistentStructureError` where the record hides it). A failed test
/// of an amount or an asset type is returned as it is; an attribute that
/// is not the expected one gives `IdentityTracingExtractionError`.
/// `ParameterError` unless there is one expected datum and one
/// verification for each memo.
pub fn verify_tracing_memos(
    memos: &[BarMemo],
    verifications: &[MemoVerification],
    expected_data: &[RecordData],
) -> (r: Result<(), ZeiError>)
    ensures
        r == spec_verify_tracing_memos(pointed(memos@), verifications@, expected_data@),
{
    if memos.len() != expected_data.len() || memos.len() != verifications.len() {
        return Err(ZeiError::ParameterError);
    }
    let ghost checks = confirmations(pointed(memos@), verifications@, expected_data@);
    let mut i: usize = 0;
    while i < memos.len()
        invariant
            i <= memos@.len(),
            memos@.len() == expected_data@.len(),
            memos@.len() == verifications@.len(),
            checks == confirmations(pointed(memos@), verifications@, expected_data@),
            forall|j: int| 0 <= j < i ==> checks[j] is Ok,
        decreases memos@.len() - i,
    {
        let bar_memo = &memos[i];
        assert(pointed(memos@)[i as int] == (*bar_memo.0, *bar_memo.1));
        match verify_record_data(bar_memo.0, bar_memo.1, &verifications[i], &expected_data[i]) {
            Err(e) => {
                proof {
                    lemma_first_failure_at(checks, i as int);
                }
                return Err(e);
            },
            Ok(_) => {},
        }
        i += 1;
    }
    proof {
        lemma_first_failure_none(checks);
    }
    Ok(())
}

/// Tests what a body discloses to the tracer with the keys
/// `tracer_keypair` against the expected data, given what testing the
/// ciphertexts of each of the tracer's memos gave, in the order in which
/// `find_tracing_memos` finds them.
pub fn verify_tracing_ctexts(
    xfr_body: &XfrBody,
    tracer_keypair: &AssetTracerKeyPair,
    verifications: &[MemoVerification],
    expected_data: &[RecordData],
) -> (r: Result<(), ZeiError>)
    ensures
        match spec_find_tracing_memos(xfr_body, tracer_keypair.enc_key) {
            Err(e) => r == Err::<(), ZeiError>(e),
            Ok(found) => r == spec_verify_tracing_memos(found, verifications@, expected_data@),
        },
{
    let bars_memos = match find_tracing_memos(xfr_body, &tracer_keypair.enc_key) {
        Ok(found) => found,
        Err(e) => {
            return Err(e);
        },
    };
    verify_tracing_memos(bars_memos.as_slice(), verifications, expected_data)
}


/// The decryption of a memo gives what is true of its record: wherever the
/// memo encrypts a datum, decryption gives that datum.
pub open spec fn faithful_decryption(
    memo: AssetTracerMemo,
    decryption: MemoDecryption,
    truth: RecordDataContent,
) -> bool {
    &&& memo.lock_amount is Some ==> decryption.amount == Ok::<u64, ZeiError>(truth.0)
    &&& memo.lock_asset_type is Some ==> decryption.asset_type == Ok::<AssetType, ZeiError>(
        truth.1,
    )
    &&& memo.lock_attributes is Some ==> decryption.attributes is Ok
        && decryption.attributes->Ok_0@ == truth.2
}

/// The record says of `truth` what it reveals, as far as the memo does not
/// encrypt it: a revealed amount or asset type is the true one, there are no
/// attributes but encrypted ones, and the public key is the record's.
pub open spec fn record_agrees(
    record: BlindAssetRecord,
    memo: AssetTracerMemo,
    truth: RecordDataContent,
) -> bool {
    &&& memo.lock_amount is None ==> record.amount.revealed() == Some(truth.0)
    &&& memo.lock_asset_type is None ==> record.asset_type.revealed() == Some(truth.1)
    &&& memo.lock_attributes is None ==> truth.2 == Seq::<u32>::empty()
    &&& truth.3 == record.public_key
}

/// Tracing returns, for each memo in order, exactly the amount, the asset
/// type, the attributes and the public key of its record, where decryption
/// is faithful.
pub proof fn lemma_tracing_round_trip(
    memos: Seq<(BlindAssetRecord, AssetTracerMemo)>,
    decryptions: Seq<MemoDecryption>,
    truth: Seq<RecordDataContent>,
)
    requires
        memos.len() == decryptions.len(),
        memos.len() == truth.len(),
        forall|i: int|
            0 <= i < memos.len() ==> faithful_decryption(
                (#[trigger] memos[i]).1,
                decryptions[i],
                truth[i],
            ) && record_agrees(memos[i].0, memos[i].1, truth[i]),
    ensures
        spec_extract_tracking_info(memos, decryptions) == Ok::<Seq<RecordDataContent>, ZeiError>(
            truth,
        ),
{
    let outcomes = traced_outcomes(memos, decryptions);
    assert forall|i: int| 0 <= i < memos.len() implies traced_data(
        memos[i].0,
        memos[i].1,
        decryptions[i],
    ) == Ok::<RecordDataContent, ZeiError>(truth[i]) by {
        assert(faithful_decryption((#[trigger] memos[i]).1, decryptions[i], truth[i]));
    }
    assert forall|i: int| 0 <= i < outcomes.len() implies outcomes[i] is Ok by {}
    lemma_first_failure_none(outcomes);
    assert(spec_extract_tracking_info(memos, decryptions)->Ok_0 =~= truth);
}

/// The test of a memo's ciphertexts confirms what the memo encrypts.
pub open spec fn confirming(memo: AssetTracerMemo, verification: MemoVerification) -> bool {
    &&& memo.lock_amount is Some ==> verification.amount is Ok
    &&& memo.lock_asset_type is Some ==> verification.asset_type is Ok
    &&& memo.lock_attributes is Some ==> verification.attributes is Ok && all_true(
        verification.attributes->Ok_0@,
    )
}

/// What tracing recovered verifies against the same memos, where the tests
/// of the ciphertexts confirm what was decrypted.
pub proof fn lemma_traced_data_verifies(
    memos: Seq<(BlindAssetRecord, AssetTracerMemo)>,
    decryptions: Seq<MemoDecryption>,
    verifications: Seq<MemoVerification>,
    expected_data: Seq<RecordData>,
)
    requires
        spec_extract_tracking_info(memos, decryptions) == Ok::<Seq<RecordDataContent>, ZeiError>(
            data_content(expected_data),
        ),
        verifications.len() == memos.len(),
        forall|i: int|
            0 <= i < memos.len() ==> confirming((#[trigger] memos[i]).1, verifications[i]),
    ensures
        spec_verify_tracing_memos(memos, verifications, expected_data) is Ok,
{
    let outcomes = traced_outcomes(memos, decryptions);
    let checks = confirmations(memos, verifications, expected_data);
    let extracted = Seq::new(
        memos.len(),
        |i: int| traced_data(memos[i].0, memos[i].1, decryptions[i])->Ok_0,
    );
    assert(extracted == data_content(expected_data));
    assert(expected_data.len() == memos.len()) by {
        assert(extracted.len() == data_content(expected_data).len());
    }
    lemma_first_failure_ok(outcomes);
    assert forall|i: int| 0 <= i < checks.len() implies checks[i] is Ok by {
        assert(outcomes[i] is Ok);
        assert(confirming((#[trigger] memos[i]).1, verifications[i]));
        assert(extracted[i] == data_content(expected_data)[i]);
    }
    lemma_first_failure_none(checks);
}

} // verus!
