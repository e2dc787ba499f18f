//! What construction and verification of transfers guarantee together.

use crate::errors::ZeiError;
use crate::xfr::asset_mixer::{amount_commitment, record_commitments};
use crate::xfr::balance::{
    amounts_revealed, open_entries, plain_amounts, plain_entries, same_revealed_type, sum_u64,
    total_of, types_revealed, Entry,
};
use crate::xfr::classify::{
    classify, hides_amount, hides_type, multi_asset, open_records, some_hides_all,
    some_hides_amount_only, some_hides_type_only,
};
use crate::xfr::lib::{
    blind_records, lemma_first_failure_at, lemma_first_failure_none, lemma_first_failure_ok,
    plain_check, plain_checks, pool_commits, pool_of, proof_in_pool,
    spec_batch_verify_xfr_bodies, xfr_body_content, xfr_body_refusal, Pool, PoolEntry,
    ProofVerdicts,
};
use crate::xfr::structs::{
    AssetRecord, AssetType, AssetTypeAndAmountProof, AssetTypeAndAmountProofContent,
    OpenAssetRecord, XfrBody,
};
use vstd::prelude::*;

verus! {

/// Every one of the records is well-formed.
pub open spec fn all_well_formed(records: Seq<AssetRecord>) -> bool {
    forall|i: int| 0 <= i < records.len() ==> (#[trigger] records[i]).open_asset_record.well_formed()
}

/// Where all entries are of one asset type, its total is the sum of the amounts.
pub proof fn lemma_total_of_single_type(entries: Seq<Entry>, asset_type: AssetType)
    requires
        forall|i: int| 0 <= i < entries.len() ==> (#[trigger] entries[i]).0 == asset_type,
    ensures
        total_of(entries, asset_type) == sum_u64(Seq::new(entries.len(), |i: int| entries[i].1)),
    decreases entries.len(),
{
    let amounts = Seq::new(entries.len(), |i: int| entries[i].1);
    if entries.len() > 0 {
        let rest = entries.drop_last();
        assert forall|i: int| 0 <= i < rest.len() implies (#[trigger] rest[i]).0 == asset_type by {
            assert(rest[i] == entries[i]);
        }
        lemma_total_of_single_type(rest, asset_type);
        assert(amounts.drop_last() =~= Seq::new(rest.len(), |i: int| rest[i].1));
        assert(entries.last() == entries[entries.len() - 1]);
    }
}

/// In a transfer where nothing is hidden, no record hides anything; where
/// only amounts are hidden, none hides its asset type; where only asset
/// types are hidden, none hides its amount.
pub proof fn lemma_kind_bounds_records(records: Seq<OpenAssetRecord>, i: int)
    requires
        0 <= i < records.len(),
    ensures
        classify(records) is NonConfidential_SingleAsset || classify(records)
            is NonConfidential_MultiAsset ==> !hides_amount(records[i]) && !hides_type(records[i]),
        classify(records) is ConfidentialAmount_NonConfidentialAssetType_SingleAsset ==> !hides_type(
            records[i],
        ),
        classify(records) is NonConfidentialAmount_ConfidentialAssetType_SingleAsset
            ==> !hides_amount(records[i]),
        !(classify(records) is NonConfidential_MultiAsset) && !(classify(records)
            is Confidential_MultiAsset) ==> records[i].asset_type == records[0].asset_type,
{
    if hides_amount(records[i]) && hides_type(records[i]) {
        assert(some_hides_all(records));
    } else if hides_amount(records[i]) {
        assert(some_hides_amount_only(records));
    } else if hides_type(records[i]) {
        assert(some_hides_type_only(records));
    }
    if records[i].asset_type != records[0].asset_type {
        assert(multi_asset(records));
    }
}


/// `body` carries the records of `inputs` and `outputs` and a proof of
/// content `proof`, which `gen_xfr_body` would not have refused.
pub open spec fn honestly_made(
    body: &XfrBody,
    inputs: Seq<AssetRecord>,
    outputs: Seq<AssetRecord>,
    proof: AssetTypeAndAmountProofContent,
) -> bool {
    &&& all_well_formed(inputs)
    &&& all_well_formed(outputs)
    &&& xfr_body_refusal(inputs, outputs, proof) is None
    &&& body.inputs@ == blind_records(inputs)
    &&& body.outputs@ == blind_records(outputs)
    &&& body.proofs.asset_type_and_amount_proof.deep_view() == proof
}

/// The revealed amounts and asset types of an honestly made body pass the
/// check that its form of proof leaves to be made in the clear.
pub proof fn lemma_honest_body_passes_plain_check(
    body: &XfrBody,
    inputs: Seq<AssetRecord>,
    outputs: Seq<AssetRecord>,
    proof: AssetTypeAndAmountProofContent,
)
    requires
        honestly_made(body, inputs, outputs, proof),
    ensures
        plain_check(body) == Ok::<(), ZeiError>(()),
{
    let records = open_records(inputs, outputs);
    let kind = classify(records);
    let ins = body.inputs@;
    let outs = body.outputs@;
    assert forall|i: int| 0 <= i < inputs.len() implies ins[i] == (
    #[trigger] records[i]).blind_asset_record && records[i].well_formed() && records[i]
        == inputs[i].open_asset_record by {
        assert(inputs[i].open_asset_record.well_formed());
    }
    assert forall|i: int| 0 <= i < outputs.len() implies outs[i] == (#[trigger] records[inputs.len()
        + i]).blind_asset_record && records[inputs.len() + i].well_formed() && records[inputs.len()
        + i] == outputs[i].open_asset_record by {
        assert(outputs[i].open_asset_record.well_formed());
    }
    match body.proofs.asset_type_and_amount_proof {
        AssetTypeAndAmountProof::NoProof => {
            assert(kind is NonConfidential_SingleAsset || kind is NonConfidential_MultiAsset);
            assert forall|i: int| 0 <= i < ins.len() implies (#[trigger] ins[i]).amount
                is NonConfidential && ins[i].asset_type is NonConfidential by {
                lemma_kind_bounds_records(records, i);
            }
            assert forall|i: int| 0 <= i < outs.len() implies (#[trigger] outs[i]).amount
                is NonConfidential && outs[i].asset_type is NonConfidential by {
                lemma_kind_bounds_records(records, inputs.len() + i);
            }
            assert(plain_entries(ins) =~= open_entries(inputs));
            assert(plain_entries(outs) =~= open_entries(outputs));
        },
        AssetTypeAndAmountProof::ConfAmount(_) => {
            assert(kind is ConfidentialAmount_NonConfidentialAssetType_SingleAsset);
            assert forall|i: int| 0 <= i < ins.len() implies (#[trigger] ins[i]).asset_type
                is NonConfidential by {
                lemma_kind_bounds_records(records, i);
            }
            assert forall|i: int| 0 <= i < outs.len() implies (#[trigger] outs[i]).asset_type
                is NonConfidential by {
                lemma_kind_bounds_records(records, inputs.len() + i);
            }
            let all = ins + outs;
            assert forall|i: int, j: int| 0 <= i < all.len() && 0 <= j < all.len() implies (
            #[trigger] all[i]).asset_type->NonConfidential_0 == (
            #[trigger] all[j]).asset_type->NonConfidential_0 by {
                lemma_kind_bounds_records(records, i);
                lemma_kind_bounds_records(records, j);
                assert(all[i] == records[i].blind_asset_record);
                assert(all[j] == records[j].blind_asset_record);
            }
            assert(same_revealed_type(all));
        },
        AssetTypeAndAmountProof::ConfAsset(_) => {
            assert(kind is NonConfidentialAmount_ConfidentialAssetType_SingleAsset);
            assert forall|i: int| 0 <= i < ins.len() implies (#[trigger] ins[i]).amount
                is NonConfidential by {
                lemma_kind_bounds_records(records, i);
            }
            assert forall|i: int| 0 <= i < outs.len() implies (#[trigger] outs[i]).amount
                is NonConfidential by {
                lemma_kind_bounds_records(records, inputs.len() + i);
            }
            let asset_type = records[0].asset_type;
            let in_entries = open_entries(inputs);
            let out_entries = open_entries(outputs);
            assert forall|i: int| 0 <= i < in_entries.len() implies (#[trigger] in_entries[i]).0
                == asset_type by {
                lemma_kind_bounds_records(records, i);
            }
            assert forall|i: int| 0 <= i < out_entries.len() implies (#[trigger] out_entries[i]).0
                == asset_type by {
                lemma_kind_bounds_records(records, inputs.len() + i);
            }
            lemma_total_of_single_type(in_entries, asset_type);
            lemma_total_of_single_type(out_entries, asset_type);
            assert(plain_amounts(ins) =~= Seq::new(in_entries.len(), |i: int| in_entries[i].1));
            assert(plain_amounts(outs) =~= Seq::new(out_entries.len(), |i: int| out_entries[i].1));
            assert(total_of(in_entries, asset_type) >= total_of(out_entries, asset_type));
        },
        _ => {},
    }
}

/// The hidden amounts of an honestly made body are committed to by
/// encodings of points, so that the commitments of its records exist.
pub proof fn lemma_honest_body_commits(
    body: &XfrBody,
    inputs: Seq<AssetRecord>,
    outputs: Seq<AssetRecord>,
    proof: AssetTypeAndAmountProofContent,
)
    requires
        honestly_made(body, inputs, outputs, proof),
    ensures
        record_commitments(body.inputs@) is Some,
        record_commitments(body.outputs@) is Some,
{
    assert forall|i: int| 0 <= i < body.inputs@.len() implies amount_commitment(
        (#[trigger] body.inputs@[i]).amount,
    ) is Some by {
        assert(inputs[i].open_asset_record.well_formed());
    }
    assert forall|i: int| 0 <= i < body.outputs@.len() implies amount_commitment(
        (#[trigger] body.outputs@[i]).amount,
    ) is Some by {
        assert(outputs[i].open_asset_record.well_formed());
    }
}

/// The pool of one body holds its proof of the pool's kind, if it has one.
pub proof fn lemma_pool_of_one(body: &XfrBody, pool: Pool)
    ensures
        pool_of(seq![body], pool) == match proof_in_pool(body, pool) {
            Some(proof) => seq![(body.inputs@, body.outputs@, proof)],
            None => Seq::<PoolEntry>::empty(),
        },
{
    reveal_with_fuel(pool_of, 2);
    let bodies = seq![body];
    assert(bodies.drop_last() =~= Seq::<&XfrBody>::empty());
    assert(bodies.last() == body);
    match proof_in_pool(body, pool) {
        Some(proof) => {
            assert(Seq::<PoolEntry>::empty().push((body.inputs@, body.outputs@, proof))
                =~= seq![(body.inputs@, body.outputs@, proof)]);
        },
        None => {},
    }
}

/// A body that `gen_xfr_body` makes from well-formed records verifies,
/// where the verifiers of its proofs accept them.
pub proof fn lemma_honest_body_verifies(
    body: &XfrBody,
    inputs: Seq<AssetRecord>,
    outputs: Seq<AssetRecord>,
    proof: AssetTypeAndAmountProofContent,
    tracing_proofs: Seq<Seq<u8>>,
    verdicts: ProofVerdicts,
)
    requires
        all_well_formed(inputs),
        all_well_formed(outputs),
        xfr_body_refusal(inputs, outputs, proof) is None,
        body.deep_view() == xfr_body_content(inputs, outputs, proof, tracing_proofs),
        verdicts.conf_amount is Ok,
        verdicts.conf_asset is Ok,
        verdicts.asset_mix is Ok,
        verdicts.tracing is Ok,
    ensures
        spec_batch_verify_xfr_bodies(seq![body], verdicts) is Ok,
{
    assert(honestly_made(body, inputs, outputs, proof));
    lemma_honest_body_passes_plain_check(body, inputs, outputs, proof);
    lemma_honest_body_commits(body, inputs, outputs, proof);
    let bodies = seq![body];
    assert(plain_checks(bodies)[0] == plain_check(body));
    lemma_first_failure_none(plain_checks(bodies));
    lemma_pool_of_one(body, Pool::AssetMix);
    assert(pool_commits(pool_of(bodies, Pool::AssetMix)));
}


/// The commitments of a batch's bodies with an asset-mixing proof exist
/// exactly where those of each such body exist.
pub proof fn lemma_pool_commits_each(bodies: Seq<&XfrBody>)
    ensures
        pool_commits(pool_of(bodies, Pool::AssetMix)) <==> forall|i: int|
            0 <= i < bodies.len() ==> pool_commits(
                pool_of(seq![#[trigger] bodies[i]], Pool::AssetMix),
            ),
    decreases bodies.len(),
{
    if bodies.len() > 0 {
        let before = bodies.drop_last();
        let last = bodies.last();
        lemma_pool_commits_each(before);
        lemma_pool_of_one(last, Pool::AssetMix);
        let pool_before = pool_of(before, Pool::AssetMix);
        let pool = pool_of(bodies, Pool::AssetMix);
        let one = pool_of(seq![last], Pool::AssetMix);
        assert forall|i: int| 0 <= i < before.len() implies before[i] == bodies[i] by {}
        if pool_commits(pool) {
            assert(pool_commits(pool_before)) by {
                assert forall|k: int| 0 <= k < pool_before.len() implies record_commitments(
                    (#[trigger] pool_before[k]).0,
                ) is Some && record_commitments(pool_before[k].1) is Some by {
                    assert(pool_before[k] == pool[k]);
                }
            }
            assert(pool_commits(one)) by {
                if proof_in_pool(last, Pool::AssetMix) is Some {
                    assert(one[0] == pool[pool.len() - 1]);
                }
            }
            assert forall|i: int| 0 <= i < bodies.len() implies pool_commits(
                pool_of(seq![#[trigger] bodies[i]], Pool::AssetMix),
            ) by {
                if i < before.len() {
                    assert(before[i] == bodies[i]);
                }
            }
        }
        if forall|i: int|
            0 <= i < bodies.len() ==> pool_commits(
                pool_of(seq![#[trigger] bodies[i]], Pool::AssetMix),
            ) {
            assert(pool_commits(one)) by {
                assert(bodies[bodies.len() - 1] == last);
            }
            assert forall|i: int| 0 <= i < before.len() implies pool_commits(
                pool_of(seq![#[trigger] before[i]], Pool::AssetMix),
            ) by {
                assert(before[i] == bodies[i]);
            }
            assert(pool_commits(pool_before));
            assert forall|k: int| 0 <= k < pool.len() implies record_commitments(
                (#[trigger] pool[k]).0,
            ) is Some && record_commitments(pool[k].1) is Some by {
                if k < pool_before.len() {
                    assert(pool[k] == pool_before[k]);
                } else {
                    assert(pool[k] == one[0]);
                }
            }
        }
    }
}

/// One body verifies exactly where its plain check passes, the
/// commitments that its asset-mixing proof is verified against exist, and
/// all four verifiers accept.
pub proof fn lemma_single_body_verifies(body: &XfrBody, verdicts: ProofVerdicts)
    ensures
        spec_batch_verify_xfr_bodies(seq![body], verdicts) is Ok <==> {
            &&& plain_check(body) is Ok
            &&& verdicts.conf_amount is Ok
            &&& verdicts.conf_asset is Ok
            &&& pool_commits(pool_of(seq![body], Pool::AssetMix))
            &&& verdicts.asset_mix is Ok
            &&& verdicts.tracing is Ok
        },
{
    let bodies = seq![body];
    lemma_first_failure_ok(plain_checks(bodies));
    assert(plain_checks(bodies)[0] == plain_check(body));
}

/// Verifying bodies in one batch succeeds exactly where verifying each
/// body alone succeeds, as far as the verifiers of the proofs agree: each
/// of them must accept a batch exactly where it accepts each body's part
/// alone.
pub proof fn lemma_batch_equivalence(
    bodies: Seq<&XfrBody>,
    batch: ProofVerdicts,
    singles: Seq<ProofVerdicts>,
)
    requires
        singles.len() == bodies.len(),
        batch.conf_amount is Ok <==> forall|i: int|
            0 <= i < singles.len() ==> (#[trigger] singles[i]).conf_amount is Ok,
        batch.conf_asset is Ok <==> forall|i: int|
            0 <= i < singles.len() ==> (#[trigger] singles[i]).conf_asset is Ok,
        batch.asset_mix is Ok <==> forall|i: int|
            0 <= i < singles.len() ==> (#[trigger] singles[i]).asset_mix is Ok,
        batch.tracing is Ok <==> forall|i: int|
            0 <= i < singles.len() ==> (#[trigger] singles[i]).tracing is Ok,
    ensures
        spec_batch_verify_xfr_bodies(bodies, batch) is Ok <==> forall|i: int|
            0 <= i < bodies.len() ==> spec_batch_verify_xfr_bodies(
                seq![#[trigger] bodies[i]],
                singles[i],
            ) is Ok,
{
    lemma_first_failure_ok(plain_checks(bodies));
    lemma_pool_commits_each(bodies);
    assert forall|i: int| 0 <= i < bodies.len() implies (spec_batch_verify_xfr_bodies(
        seq![#[trigger] bodies[i]],
        singles[i],
    ) is Ok <==> {
        &&& plain_checks(bodies)[i] is Ok
        &&& singles[i].conf_amount is Ok
        &&& singles[i].conf_asset is Ok
        &&& pool_commits(pool_of(seq![bodies[i]], Pool::AssetMix))
        &&& singles[i].asset_mix is Ok
        &&& singles[i].tracing is Ok
    }) by {
        lemma_single_body_verifies(bodies[i], singles[i]);
    }
    if spec_batch_verify_xfr_bodies(bodies, batch) is Ok {
        assert forall|i: int| 0 <= i < bodies.len() implies spec_batch_verify_xfr_bodies(
            seq![#[trigger] bodies[i]],
            singles[i],
        ) is Ok by {
            assert(plain_checks(bodies)[i] is Ok);
            assert(singles[i].conf_amount is Ok);
        }
    }
    if forall|i: int|
        0 <= i < bodies.len() ==> spec_batch_verify_xfr_bodies(
            seq![#[trigger] bodies[i]],
            singles[i],
        ) is Ok {
        assert forall|j: int| 0 <= j < bodies.len() implies (#[trigger] plain_checks(bodies)[j])
            is Ok by {
            assert(spec_batch_verify_xfr_bodies(seq![bodies[j]], singles[j]) is Ok);
        }
        assert forall|i: int| 0 <= i < singles.len() implies (#[trigger] singles[i]).conf_amount
            is Ok && singles[i].conf_asset is Ok && singles[i].asset_mix is Ok
            && singles[i].tracing is Ok by {
            assert(spec_batch_verify_xfr_bodies(seq![bodies[i]], singles[i]) is Ok);
        }
        assert forall|i: int| 0 <= i < bodies.len() implies pool_commits(
            pool_of(seq![#[trigger] bodies[i]], Pool::AssetMix),
        ) by {
            assert(spec_batch_verify_xfr_bodies(seq![bodies[i]], singles[i]) is Ok);
        }
    }
}

/// Where the outputs of some asset type exceed its inputs, no body is
/// made: `gen_xfr_body` fails with `XfrCreationAssetAmountError`.
pub proof fn lemma_excess_output_refused(
    inputs: Seq<AssetRecord>,
    outputs: Seq<AssetRecord>,
    proof: AssetTypeAndAmountProofContent,
    asset_type: AssetType,
)
    requires
        inputs.len() > 0,
        total_of(open_entries(outputs), asset_type) > total_of(open_entries(inputs), asset_type),
    ensures
        xfr_body_refusal(inputs, outputs, proof) == Some(ZeiError::XfrCreationAssetAmountError),
{
}

/// Where a body without proof reveals all amounts and asset types, and the
/// outputs of some asset type exceed its inputs, verification fails with
/// `XfrVerifyAssetAmountError`, whatever the verifiers of proofs answer.
pub proof fn lemma_excess_output_rejected(
    body: &XfrBody,
    verdicts: ProofVerdicts,
    asset_type: AssetType,
)
    requires
        body.proofs.asset_type_and_amount_proof is NoProof,
        amounts_revealed(body.inputs@),
        types_revealed(body.inputs@),
        amounts_revealed(body.outputs@),
        types_revealed(body.outputs@),
        total_of(plain_entries(body.outputs@), asset_type) > total_of(
            plain_entries(body.inputs@),
            asset_type,
        ),
    ensures
        spec_batch_verify_xfr_bodies(seq![body], verdicts) == Err::<(), ZeiError>(
            ZeiError::XfrVerifyAssetAmountError,
        ),
{
    let bodies = seq![body];
    assert(plain_checks(bodies)[0] == plain_check(body));
    lemma_first_failure_at(plain_checks(bodies), 0);
}

/// Where a body with an asset-equality proof reveals all amounts, and the
/// outputs sum to more than the inputs, verification fails with
/// `XfrVerifyAssetAmountError`, whatever the verifiers of proofs answer.
pub proof fn lemma_excess_revealed_amount_rejected(body: &XfrBody, verdicts: ProofVerdicts)
    requires
        body.proofs.asset_type_and_amount_proof is ConfAsset,
        amounts_revealed(body.inputs@),
        amounts_revealed(body.outputs@),
        sum_u64(plain_amounts(body.outputs@)) > sum_u64(plain_amounts(body.inputs@)),
    ensures
        spec_batch_verify_xfr_bodies(seq![body], verdicts) == Err::<(), ZeiError>(
            ZeiError::XfrVerifyAssetAmountError,
        ),
{
    let bodies = seq![body];
    assert(plain_checks(bodies)[0] == plain_check(body));
    lemma_first_failure_at(plain_checks(bodies), 0);
}

/// Where the plain checks of a body pass and the verifier of range proofs
/// rejects, verification fails with what that verifier answered.
pub proof fn lemma_rejected_range_proof_fails(body: &XfrBody, verdicts: ProofVerdicts)
    requires
        plain_check(body) is Ok,
        verdicts.conf_amount is Err,
    ensures
        spec_batch_verify_xfr_bodies(seq![body], verdicts) == verdicts.conf_amount,
{
    let bodies = seq![body];
    assert(plain_checks(bodies)[0] == plain_check(body));
    lemma_first_failure_ok(plain_checks(bodies));
}

} // verus!
