use zei::errors::ZeiError;
use zei::ristretto::{CompressedRistretto, Scalar};
use zei::xfr::asset_mixer::{
    asset_mix_witness, asset_type_to_scalar, batch_verify_asset_mix, commit_amount,
    commit_asset_type, process_bars,
};
use zei::xfr::asset_record::{build_open_asset_record, AssetRecordType};
use zei::xfr::balance::{
    check_asset_amount, safe_sum_u64, verify_plain_amounts, verify_plain_asset,
    verify_plain_asset_mix,
};
use zei::xfr::classify::XfrType;
use zei::xfr::lib::{
    batch_verify_xfr_bodies, batch_verify_xfr_body_asset_records, batch_verify_xfr_notes,
    check_keys, gen_xfr_body, gen_xfr_note, gen_xfr_note_request, gen_xfr_proof_request,
    gen_xfr_proofs_multi_asset,
    gen_xfr_proofs_single_asset, multisig_public_keys, verify_xfr_body, verify_xfr_note,
    xfr_proof_pools, ProofRequest, ProofVerdicts,
};
use zei::xfr::policies::{
    if_some_closure, AssetTracingPolicies, AssetTracingPolicy, XfrNotePolicies,
    XfrNotePoliciesNoRef,
};
use zei::xfr::sig::{XfrKeyPair, XfrMultiSig, XfrPublicKey, XfrSecretKey, XfrSignature};
use zei::xfr::structs::{
    AssetRecord, AssetTracerEncKeys, AssetType, AssetTypeAndAmountProof, BlindAssetRecord,
    Opaque, XfrAmount, XfrAssetType, XfrBody, XfrNote,
};

const ASSET_A: AssetType = [0u8; 16];
const ASSET_B: AssetType = [1u8; 16];

fn scalar(n: u64) -> Scalar {
    let mut bytes = [0u8; 32];
    bytes[..8].copy_from_slice(&n.to_le_bytes());
    Scalar { bytes }
}

fn key(n: u8) -> XfrKeyPair {
    XfrKeyPair { public: XfrPublicKey([n; 32]), secret: XfrSecretKey([n.wrapping_add(100); 32]) }
}

fn record(amount: u64, asset_type: AssetType, kind: AssetRecordType, owner: u8) -> AssetRecord {
    let open = build_open_asset_record(
        amount,
        asset_type,
        kind,
        key(owner).public,
        (scalar(11 + owner as u64), scalar(23 + owner as u64)),
        scalar(37 + owner as u64),
    );
    AssetRecord::from_open_asset_record_no_asset_tracking(open)
}

fn records(list: &[(u64, AssetType)], kind: AssetRecordType, first_owner: u8) -> Vec<AssetRecord> {
    let mut out = vec![];
    for (i, x) in list.iter().enumerate() {
        out.push(record(x.0, x.1, kind, first_owner + i as u8));
    }
    out
}

fn accepted() -> ProofVerdicts {
    ProofVerdicts { conf_amount: Ok(()), conf_asset: Ok(()), asset_mix: Ok(()), tracing: Ok(()) }
}

fn blob(bytes: &[u8]) -> Opaque {
    Opaque(bytes.to_vec())
}

fn standard_inputs(kind: AssetRecordType) -> Vec<AssetRecord> {
    records(&[(10, ASSET_A), (10, ASSET_A), (10, ASSET_A)], kind, 1)
}

fn standard_outputs(kind: AssetRecordType) -> Vec<AssetRecord> {
    records(&[(1, ASSET_A), (2, ASSET_A), (3, ASSET_A), (24, ASSET_A)], kind, 50)
}

fn dalek_commit(value: u64, blind: u64) -> [u8; 32] {
    bulletproofs::PedersenGens::default()
        .commit(
            curve25519_dalek::scalar::Scalar::from(value),
            curve25519_dalek::scalar::Scalar::from(blind),
        )
        .compress()
        .to_bytes()
}

#[test]
fn non_confidential_single_asset_note_verifies() {
    let kind = AssetRecordType::NonConfidentialAmount_NonConfidentialAssetType;
    let inputs = standard_inputs(kind);
    let outputs = standard_outputs(kind);
    let keys = [key(1), key(2), key(3)];
    let key_refs: Vec<&XfrKeyPair> = keys.iter().collect();
    assert_eq!(Ok(()), check_keys(&inputs, &key_refs));
    assert_eq!(
        XfrType::NonConfidential_SingleAsset,
        XfrType::from_inputs_outputs(&inputs, &outputs)
    );
    assert_eq!(Ok(ProofRequest::NoProof), gen_xfr_proof_request(&inputs, &outputs));
    let body = gen_xfr_body(&inputs, &outputs, AssetTypeAndAmountProof::NoProof, vec![]).unwrap();
    assert_eq!(3, body.inputs.len());
    assert_eq!(4, body.outputs.len());
    assert_eq!(7, body.asset_tracing_memos.len());
    assert_eq!(4, body.owners_memos.len());
    assert_eq!(XfrAmount::NonConfidential(24), body.outputs[3].amount);
    assert_eq!(XfrAssetType::NonConfidential(ASSET_A), body.outputs[3].asset_type);
    assert_eq!(key(53).public, body.outputs[3].public_key);
    assert_eq!(
        vec![key(1).public, key(2).public, key(3).public],
        multisig_public_keys(&body)
    );
    assert_eq!(Ok(()), verify_xfr_body(&body, &accepted()));
    let note = XfrNote {
        body,
        multisig: XfrMultiSig { signatures: vec![XfrSignature([7u8; 64]); 3] },
    };
    assert_eq!(Ok(()), verify_xfr_note(&note, Ok(()), &accepted()));
    assert_eq!(
        Err(ZeiError::XfrVerifyMultisigError),
        verify_xfr_note(&note, Err(ZeiError::XfrVerifyMultisigError), &accepted())
    );
}

#[test]
fn confidential_amount_single_asset_batches_one_range_proof() {
    let kind = AssetRecordType::ConfidentialAmount_NonConfidentialAssetType;
    let inputs = standard_inputs(kind);
    let outputs = standard_outputs(kind);
    assert_eq!(
        XfrType::ConfidentialAmount_NonConfidentialAssetType_SingleAsset,
        XfrType::from_inputs_outputs(&inputs, &outputs)
    );
    assert_eq!(Ok(ProofRequest::ConfAmount), gen_xfr_proof_request(&inputs, &outputs));
    let body = gen_xfr_body(
        &inputs,
        &outputs,
        AssetTypeAndAmountProof::ConfAmount(blob(b"range")),
        vec![],
    )
    .unwrap();
    let pools = xfr_proof_pools(&[&body]).ok().unwrap();
    assert_eq!(1, pools.conf_amount.len());
    assert_eq!(0, pools.conf_asset.len());
    assert_eq!(0, pools.asset_mix.len());
    assert_eq!(&blob(b"range"), pools.conf_amount[0].2);
    assert_eq!(body.inputs.as_slice(), pools.conf_amount[0].0);
    assert_eq!(body.outputs.as_slice(), pools.conf_amount[0].1);
    assert_eq!(Ok(()), verify_xfr_body(&body, &accepted()));
    let mut rejected = accepted();
    rejected.conf_amount = Err(ZeiError::XfrVerifyConfidentialAmountError);
    assert_eq!(
        Err(ZeiError::XfrVerifyConfidentialAmountError),
        verify_xfr_body(&body, &rejected)
    );
}

#[test]
fn confidential_single_asset_needs_range_and_equality_proofs() {
    let kind = AssetRecordType::ConfidentialAmount_ConfidentialAssetType;
    let inputs = standard_inputs(kind);
    let outputs = standard_outputs(kind);
    assert_eq!(
        XfrType::Confidential_SingleAsset,
        XfrType::from_inputs_outputs(&inputs, &outputs)
    );
    assert_eq!(Ok(ProofRequest::ConfAll), gen_xfr_proof_request(&inputs, &outputs));
    let body = gen_xfr_body(
        &inputs,
        &outputs,
        AssetTypeAndAmountProof::ConfAll((blob(b"range"), blob(b"equal"))),
        vec![],
    )
    .unwrap();
    let pools = xfr_proof_pools(&[&body]).ok().unwrap();
    assert_eq!(1, pools.conf_amount.len());
    assert_eq!(1, pools.conf_asset.len());
    assert_eq!(0, pools.asset_mix.len());
    assert_eq!(&blob(b"range"), pools.conf_amount[0].2);
    assert_eq!(&blob(b"equal"), pools.conf_asset[0].2);
    assert_eq!(Ok(()), verify_xfr_body(&body, &accepted()));
    let mut rejected = accepted();
    rejected.conf_asset = Err(ZeiError::XfrVerifyConfidentialAssetError);
    assert_eq!(
        Err(ZeiError::XfrVerifyConfidentialAssetError),
        verify_xfr_body(&body, &rejected)
    );
    rejected.conf_amount = Err(ZeiError::XfrVerifyConfidentialAmountError);
    assert_eq!(
        Err(ZeiError::XfrVerifyConfidentialAmountError),
        verify_xfr_body(&body, &rejected)
    );
}

#[test]
fn confidential_multi_asset_verifies_by_asset_mix_proof() {
    let kind = AssetRecordType::ConfidentialAmount_ConfidentialAssetType;
    let inputs = records(&[(10, ASSET_A), (10, ASSET_B)], kind, 1);
    let outputs = records(&[(5, ASSET_A), (5, ASSET_B), (5, ASSET_A), (5, ASSET_B)], kind, 50);
    assert_eq!(
        XfrType::Confidential_MultiAsset,
        XfrType::from_inputs_outputs(&inputs, &outputs)
    );
    match gen_xfr_proof_request(&inputs, &outputs) {
        Ok(ProofRequest::AssetMix(ins, outs)) => {
            assert_eq!(2, ins.len());
            assert_eq!(4, outs.len());
            assert_eq!(asset_mix_witness(&inputs[1].open_asset_record), ins[1]);
            assert_eq!(asset_mix_witness(&outputs[3].open_asset_record), outs[3]);
            assert_eq!(10, ins[1].amount);
            assert_eq!(5, outs[3].amount);
        }
        _ => panic!("an asset-mixing proof is needed"),
    }
    let body =
        gen_xfr_body(&inputs, &outputs, AssetTypeAndAmountProof::AssetMix(blob(b"mix")), vec![])
            .unwrap();
    let pools = xfr_proof_pools(&[&body]).ok().unwrap();
    assert_eq!(0, pools.conf_amount.len());
    assert_eq!(0, pools.conf_asset.len());
    assert_eq!(1, pools.asset_mix.len());
    let instances = batch_verify_asset_mix(&pools.asset_mix).unwrap();
    assert_eq!(1, instances.len());
    assert_eq!(2, instances[0].inputs.len());
    assert_eq!(4, instances[0].outputs.len());
    assert_eq!(&blob(b"mix"), instances[0].proof);
    assert_eq!(Ok(()), verify_xfr_body(&body, &accepted()));
    let mut rejected = accepted();
    rejected.asset_mix = Err(ZeiError::XfrVerifyAssetMixError);
    assert_eq!(Err(ZeiError::XfrVerifyAssetMixError), verify_xfr_body(&body, &rejected));
}

#[test]
fn outputs_above_inputs_are_refused() {
    let kind = AssetRecordType::NonConfidentialAmount_NonConfidentialAssetType;
    let inputs = records(&[(10, ASSET_A)], kind, 1);
    let outputs = records(&[(11, ASSET_A)], kind, 50);
    assert_eq!(Err(ZeiError::XfrCreationAssetAmountError), check_asset_amount(&inputs, &outputs));
    assert_eq!(
        Err(ZeiError::XfrCreationAssetAmountError),
        gen_xfr_body(&inputs, &outputs, AssetTypeAndAmountProof::NoProof, vec![])
    );
    assert_eq!(
        Err(ZeiError::XfrCreationAssetAmountError),
        gen_xfr_proof_request(&inputs, &outputs)
    );
    let hidden = AssetRecordType::ConfidentialAmount_ConfidentialAssetType;
    let inputs = records(&[(10, ASSET_A), (10, ASSET_B)], hidden, 1);
    let outputs = records(&[(10, ASSET_A), (11, ASSET_B)], hidden, 50);
    assert_eq!(
        Err(ZeiError::XfrCreationAssetAmountError),
        gen_xfr_body(&inputs, &outputs, AssetTypeAndAmountProof::AssetMix(blob(b"mix")), vec![])
    );
}

#[test]
fn a_body_needs_an_input() {
    let kind = AssetRecordType::NonConfidentialAmount_NonConfidentialAssetType;
    let outputs = records(&[(0, ASSET_A)], kind, 50);
    assert_eq!(
        Err(ZeiError::ParameterError),
        gen_xfr_body(&[], &outputs, AssetTypeAndAmountProof::NoProof, vec![])
    );
    assert_eq!(Err(ZeiError::ParameterError), gen_xfr_proof_request(&[], &outputs));
    assert_eq!(Ok(()), check_asset_amount(&[], &outputs));
}

#[test]
fn a_proof_of_another_form_is_refused() {
    let kind = AssetRecordType::ConfidentialAmount_NonConfidentialAssetType;
    let inputs = standard_inputs(kind);
    let outputs = standard_outputs(kind);
    assert_eq!(
        Err(ZeiError::XfrCreationAssetAmountError),
        gen_xfr_body(&inputs, &outputs, AssetTypeAndAmountProof::NoProof, vec![])
    );
    assert_eq!(
        Err(ZeiError::XfrCreationAssetAmountError),
        gen_xfr_body(
            &inputs,
            &outputs,
            AssetTypeAndAmountProof::ConfAsset(blob(b"equal")),
            vec![]
        )
    );
    assert!(gen_xfr_body(
        &inputs,
        &outputs,
        AssetTypeAndAmountProof::ConfAmount(blob(b"range")),
        vec![blob(b"t0"), blob(b"t1")]
    )
    .is_ok());
}

#[test]
fn proof_requests_follow_the_kind() {
    assert_eq!(
        Ok(ProofRequest::NoProof),
        gen_xfr_proofs_single_asset(XfrType::NonConfidential_SingleAsset)
    );
    assert_eq!(
        Ok(ProofRequest::ConfAmount),
        gen_xfr_proofs_single_asset(
            XfrType::ConfidentialAmount_NonConfidentialAssetType_SingleAsset
        )
    );
    assert_eq!(
        Ok(ProofRequest::ConfAsset),
        gen_xfr_proofs_single_asset(
            XfrType::NonConfidentialAmount_ConfidentialAssetType_SingleAsset
        )
    );
    assert_eq!(
        Ok(ProofRequest::ConfAll),
        gen_xfr_proofs_single_asset(XfrType::Confidential_SingleAsset)
    );
    assert_eq!(
        Err(ZeiError::XfrCreationAssetAmountError),
        gen_xfr_proofs_single_asset(XfrType::Confidential_MultiAsset)
    );
    assert_eq!(
        Err(ZeiError::XfrCreationAssetAmountError),
        gen_xfr_proofs_single_asset(XfrType::NonConfidential_MultiAsset)
    );
    let kind = AssetRecordType::ConfidentialAmount_ConfidentialAssetType;
    let a = record(3, ASSET_A, kind, 1);
    let b = record(3, ASSET_B, kind, 2);
    let ins = [&a.open_asset_record];
    let outs = [&b.open_asset_record];
    assert_eq!(
        Ok(ProofRequest::NoProof),
        gen_xfr_proofs_multi_asset(&ins, &outs, XfrType::NonConfidential_MultiAsset)
    );
    assert_eq!(
        Ok(ProofRequest::AssetMix(
            vec![asset_mix_witness(&a.open_asset_record)],
            vec![asset_mix_witness(&b.open_asset_record)]
        )),
        gen_xfr_proofs_multi_asset(&ins, &outs, XfrType::Confidential_MultiAsset)
    );
    assert_eq!(
        Err(ZeiError::XfrCreationAssetAmountError),
        gen_xfr_proofs_multi_asset(&ins, &outs, XfrType::Confidential_SingleAsset)
    );
}

#[test]
fn classification_follows_the_table() {
    let plain = AssetRecordType::NonConfidentialAmount_NonConfidentialAssetType;
    let amount = AssetRecordType::ConfidentialAmount_NonConfidentialAssetType;
    let kind = AssetRecordType::NonConfidentialAmount_ConfidentialAssetType;
    let both = AssetRecordType::ConfidentialAmount_ConfidentialAssetType;
    let classify = |first: AssetRecordType, second: AssetRecordType, other: AssetType| {
        XfrType::from_inputs_outputs(
            &[record(5, ASSET_A, first, 1)],
            &[record(5, other, second, 2), record(0, ASSET_A, plain, 3)],
        )
    };
    assert_eq!(XfrType::NonConfidential_SingleAsset, classify(plain, plain, ASSET_A));
    assert_eq!(
        XfrType::ConfidentialAmount_NonConfidentialAssetType_SingleAsset,
        classify(plain, amount, ASSET_A)
    );
    assert_eq!(
        XfrType::NonConfidentialAmount_ConfidentialAssetType_SingleAsset,
        classify(kind, plain, ASSET_A)
    );
    assert_eq!(XfrType::Confidential_SingleAsset, classify(amount, kind, ASSET_A));
    assert_eq!(XfrType::Confidential_SingleAsset, classify(both, plain, ASSET_A));
    assert_eq!(XfrType::NonConfidential_MultiAsset, classify(plain, plain, ASSET_B));
    assert_eq!(XfrType::Confidential_MultiAsset, classify(plain, amount, ASSET_B));
    assert_eq!(XfrType::Confidential_MultiAsset, classify(kind, plain, ASSET_B));
    assert_eq!(XfrType::Confidential_MultiAsset, classify(amount, kind, ASSET_B));
    assert_eq!(XfrType::Confidential_MultiAsset, classify(both, both, ASSET_B));
    assert_eq!(XfrType::NonConfidential_SingleAsset, XfrType::from_inputs_outputs(&[], &[]));
    assert_eq!(
        XfrType::Confidential_MultiAsset,
        XfrType::from_inputs_outputs(&[], &[record(1, ASSET_B, both, 1), record(1, ASSET_A, plain, 2)])
    );
}

#[test]
fn keys_must_match_the_inputs() {
    let kind = AssetRecordType::NonConfidentialAmount_NonConfidentialAssetType;
    let inputs = standard_inputs(kind);
    let keys = [key(1), key(2), key(3)];
    let all: Vec<&XfrKeyPair> = keys.iter().collect();
    assert_eq!(Ok(()), check_keys(&inputs, &all));
    assert_eq!(Err(ZeiError::ParameterError), check_keys(&inputs, &all[..2]));
    let swapped = [&keys[0], &keys[2], &keys[1]];
    assert_eq!(Err(ZeiError::ParameterError), check_keys(&inputs, &swapped));
    assert_eq!(Ok(()), check_keys(&[], &[]));
    let outputs = standard_outputs(kind);
    assert_eq!(Ok(ProofRequest::NoProof), gen_xfr_note_request(&inputs, &outputs, &all));
    assert_eq!(Err(ZeiError::ParameterError), gen_xfr_note_request(&inputs, &outputs, &swapped));
    assert_eq!(Err(ZeiError::ParameterError), gen_xfr_note_request(&[], &outputs, &[]));
    let more = records(&[(31, ASSET_A)], kind, 50);
    assert_eq!(
        Err(ZeiError::XfrCreationAssetAmountError),
        gen_xfr_note_request(&inputs, &more, &all)
    );
    assert_eq!(Err(ZeiError::ParameterError), gen_xfr_note_request(&inputs, &more, &swapped));
    assert_eq!(&keys[0].public, keys[0].get_pk_ref());
    assert_eq!(keys[1].public, keys[1].get_pk());
}

#[test]
fn sums_of_amounts_do_not_overflow() {
    assert_eq!(0u128, safe_sum_u64(&[]));
    assert_eq!(60u128, safe_sum_u64(&[10, 20, 30]));
    assert_eq!(
        3 * (u64::MAX as u128),
        safe_sum_u64(&[u64::MAX, u64::MAX, u64::MAX])
    );
    assert_eq!((u64::MAX as u128) + 1, safe_sum_u64(&[u64::MAX, 1]));
    let kind = AssetRecordType::NonConfidentialAmount_NonConfidentialAssetType;
    let inputs = records(&[(u64::MAX, ASSET_A), (u64::MAX, ASSET_A)], kind, 1);
    let outputs = records(&[(u64::MAX, ASSET_A), (u64::MAX, ASSET_A), (1, ASSET_A)], kind, 50);
    assert_eq!(Err(ZeiError::XfrCreationAssetAmountError), check_asset_amount(&inputs, &outputs));
    assert_eq!(Ok(()), check_asset_amount(&inputs, &outputs[..2]));
}

fn bar(amount: Option<u64>, asset_type: Option<AssetType>) -> BlindAssetRecord {
    let c = CompressedRistretto(dalek_commit(1, 2));
    BlindAssetRecord {
        amount: match amount {
            Some(a) => XfrAmount::NonConfidential(a),
            None => XfrAmount::Confidential((c, c)),
        },
        asset_type: match asset_type {
            Some(t) => XfrAssetType::NonConfidential(t),
            None => XfrAssetType::Confidential(c),
        },
        public_key: XfrPublicKey([9u8; 32]),
    }
}

#[test]
fn plain_checks_compare_what_is_revealed() {
    let a10 = bar(Some(10), Some(ASSET_A));
    let a4 = bar(Some(4), Some(ASSET_A));
    let b6 = bar(Some(6), Some(ASSET_B));
    let b7 = bar(Some(7), Some(ASSET_B));
    assert_eq!(Ok(()), verify_plain_amounts(&[a10], &[a4, b6]));
    assert_eq!(Ok(()), verify_plain_amounts(&[a10], &[a10]));
    assert_eq!(Err(ZeiError::XfrVerifyAssetAmountError), verify_plain_amounts(&[a10], &[a4, b7]));
    assert_eq!(
        Err(ZeiError::InconsistentStructureError),
        verify_plain_amounts(&[a10], &[bar(None, Some(ASSET_A))])
    );
    assert_eq!(Ok(()), verify_plain_amounts(&[bar(Some(1), None)], &[bar(Some(1), None)]));
    assert_eq!(Ok(()), verify_plain_asset(&[a10], &[a4, a4]));
    assert_eq!(Ok(()), verify_plain_asset(&[], &[]));
    assert_eq!(Err(ZeiError::XfrVerifyAssetAmountError), verify_plain_asset(&[a10], &[a4, b6]));
    assert_eq!(Err(ZeiError::XfrVerifyAssetAmountError), verify_plain_asset(&[a10, b6], &[]));
    assert_eq!(
        Err(ZeiError::InconsistentStructureError),
        verify_plain_asset(&[a10], &[bar(Some(1), None)])
    );
    assert_eq!(Ok(()), verify_plain_asset(&[bar(None, Some(ASSET_A))], &[a4]));
    assert_eq!(Ok(()), verify_plain_asset_mix(&[a10, b6], &[a4, b6, a4]));
    assert_eq!(
        Err(ZeiError::XfrVerifyAssetAmountError),
        verify_plain_asset_mix(&[a10, b6], &[a4, b7])
    );
    assert_eq!(Err(ZeiError::XfrVerifyAssetAmountError), verify_plain_asset_mix(&[a10], &[b6]));
    assert_eq!(
        Err(ZeiError::InconsistentStructureError),
        verify_plain_asset_mix(&[a10], &[bar(None, Some(ASSET_A))])
    );
    assert_eq!(
        Err(ZeiError::InconsistentStructureError),
        verify_plain_asset_mix(&[bar(Some(10), None)], &[a4])
    );
}

fn body_of(
    inputs: Vec<BlindAssetRecord>,
    outputs: Vec<BlindAssetRecord>,
    proof: AssetTypeAndAmountProof,
) -> XfrBody {
    let kind = AssetRecordType::NonConfidentialAmount_NonConfidentialAssetType;
    let mut body = gen_xfr_body(
        &records(&[(1, ASSET_A)], kind, 1),
        &[],
        AssetTypeAndAmountProof::NoProof,
        vec![],
    )
    .unwrap();
    body.asset_tracing_memos = vec![vec![]; inputs.len() + outputs.len()];
    body.owners_memos = vec![None; outputs.len()];
    body.inputs = inputs;
    body.outputs = outputs;
    body.proofs.asset_type_and_amount_proof = proof;
    body
}

#[test]
fn forged_bodies_fail_their_plain_checks() {
    let a10 = bar(Some(10), Some(ASSET_A));
    let a11 = bar(Some(11), Some(ASSET_A));
    let b10 = bar(Some(10), Some(ASSET_B));
    let forged = body_of(vec![a10], vec![a11], AssetTypeAndAmountProof::NoProof);
    let mut none = accepted();
    none.conf_amount = Err(ZeiError::XfrVerifyConfidentialAmountError);
    none.tracing = Err(ZeiError::XfrVerifyTrackingError);
    assert_eq!(Err(ZeiError::XfrVerifyAssetAmountError), verify_xfr_body(&forged, &none));
    let forged = body_of(vec![a10], vec![a11], AssetTypeAndAmountProof::ConfAsset(blob(b"e")));
    assert_eq!(Err(ZeiError::XfrVerifyAssetAmountError), verify_xfr_body(&forged, &accepted()));
    let forged = body_of(vec![a10], vec![b10], AssetTypeAndAmountProof::ConfAmount(blob(b"r")));
    assert_eq!(Err(ZeiError::XfrVerifyAssetAmountError), verify_xfr_body(&forged, &accepted()));
    let hidden = body_of(
        vec![a10],
        vec![bar(None, Some(ASSET_A))],
        AssetTypeAndAmountProof::NoProof,
    );
    assert_eq!(Err(ZeiError::InconsistentStructureError), verify_xfr_body(&hidden, &accepted()));
    let honest = body_of(vec![a10], vec![a10], AssetTypeAndAmountProof::NoProof);
    assert_eq!(Ok(()), verify_xfr_body(&honest, &accepted()));
    let mut untraced = accepted();
    untraced.tracing = Err(ZeiError::XfrVerifyTrackingError);
    assert_eq!(Err(ZeiError::XfrVerifyTrackingError), verify_xfr_body(&honest, &untraced));
    assert_eq!(Ok(()), batch_verify_xfr_body_asset_records(&[&honest], &untraced));
}

#[test]
fn a_batch_verifies_where_each_body_does() {
    let a10 = bar(Some(10), Some(ASSET_A));
    let a11 = bar(Some(11), Some(ASSET_A));
    let good = body_of(vec![a10], vec![a10], AssetTypeAndAmountProof::NoProof);
    let ranged = body_of(
        vec![bar(None, Some(ASSET_A))],
        vec![bar(None, Some(ASSET_A))],
        AssetTypeAndAmountProof::ConfAmount(blob(b"r1")),
    );
    let mixed = body_of(
        vec![bar(None, None)],
        vec![bar(Some(3), None)],
        AssetTypeAndAmountProof::AssetMix(blob(b"m1")),
    );
    let full = body_of(
        vec![bar(None, None)],
        vec![bar(None, None)],
        AssetTypeAndAmountProof::ConfAll((blob(b"r2"), blob(b"e2"))),
    );
    let bad = body_of(vec![a10], vec![a11], AssetTypeAndAmountProof::NoProof);
    let all = [&good, &ranged, &mixed, &full];
    assert_eq!(Ok(()), batch_verify_xfr_bodies(&all, &accepted()));
    for body in all.iter() {
        assert_eq!(Ok(()), verify_xfr_body(body, &accepted()));
    }
    let pools = xfr_proof_pools(&all).ok().unwrap();
    assert_eq!(2, pools.conf_amount.len());
    assert_eq!(&blob(b"r1"), pools.conf_amount[0].2);
    assert_eq!(&blob(b"r2"), pools.conf_amount[1].2);
    assert_eq!(1, pools.conf_asset.len());
    assert_eq!(&blob(b"e2"), pools.conf_asset[0].2);
    assert_eq!(1, pools.asset_mix.len());
    assert_eq!(&blob(b"m1"), pools.asset_mix[0].2);
    let with_bad = [&good, &ranged, &bad, &mixed];
    assert_eq!(
        Err(ZeiError::XfrVerifyAssetAmountError),
        batch_verify_xfr_bodies(&with_bad, &accepted())
    );
    assert!(xfr_proof_pools(&with_bad).is_err());
    assert_eq!(Err(ZeiError::XfrVerifyAssetAmountError), verify_xfr_body(&bad, &accepted()));
    assert_eq!(Ok(()), batch_verify_xfr_bodies(&[], &accepted()));
}

#[test]
fn notes_are_verified_signatures_first() {
    let a10 = bar(Some(10), Some(ASSET_A));
    let a11 = bar(Some(11), Some(ASSET_A));
    let note = |outputs: Vec<BlindAssetRecord>| XfrNote {
        body: body_of(vec![a10], outputs, AssetTypeAndAmountProof::NoProof),
        multisig: XfrMultiSig { signatures: vec![XfrSignature([1u8; 64])] },
    };
    let good = note(vec![a10]);
    let bad = note(vec![a11]);
    assert_eq!(
        Ok(()),
        batch_verify_xfr_notes(&[&good, &good], &[Ok(()), Ok(())], &accepted())
    );
    assert_eq!(
        Err(ZeiError::XfrVerifyMultisigError),
        batch_verify_xfr_notes(
            &[&good, &bad],
            &[Ok(()), Err(ZeiError::XfrVerifyMultisigError)],
            &accepted()
        )
    );
    assert_eq!(
        Err(ZeiError::XfrVerifyMultisigError),
        batch_verify_xfr_notes(
            &[&good, &bad],
            &[Err(ZeiError::XfrVerifyMultisigError), Err(ZeiError::ParameterError)],
            &accepted()
        )
    );
    assert_eq!(
        Err(ZeiError::XfrVerifyAssetAmountError),
        batch_verify_xfr_notes(&[&good, &bad], &[Ok(()), Ok(())], &accepted())
    );
    assert_eq!(
        Err(ZeiError::ParameterError),
        batch_verify_xfr_notes(&[&good, &bad], &[Ok(())], &accepted())
    );
    assert_eq!(XfrMultiSig { signatures: vec![XfrSignature([1u8; 64])] }, good.multisig.clone());
}

#[test]
fn commitments_are_those_of_the_curve_library() {
    let zero_blind = commit_amount(&XfrAmount::NonConfidential(7)).unwrap();
    assert_eq!(dalek_commit(7, 0), zero_blind.0);
    let large = 0x1234_5678_9ABC_DEF0u64;
    assert_eq!(dalek_commit(large, 0), commit_amount(&XfrAmount::NonConfidential(large)).unwrap().0);
    let low = CompressedRistretto(dalek_commit(5, 3));
    let high = CompressedRistretto(dalek_commit(2, 4));
    let whole = commit_amount(&XfrAmount::Confidential((low, high))).unwrap();
    assert_eq!(dalek_commit(5 + (2u64 << 32), 3 + (4u64 << 32)), whole.0);
    assert_ne!(low.0, whole.0);
    assert_ne!(high.0, whole.0);
    let not_a_point = CompressedRistretto([0xFF; 32]);
    assert_eq!(
        Err(ZeiError::InconsistentStructureError),
        commit_amount(&XfrAmount::Confidential((not_a_point, high)))
    );
    assert_eq!(
        Err(ZeiError::InconsistentStructureError),
        commit_amount(&XfrAmount::Confidential((low, not_a_point)))
    );
    let mut asset = [0u8; 16];
    asset[0] = 0x2A;
    asset[1] = 0x01;
    assert_eq!(scalar(0x012A), asset_type_to_scalar(&asset));
    let mut top = [0u8; 16];
    top[15] = 0x80;
    let mut expected = [0u8; 32];
    expected[15] = 0x80;
    assert_eq!(Scalar { bytes: expected }, asset_type_to_scalar(&top));
    assert_eq!(
        dalek_commit(0x012A, 0),
        commit_asset_type(&XfrAssetType::NonConfidential(asset)).0
    );
    assert_eq!(low, commit_asset_type(&XfrAssetType::Confidential(low)));
    assert_eq!(not_a_point, commit_asset_type(&XfrAssetType::Confidential(not_a_point)));
    let coms = process_bars(&[bar(Some(7), Some(asset)), bar(None, None)]).unwrap();
    assert_eq!(2, coms.len());
    assert_eq!((zero_blind, CompressedRistretto(dalek_commit(0x012A, 0))), coms[0]);
    assert_eq!(dalek_commit(1 + (1u64 << 32), 2 + (2u64 << 32)), coms[1].0 .0);
    assert_eq!(dalek_commit(1, 2), coms[1].1 .0);
    let broken = BlindAssetRecord {
        amount: XfrAmount::Confidential((not_a_point, not_a_point)),
        asset_type: XfrAssetType::NonConfidential(asset),
        public_key: XfrPublicKey([0u8; 32]),
    };
    assert_eq!(
        Err(ZeiError::InconsistentStructureError),
        process_bars(&[bar(Some(7), Some(asset)), broken])
    );
    let body = body_of(vec![broken], vec![], AssetTypeAndAmountProof::AssetMix(blob(b"m")));
    assert_eq!(Err(ZeiError::InconsistentStructureError), verify_xfr_body(&body, &accepted()));
    let mut rejected = accepted();
    rejected.conf_asset = Err(ZeiError::XfrVerifyConfidentialAssetError);
    assert_eq!(
        Err(ZeiError::XfrVerifyConfidentialAssetError),
        verify_xfr_body(&body, &rejected)
    );
}

#[test]
fn records_commit_to_what_they_hide() {
    let kind = AssetRecordType::ConfidentialAmount_ConfidentialAssetType;
    let amount = (3u64 << 32) + 9;
    let open = build_open_asset_record(
        amount,
        ASSET_B,
        kind,
        key(4).public,
        (scalar(100), scalar(200)),
        scalar(300),
    );
    assert_eq!(
        XfrAmount::Confidential((
            CompressedRistretto(dalek_commit(9, 100)),
            CompressedRistretto(dalek_commit(3, 200))
        )),
        open.blind_asset_record.amount
    );
    let type_scalar = curve25519_dalek::scalar::Scalar::from(u128::from_le_bytes(ASSET_B));
    let type_commitment = bulletproofs::PedersenGens::default()
        .commit(type_scalar, curve25519_dalek::scalar::Scalar::from(300u64))
        .compress()
        .to_bytes();
    assert_eq!(
        XfrAssetType::Confidential(CompressedRistretto(type_commitment)),
        open.blind_asset_record.asset_type
    );
    assert_eq!(amount, open.amount);
    assert_eq!(ASSET_B, open.asset_type);
    assert_eq!(None, open.blind_asset_record.amount.get_amount());
    assert_eq!(None, open.blind_asset_record.asset_type.get_asset_type());
    let witness = asset_mix_witness(&open);
    assert_eq!(amount, witness.amount);
    assert_eq!(type_scalar.to_bytes(), witness.asset_type.bytes);
    assert_eq!(scalar(100 + (200u64 << 32)), witness.amount_blind);
    assert_eq!(scalar(300), witness.type_blind);
    let plain = build_open_asset_record(
        amount,
        ASSET_B,
        AssetRecordType::NonConfidentialAmount_NonConfidentialAssetType,
        key(4).public,
        (scalar(100), scalar(200)),
        scalar(300),
    );
    assert_eq!(Some(amount), plain.blind_asset_record.amount.get_amount());
    assert_eq!(Some(ASSET_B), plain.blind_asset_record.asset_type.get_asset_type());
}

#[test]
fn blinding_factors_are_combined_modulo_the_group_order() {
    let order_minus_one = Scalar {
        bytes: (-curve25519_dalek::scalar::Scalar::ONE).to_bytes(),
    };
    let open = build_open_asset_record(
        1,
        ASSET_A,
        AssetRecordType::ConfidentialAmount_ConfidentialAssetType,
        key(1).public,
        (scalar(5), order_minus_one),
        scalar(0),
    );
    let expected = curve25519_dalek::scalar::Scalar::from(5u64)
        - curve25519_dalek::scalar::Scalar::from(1u64 << 32);
    assert_eq!(expected.to_bytes(), asset_mix_witness(&open).amount_blind.bytes);
}

#[test]
fn policies_are_carried_as_given() {
    let tracer = AssetTracerEncKeys {
        record_data_enc_key: CompressedRistretto(dalek_commit(1, 1)),
        attrs_enc_key: [3u8; 48],
    };
    let policies = AssetTracingPolicies(vec![AssetTracingPolicy {
        enc_keys: tracer,
        asset_tracking: true,
        identity_tracking: None,
    }]);
    let none = AssetTracingPolicies(vec![]);
    let commitment = Opaque(vec![1, 2, 3]);
    let owned = XfrNotePoliciesNoRef::new(
        vec![policies.clone(), none.clone()],
        vec![Some(commitment.clone()), None],
        vec![none.clone()],
        vec![None],
    );
    assert_eq!(vec![policies.clone(), none.clone()], owned.inputs_tracking_policies);
    assert_eq!(vec![Some(commitment.clone()), None], owned.inputs_sig_commitments);
    let refs = XfrNotePolicies::from_policies_no_ref(&owned);
    assert_eq!(vec![&policies, &none], refs.inputs_tracking_policies);
    assert_eq!(vec![Some(&commitment), None], refs.inputs_sig_commitments);
    assert_eq!(vec![&none], refs.outputs_tracking_policies);
    assert_eq!(vec![None], refs.outputs_sig_commitments);
    let made = XfrNotePolicies::new(
        vec![&policies, &none],
        vec![Some(&commitment), None],
        vec![&none],
        vec![None],
    );
    assert_eq!(made, refs);
    assert_eq!(Some(&commitment), if_some_closure(&Some(commitment.clone())));
    assert_eq!(None, if_some_closure(&None));
    let a10 = bar(Some(10), Some(ASSET_A));
    let body = body_of(vec![a10, a10], vec![a10], AssetTypeAndAmountProof::NoProof);
    assert!(refs.fits_body(&body));
    assert!(!XfrNotePolicies::default().fits_body(&body));
    assert_eq!(XfrNotePoliciesNoRef::new(vec![], vec![], vec![], vec![]), Default::default());
    let empty = body_of(vec![], vec![], AssetTypeAndAmountProof::NoProof);
    assert!(XfrNotePolicies::default().fits_body(&empty));
}

#[test]
fn a_note_carries_the_signatures_over_its_body() {
    let kind = AssetRecordType::NonConfidentialAmount_NonConfidentialAssetType;
    let inputs = standard_inputs(kind);
    let outputs = standard_outputs(kind);
    let keys = [key(1), key(2), key(3)];
    let all: Vec<&XfrKeyPair> = keys.iter().collect();
    let mut signed = vec![];
    let note = gen_xfr_note(&inputs, &outputs, &all, AssetTypeAndAmountProof::NoProof, vec![], |body| {
        signed.push(body.clone());
        XfrMultiSig { signatures: vec![XfrSignature([body.outputs.len() as u8; 64]); body.inputs.len()] }
    })
    .unwrap();
    assert_eq!(vec![note.body.clone()], signed);
    assert_eq!(XfrMultiSig { signatures: vec![XfrSignature([4u8; 64]); 3] }, note.multisig);
    assert_eq!(
        gen_xfr_body(&inputs, &outputs, AssetTypeAndAmountProof::NoProof, vec![]).unwrap(),
        note.body
    );
    let never = |_: &XfrBody| -> XfrMultiSig { panic!("nothing to sign") };
    assert_eq!(
        Err(ZeiError::ParameterError),
        gen_xfr_note(&inputs, &outputs, &all[..2], AssetTypeAndAmountProof::NoProof, vec![], never)
    );
    assert_eq!(
        Err(ZeiError::ParameterError),
        gen_xfr_note(&[], &outputs, &[], AssetTypeAndAmountProof::NoProof, vec![], never)
    );
    let more = records(&[(31, ASSET_A)], kind, 50);
    assert_eq!(
        Err(ZeiError::XfrCreationAssetAmountError),
        gen_xfr_note(&inputs, &more, &all, AssetTypeAndAmountProof::NoProof, vec![], never)
    );
    assert_eq!(
        Err(ZeiError::XfrCreationAssetAmountError),
        gen_xfr_note(
            &inputs,
            &outputs,
            &all,
            AssetTypeAndAmountProof::ConfAmount(blob(b"r")),
            vec![],
            never
        )
    );
}
