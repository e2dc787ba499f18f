//! Construction and verification of transfers.

use crate::errors::ZeiError;
use crate::xfr::asset_mixer::{
    asset_mix_witness, batch_verify_asset_mix, instances_commit, record_commitments,
    AssetMixWitness, BarsInstance,
};
use crate::xfr::balance::{
    check_asset_amount, spec_check_asset_amount, spec_verify_plain_amounts,
    spec_verify_plain_asset, spec_verify_plain_asset_mix, verify_plain_amounts,
    verify_plain_asset, verify_plain_asset_mix,
};
use crate::xfr::classify::{classify, open_records, XfrType};
use crate::xfr::sig::{XfrKeyPair, XfrMultiSig, XfrPublicKey};
use crate::xfr::structs::{
    copy_memos, copy_optional, copy_optionals, AssetRecord, AssetTracerMemo,
    AssetTracerMemoContent, AssetTrackingProofs, AssetTrackingProofsContent,
    AssetTypeAndAmountProof, AssetTypeAndAmountProofContent, BlindAssetRecord, IdentityProof,
    OpenAssetRecord, OwnerMemo, TracingProof, XfrBody, XfrBodyContent, XfrNote, XfrProofs,
    XfrProofsContent,
};
use vstd::prelude::*;

verus! {

/// What `check_keys` returns.
pub open spec fn spec_check_keys(inputs: Seq<AssetRecord>, keys: Seq<&XfrKeyPair>) -> Result<
    (),
    ZeiError,
> {
    if inputs.len() == keys.len() && forall|i: int|
        0 <= i < inputs.len() ==> (#[trigger] inputs[i]).open_asset_record.blind_asset_record.public_key
            == keys[i].public {
        Ok(())
    } else {
        Err(ZeiError::ParameterError)
    }
}

/// Checks that there is one key pair for each input, and that each is the
/// pair of the public key that owns the input.
pub fn check_keys(inputs: &[AssetRecord], input_key_pairs: &[&XfrKeyPair]) -> (r: Result<
    (),
    ZeiError,
>)
    ensures
        r == spec_check_keys(inputs@, input_key_pairs@),
{
    if inputs.len() != input_key_pairs.len() {
        return Err(ZeiError::ParameterError);
    }
    let mut i: usize = 0;
    while i < inputs.len()
        invariant
            i <= inputs@.len(),
            inputs@.len() == input_key_pairs@.len(),
            forall|j: int|
                0 <= j < i ==> (#[trigger] inputs@[j]).open_asset_record.blind_asset_record.public_key
                    == input_key_pairs@[j].public,
        decreases inputs@.len() - i,
    {
        let inkey = &inputs[i].open_asset_record.blind_asset_record.public_key;
        if !inkey.same_key(input_key_pairs[i].get_pk_ref()) {
            return Err(ZeiError::ParameterError);
        }
        i += 1;
    }
    Ok(())
}

/// What has to be proved of the amounts and asset types of a transfer.
#[derive(Debug, PartialEq, Eq)]
pub enum ProofRequest {
    /// Nothing.
    NoProof,
    /// That the hidden amounts are in range and balance.
    ConfAmount,
    /// That the hidden asset types are all the same.
    ConfAsset,
    /// Both of these.
    ConfAll,
    /// That the amounts balance in each asset type, from the witnesses of
    /// the inputs and of the outputs.
    AssetMix(Vec<AssetMixWitness>, Vec<AssetMixWitness>),
}

/// What `gen_xfr_proofs_single_asset` returns.
pub open spec fn spec_single_asset_request(xfr_type: XfrType) -> Result<ProofRequest, ZeiError> {
    match xfr_type {
        XfrType::NonConfidential_SingleAsset => Ok(ProofRequest::NoProof),
        XfrType::ConfidentialAmount_NonConfidentialAssetType_SingleAsset => Ok(
            ProofRequest::ConfAmount,
        ),
        XfrType::NonConfidentialAmount_ConfidentialAssetType_SingleAsset => Ok(
            ProofRequest::ConfAsset,
        ),
        XfrType::Confidential_SingleAsset => Ok(ProofRequest::ConfAll),
        _ => Err(ZeiError::XfrCreationAssetAmountError),
    }
}

/// The proof that a transfer of one asset type needs, by its kind. A kind
/// with several asset types is refused.
pub fn gen_xfr_proofs_single_asset(xfr_type: XfrType) -> (r: Result<ProofRequest, ZeiError>)
    ensures
        r == spec_single_asset_request(xfr_type),
{
    match xfr_type {
        XfrType::NonConfidential_SingleAsset => Ok(ProofRequest::NoProof),
        XfrType::ConfidentialAmount_NonConfidentialAssetType_SingleAsset => Ok(
            ProofRequest::ConfAmount,
        ),
        XfrType::NonConfidentialAmount_ConfidentialAssetType_SingleAsset => Ok(
            ProofRequest::ConfAsset,
        ),
        XfrType::Confidential_SingleAsset => Ok(ProofRequest::ConfAll),
        _ => Err(ZeiError::XfrCreationAssetAmountError),
    }
}

/// The witnesses are those of the records, one for one.
pub open spec fn witnesses_of(witnesses: Seq<AssetMixWitness>, records: Seq<&OpenAssetRecord>) -> bool {
    &&& witnesses.len() == records.len()
    &&& forall|i: int| 0 <= i < records.len() ==> (#[trigger] witnesses[i]).is_of(*records[i])
}

/// The asset-mixing witnesses of the records.
fn asset_mix_witnesses(records: &[&OpenAssetRecord]) -> (witnesses: Vec<AssetMixWitness>)
    ensures
        witnesses_of(witnesses@, records@),
{
    let mut witnesses: Vec<AssetMixWitness> = Vec::new();
    let mut i: usize = 0;
    while i < records.len()
        invariant
            i <= records@.len(),
            witnesses@.len() == i,
            forall|j: int| 0 <= j < i ==> (#[trigger] witnesses@[j]).is_of(*records@[j]),
        decreases records@.len() - i,
    {
        witnesses.push(asset_mix_witness(records[i]));
        i += 1;
    }
    witnesses
}

/// The proof that a transfer of several asset types needs, by its kind:
/// none where nothing is hidden, else an asset-mixing proof, for which the
/// witnesses of the records are made. A kind with one asset type is refused.
pub fn gen_xfr_proofs_multi_asset(
    inputs: &[&OpenAssetRecord],
    outputs: &[&OpenAssetRecord],
    xfr_type: XfrType,
) -> (r: Result<ProofRequest, ZeiError>)
    ensures
        xfr_type is NonConfidential_MultiAsset ==> r == Ok::<ProofRequest, ZeiError>(
            ProofRequest::NoProof,
        ),
        xfr_type is Confidential_MultiAsset ==> r is Ok && r->Ok_0 is AssetMix && witnesses_of(
            r->Ok_0->AssetMix_0@,
            inputs@,
        ) && witnesses_of(r->Ok_0->AssetMix_1@, outputs@),
        !(xfr_type is NonConfidential_MultiAsset) && !(xfr_type is Confidential_MultiAsset) ==> r
            == Err::<ProofRequest, ZeiError>(ZeiError::XfrCreationAssetAmountError),
{
    let ins = asset_mix_witnesses(inputs);
    let out = asset_mix_witnesses(outputs);
    match xfr_type {
        XfrType::Confidential_MultiAsset => Ok(ProofRequest::AssetMix(ins, out)),
        XfrType::NonConfidential_MultiAsset => Ok(ProofRequest::NoProof),
        _ => Err(ZeiError::XfrCreationAssetAmountError),
    }
}


/// The request is what a transfer of kind `xfr_type` from `inputs` to
/// `outputs` needs proved.
pub open spec fn request_is_for(
    request: ProofRequest,
    xfr_type: XfrType,
    inputs: Seq<AssetRecord>,
    outputs: Seq<AssetRecord>,
) -> bool {
    match xfr_type {
        XfrType::NonConfidential_SingleAsset | XfrType::NonConfidential_MultiAsset => request is NoProof,
        XfrType::ConfidentialAmount_NonConfidentialAssetType_SingleAsset => request is ConfAmount,
        XfrType::NonConfidentialAmount_ConfidentialAssetType_SingleAsset => request is ConfAsset,
        XfrType::Confidential_SingleAsset => request is ConfAll,
        XfrType::Confidential_MultiAsset => {
            &&& request is AssetMix
            &&& request->AssetMix_0@.len() == inputs.len()
            &&& request->AssetMix_1@.len() == outputs.len()
            &&& forall|i: int|
                0 <= i < inputs.len() ==> (#[trigger] request->AssetMix_0@[i]).is_of(
                    inputs[i].open_asset_record,
                )
            &&& forall|i: int|
                0 <= i < outputs.len() ==> (#[trigger] request->AssetMix_1@[i]).is_of(
                    outputs[i].open_asset_record,
                )
        },
    }
}

/// References to the open records of the records.
fn open_records_of(records: &[AssetRecord]) -> (open: Vec<&OpenAssetRecord>)
    ensures
        open@.len() == records@.len(),
        forall|i: int| 0 <= i < records@.len() ==> *(#[trigger] open@[i]) == records@[i].open_asset_record,
{
    let mut open: Vec<&OpenAssetRecord> = Vec::new();
    let mut i: usize = 0;
    while i < records.len()
        invariant
            i <= records@.len(),
            open@.len() == i,
            forall|j: int| 0 <= j < i ==> *(#[trigger] open@[j]) == records@[j].open_asset_record,
        decreases records@.len() - i,
    {
        open.push(&records[i].open_asset_record);
        i += 1;
    }
    open
}

/// What has to be proved of the amounts and asset types of the transfer
/// from `inputs` to `outputs`, by its kind.
///
/// `ParameterError` where there is no input, and
/// `XfrCreationAssetAmountError` where some asset's outputs exceed its inputs.
pub fn gen_xfr_proof_request(inputs: &[AssetRecord], outputs: &[AssetRecord]) -> (r: Result<
    ProofRequest,
    ZeiError,
>)
    ensures
        inputs@.len() == 0 ==> r is Err && r->Err_0 == ZeiError::ParameterError,
        inputs@.len() > 0 && spec_check_asset_amount(inputs@, outputs@) is Err ==> r is Err
            && r->Err_0 == ZeiError::XfrCreationAssetAmountError,
        inputs@.len() > 0 && spec_check_asset_amount(inputs@, outputs@) is Ok ==> r is Ok
            && request_is_for(
            r->Ok_0,
            classify(open_records(inputs@, outputs@)),
            inputs@,
            outputs@,
        ),
{
    if inputs.len() == 0 {
        return Err(ZeiError::ParameterError);
    }
    let xfr_type = XfrType::from_inputs_outputs(inputs, outputs);
    match check_asset_amount(inputs, outputs) {
        Err(e) => {
            return Err(e);
        },
        Ok(_) => {},
    }
    if xfr_type.is_multi_asset() {
        let open_inputs = open_records_of(inputs);
        let open_outputs = open_records_of(outputs);
        gen_xfr_proofs_multi_asset(open_inputs.as_slice(), open_outputs.as_slice(), xfr_type)
    } else {
        gen_xfr_proofs_single_asset(xfr_type)
    }
}


/// The proof answers what a transfer of kind `xfr_type` needs.
pub open spec fn proof_fits(xfr_type: XfrType, proof: AssetTypeAndAmountProofContent) -> bool {
    match xfr_type {
        XfrType::NonConfidential_SingleAsset | XfrType::NonConfidential_MultiAsset => proof is NoProof,
        XfrType::ConfidentialAmount_NonConfidentialAssetType_SingleAsset => proof is ConfAmount,
        XfrType::NonConfidentialAmount_ConfidentialAssetType_SingleAsset => proof is ConfAsset,
        XfrType::Confidential_SingleAsset => proof is ConfAll,
        XfrType::Confidential_MultiAsset => proof is AssetMix,
    }
}

/// Whether the proof answers what a transfer of kind `xfr_type` needs.
pub fn proof_fits_type(xfr_type: XfrType, proof: &AssetTypeAndAmountProof) -> (fits: bool)
    ensures
        fits == proof_fits(xfr_type, proof.deep_view()),
{
    match (xfr_type, proof) {
        (XfrType::NonConfidential_SingleAsset, AssetTypeAndAmountProof::NoProof) => true,
        (XfrType::NonConfidential_MultiAsset, AssetTypeAndAmountProof::NoProof) => true,
        (
            XfrType::ConfidentialAmount_NonConfidentialAssetType_SingleAsset,
            AssetTypeAndAmountProof::ConfAmount(_),
        ) => true,
        (
            XfrType::NonConfidentialAmount_ConfidentialAssetType_SingleAsset,
            AssetTypeAndAmountProof::ConfAsset(_),
        ) => true,
        (XfrType::Confidential_SingleAsset, AssetTypeAndAmountProof::ConfAll(_)) => true,
        (XfrType::Confidential_MultiAsset, AssetTypeAndAmountProof::AssetMix(_)) => true,
        _ => false,
    }
}

/// The wire records of the records.
pub open spec fn blind_records(records: Seq<AssetRecord>) -> Seq<BlindAssetRecord> {
    Seq::new(records.len(), |i: int| records[i].open_asset_record.blind_asset_record)
}

/// The tracer memos of each input, then of each output.
pub open spec fn tracing_memos_of(inputs: Seq<AssetRecord>, outputs: Seq<AssetRecord>) -> Seq<
    Seq<AssetTracerMemoContent>,
> {
    Seq::new(
        inputs.len() + outputs.len(),
        |i: int|
            if i < inputs.len() {
                inputs[i].asset_tracers_memos.deep_view()
            } else {
                outputs[i - inputs.len()].asset_tracers_memos.deep_view()
            },
    )
}

/// The identity proofs of each record.
pub open spec fn identity_proofs_of(records: Seq<AssetRecord>) -> Seq<Seq<Option<Seq<u8>>>> {
    Seq::new(records.len(), |i: int| records[i].identity_proofs.deep_view())
}

/// The owner memo of each record.
pub open spec fn owner_memos_of(records: Seq<AssetRecord>) -> Seq<Option<Seq<u8>>> {
    Seq::new(records.len(), |i: int| records[i].owner_memo.deep_view())
}

/// The body of the transfer from `inputs` to `outputs` with the given proofs.
pub open spec fn xfr_body_content(
    inputs: Seq<AssetRecord>,
    outputs: Seq<AssetRecord>,
    asset_amount_proof: AssetTypeAndAmountProofContent,
    tracing_proofs: Seq<Seq<u8>>,
) -> XfrBodyContent {
    XfrBodyContent {
        inputs: blind_records(inputs),
        outputs: blind_records(outputs),
        proofs: XfrProofsContent {
            asset_type_and_amount_proof: asset_amount_proof,
            asset_tracking_proof: AssetTrackingProofsContent {
                asset_type_and_amount_proofs: tracing_proofs,
                inputs_identity_proofs: identity_proofs_of(inputs),
                outputs_identity_proofs: identity_proofs_of(outputs),
            },
        },
        asset_tracing_memos: tracing_memos_of(inputs, outputs),
        owners_memos: owner_memos_of(outputs),
    }
}

/// Why no body can be made from `inputs`, `outputs` and the proof, if so:
/// there is no input; or some asset's outputs exceed its inputs; or the
/// proof is not of the form that the kind of the transfer needs.
pub open spec fn xfr_body_refusal(
    inputs: Seq<AssetRecord>,
    outputs: Seq<AssetRecord>,
    asset_amount_proof: AssetTypeAndAmountProofContent,
) -> Option<ZeiError> {
    if inputs.len() == 0 {
        Some(ZeiError::ParameterError)
    } else if spec_check_asset_amount(inputs, outputs) is Err {
        Some(ZeiError::XfrCreationAssetAmountError)
    } else if !proof_fits(classify(open_records(inputs, outputs)), asset_amount_proof) {
        Some(ZeiError::XfrCreationAssetAmountError)
    } else {
        None
    }
}

/// The wire records of the records.
fn blind_records_of(records: &[AssetRecord]) -> (bars: Vec<BlindAssetRecord>)
    ensures
        bars@ == blind_records(records@),
{
    let mut bars: Vec<BlindAssetRecord> = Vec::new();
    let mut i: usize = 0;
    while i < records.len()
        invariant
            i <= records@.len(),
            bars@ == blind_records(records@).take(i as int),
        decreases records@.len() - i,
    {
        bars.push(records[i].open_asset_record.blind_asset_record);
        i += 1;
        assert(bars@ =~= blind_records(records@).take(i as int));
    }
    assert(blind_records(records@).take(records@.len() as int) =~= blind_records(records@));
    bars
}

/// Copies of the identity proofs of each record.
fn identity_proofs_from(records: &[AssetRecord]) -> (proofs: Vec<Vec<Option<IdentityProof>>>)
    ensures
        proofs.deep_view() == identity_proofs_of(records@),
{
    let mut proofs: Vec<Vec<Option<IdentityProof>>> = Vec::new();
    let mut i: usize = 0;
    while i < records.len()
        invariant
            i <= records@.len(),
            proofs@.len() == i,
            forall|j: int|
                0 <= j < i ==> (#[trigger] proofs@[j]).deep_view() == records@[j].identity_proofs.deep_view(),
        decreases records@.len() - i,
    {
        proofs.push(copy_optionals(&records[i].identity_proofs));
        i += 1;
    }
    assert(proofs.deep_view() =~= identity_proofs_of(records@));
    proofs
}

/// Copies of the owner memo of each record.
fn owner_memos_from(records: &[AssetRecord]) -> (memos: Vec<Option<OwnerMemo>>)
    ensures
        memos.deep_view() == owner_memos_of(records@),
{
    let mut memos: Vec<Option<OwnerMemo>> = Vec::new();
    let mut i: usize = 0;
    while i < records.len()
        invariant
            i <= records@.len(),
            memos@.len() == i,
            forall|j: int|
                0 <= j < i ==> (#[trigger] memos@[j]).deep_view() == records@[j].owner_memo.deep_view(),
        decreases records@.len() - i,
    {
        memos.push(copy_optional(&records[i].owner_memo));
        i += 1;
    }
    assert(memos.deep_view() =~= owner_memos_of(records@));
    memos
}

/// Appends copies of the tracer memos of each record.
fn push_tracing_memos(
    tracer_memos: &mut Vec<Vec<AssetTracerMemo>>,
    records: &[AssetRecord],
)
    ensures
        final(tracer_memos)@.len() == old(tracer_memos)@.len() + records@.len(),
        forall|j: int|
            0 <= j < old(tracer_memos)@.len() ==> (#[trigger] final(tracer_memos)@[j]) == old(
                tracer_memos,
            )@[j],
        forall|j: int|
            0 <= j < records@.len() ==> (#[trigger] final(tracer_memos)@[old(tracer_memos)@.len()
                + j]).deep_view() == records@[j].asset_tracers_memos.deep_view(),
{
    let ghost before = tracer_memos@;
    let mut i: usize = 0;
    while i < records.len()
        invariant
            i <= records@.len(),
            tracer_memos@.len() == before.len() + i,
            forall|j: int| 0 <= j < before.len() ==> (#[trigger] tracer_memos@[j]) == before[j],
            forall|j: int|
                0 <= j < i ==> (#[trigger] tracer_memos@[before.len() + j]).deep_view()
                    == records@[j].asset_tracers_memos.deep_view(),
        decreases records@.len() - i,
    {
        tracer_memos.push(copy_memos(&records[i].asset_tracers_memos));
        i += 1;
    }
}

/// Makes the body of the transfer from `inputs` to `outputs`: what is to be
/// signed.
///
/// The proofs are made outside, from the records and from what
/// `gen_xfr_proof_request` asks for, and are carried into the body. The body
/// is refused unless there is an input, each asset's inputs amount to at
/// least its outputs, and the proof of amounts and asset types has the form
/// that the kind of the transfer needs.
pub fn gen_xfr_body(
    inputs: &[AssetRecord],
    outputs: &[AssetRecord],
    asset_amount_proof: AssetTypeAndAmountProof,
    tracing_proofs: Vec<TracingProof>,
) -> (r: Result<XfrBody, ZeiError>)
    ensures
        match xfr_body_refusal(inputs@, outputs@, asset_amount_proof.deep_view()) {
            Some(e) => r is Err && r->Err_0 == e,
            None => r is Ok && r->Ok_0.well_formed() && r->Ok_0.deep_view() == xfr_body_content(
                inputs@,
                outputs@,
                asset_amount_proof.deep_view(),
                tracing_proofs.deep_view(),
            ),
        },
{
    if inputs.len() == 0 {
        return Err(ZeiError::ParameterError);
    }
    let xfr_type = XfrType::from_inputs_outputs(inputs, outputs);
    match check_asset_amount(inputs, outputs) {
        Err(e) => {
            return Err(e);
        },
        Ok(_) => {},
    }
    if !proof_fits_type(xfr_type, &asset_amount_proof) {
        return Err(ZeiError::XfrCreationAssetAmountError);
    }
    let asset_tracking_proof = AssetTrackingProofs {
        asset_type_and_amount_proofs: tracing_proofs,
        inputs_identity_proofs: identity_proofs_from(inputs),
        outputs_identity_proofs: identity_proofs_from(outputs),
    };
    let proofs = XfrProofs { asset_type_and_amount_proof: asset_amount_proof, asset_tracking_proof };
    let xfr_inputs = blind_records_of(inputs);
    let xfr_outputs = blind_records_of(outputs);
    let mut tracer_memos: Vec<Vec<AssetTracerMemo>> = Vec::new();
    push_tracing_memos(&mut tracer_memos, inputs);
    let ghost of_inputs = tracer_memos@;
    push_tracing_memos(&mut tracer_memos, outputs);
    let owner_memos = owner_memos_from(outputs);
    proof {
        let expected = tracing_memos_of(inputs@, outputs@);
        assert(tracer_memos.deep_view().len() == expected.len());
        assert forall|j: int| 0 <= j < expected.len() implies tracer_memos.deep_view()[j]
            == expected[j] by {
            if j < inputs@.len() {
                assert(tracer_memos@[j] == of_inputs[j]);
                assert(of_inputs[0 + j].deep_view() == inputs@[j].asset_tracers_memos.deep_view());
            } else {
                let k = j - inputs@.len();
                assert(tracer_memos@[of_inputs.len() + k].deep_view()
                    == outputs@[k].asset_tracers_memos.deep_view());
            }
        }
        assert(tracer_memos.deep_view() =~= expected);
        assert(tracer_memos@.len() == tracer_memos.deep_view().len());
        assert(owner_memos@.len() == owner_memos.deep_view().len());
    }
    Ok(
        XfrBody {
            inputs: xfr_inputs,
            outputs: xfr_outputs,
            proofs,
            asset_tracing_memos: tracer_memos,
            owners_memos: owner_memos,
        },
    )
}


/// What has to be proved before the note of the transfer from `inputs` to
/// `outputs` can be made and signed with `input_key_pairs`.
///
/// `ParameterError` where there is no input or the key pairs are not those
/// of the inputs, one for one; after that, what `gen_xfr_proof_request`
/// returns.
pub fn gen_xfr_note_request(
    inputs: &[AssetRecord],
    outputs: &[AssetRecord],
    input_key_pairs: &[&XfrKeyPair],
) -> (r: Result<ProofRequest, ZeiError>)
    ensures
        inputs@.len() == 0 || spec_check_keys(inputs@, input_key_pairs@) is Err ==> r is Err
            && r->Err_0 == ZeiError::ParameterError,
        inputs@.len() > 0 && spec_check_keys(inputs@, input_key_pairs@) is Ok
            && spec_check_asset_amount(inputs@, outputs@) is Err ==> r is Err && r->Err_0
            == ZeiError::XfrCreationAssetAmountError,
        inputs@.len() > 0 && spec_check_keys(inputs@, input_key_pairs@) is Ok
            && spec_check_asset_amount(inputs@, outputs@) is Ok ==> r is Ok && request_is_for(
            r->Ok_0,
            classify(open_records(inputs@, outputs@)),
            inputs@,
            outputs@,
        ),
{
    if inputs.len() == 0 {
        return Err(ZeiError::ParameterError);
    }
    match check_keys(inputs, input_key_pairs) {
        Err(e) => {
            return Err(e);
        },
        Ok(_) => {},
    }
    gen_xfr_proof_request(inputs, outputs)
}


/// Why no note can be made from `inputs`, `outputs`, the key pairs and the
/// proof, if so: there is no input, or the key pairs are not those of the
/// inputs; or no body can be made.
pub open spec fn xfr_note_refusal(
    inputs: Seq<AssetRecord>,
    outputs: Seq<AssetRecord>,
    input_key_pairs: Seq<&XfrKeyPair>,
    asset_amount_proof: AssetTypeAndAmountProofContent,
) -> Option<ZeiError> {
    if inputs.len() == 0 || spec_check_keys(inputs, input_key_pairs) is Err {
        Some(ZeiError::ParameterError)
    } else {
        xfr_body_refusal(inputs, outputs, asset_amount_proof)
    }
}

/// Makes the note of the transfer from `inputs` to `outputs`: checks the
/// key pairs against the inputs, makes the body with the given proofs, and
/// has it signed by `sign`, whose signatures the note carries.
pub fn gen_xfr_note<F: FnOnce(&XfrBody) -> XfrMultiSig>(
    inputs: &[AssetRecord],
    outputs: &[AssetRecord],
    input_key_pairs: &[&XfrKeyPair],
    asset_amount_proof: AssetTypeAndAmountProof,
    tracing_proofs: Vec<TracingProof>,
    sign: F,
) -> (r: Result<XfrNote, ZeiError>)
    requires
        forall|body: &XfrBody| call_requires(sign, (body,)),
    ensures
        match xfr_note_refusal(
            inputs@,
            outputs@,
            input_key_pairs@,
            asset_amount_proof.deep_view(),
        ) {
            Some(e) => r is Err && r->Err_0 == e,
            None => {
                &&& r is Ok
                &&& r->Ok_0.body.well_formed()
                &&& r->Ok_0.body.deep_view() == xfr_body_content(
                    inputs@,
                    outputs@,
                    asset_amount_proof.deep_view(),
                    tracing_proofs.deep_view(),
                )
                &&& call_ensures(sign, (&r->Ok_0.body,), r->Ok_0.multisig)
            },
        },
{
    if inputs.len() == 0 {
        return Err(ZeiError::ParameterError);
    }
    match check_keys(inputs, input_key_pairs) {
        Err(e) => {
            return Err(e);
        },
        Ok(_) => {},
    }
    let body = match gen_xfr_body(inputs, outputs, asset_amount_proof, tracing_proofs) {
        Ok(body) => body,
        Err(e) => {
            return Err(e);
        },
    };
    let multisig = sign(&body);
    Ok(XfrNote { body, multisig })
}


/// The first failure among the results, in order; `Ok` where there is none.
pub open spec fn first_failure(results: Seq<Result<(), ZeiError>>) -> Result<(), ZeiError>
    decreases results.len(),
{
    if results.len() == 0 {
        Ok(())
    } else if results[0] is Err {
        results[0]
    } else {
        first_failure(results.drop_first())
    }
}

/// Whether what a body reveals of its amounts and asset types is sound, as
/// far as the form of its proof leaves that to be tested in the clear.
pub open spec fn plain_check(body: &XfrBody) -> Result<(), ZeiError> {
    match body.proofs.asset_type_and_amount_proof {
        AssetTypeAndAmountProof::ConfAmount(_) => spec_verify_plain_asset(
            body.inputs@,
            body.outputs@,
        ),
        AssetTypeAndAmountProof::ConfAsset(_) => spec_verify_plain_amounts(
            body.inputs@,
            body.outputs@,
        ),
        AssetTypeAndAmountProof::NoProof => spec_verify_plain_asset_mix(
            body.inputs@,
            body.outputs@,
        ),
        _ => Ok(()),
    }
}

/// The plain checks of the bodies, in order.
pub open spec fn plain_checks(bodies: Seq<&XfrBody>) -> Seq<Result<(), ZeiError>> {
    Seq::new(bodies.len(), |i: int| plain_check(bodies[i]))
}

/// The three kinds of proof that are verified in batches.
#[derive(Clone, Copy, Debug, PartialEq, Eq, Structural)]
pub enum Pool {
    /// Range proofs.
    ConfAmount,
    /// Asset-equality proofs.
    ConfAsset,
    /// Asset-mixing proofs.
    AssetMix,
}

/// The records and a proof, by content.
pub type PoolEntry = (Seq<BlindAssetRecord>, Seq<BlindAssetRecord>, Seq<u8>);

/// The proof of kind `pool` that the body holds, if it holds one.
pub open spec fn proof_in_pool(body: &XfrBody, pool: Pool) -> Option<Seq<u8>> {
    match (body.proofs.asset_type_and_amount_proof, pool) {
        (AssetTypeAndAmountProof::ConfAll((range, _)), Pool::ConfAmount) => Some(range.0@),
        (AssetTypeAndAmountProof::ConfAll((_, asset)), Pool::ConfAsset) => Some(asset.0@),
        (AssetTypeAndAmountProof::ConfAmount(range), Pool::ConfAmount) => Some(range.0@),
        (AssetTypeAndAmountProof::ConfAsset(asset), Pool::ConfAsset) => Some(asset.0@),
        (AssetTypeAndAmountProof::AssetMix(mix), Pool::AssetMix) => Some(mix.0@),
        _ => None,
    }
}

/// The proofs of kind `pool` of the bodies, in the order of the bodies, each
/// with the records of its body.
pub open spec fn pool_of(bodies: Seq<&XfrBody>, pool: Pool) -> Seq<PoolEntry>
    decreases bodies.len(),
{
    if bodies.len() == 0 {
        Seq::empty()
    } else {
        let before = pool_of(bodies.drop_last(), pool);
        match proof_in_pool(bodies.last(), pool) {
            Some(proof) => before.push((bodies.last().inputs@, bodies.last().outputs@, proof)),
            None => before,
        }
    }
}

/// The content of the entries of a pool.
pub open spec fn pool_content(pool: Seq<BarsInstance>) -> Seq<PoolEntry> {
    Seq::new(pool.len(), |i: int| (pool[i].0@, pool[i].1@, pool[i].2.0@))
}

/// The proofs of a batch of bodies, sorted by the verifier that takes them.
pub struct ProofPools<'a> {
    /// The range proofs.
    pub conf_amount: Vec<BarsInstance<'a>>,
    /// The asset-equality proofs.
    pub conf_asset: Vec<BarsInstance<'a>>,
    /// The asset-mixing proofs.
    pub asset_mix: Vec<BarsInstance<'a>>,
}

impl<'a> ProofPools<'a> {
    /// The pools hold the proofs of `bodies`.
    pub open spec fn are_of(&self, bodies: Seq<&XfrBody>) -> bool {
        &&& pool_content(self.conf_amount@) == pool_of(bodies, Pool::ConfAmount)
        &&& pool_content(self.conf_asset@) == pool_of(bodies, Pool::ConfAsset)
        &&& pool_content(self.asset_mix@) == pool_of(bodies, Pool::AssetMix)
    }
}

/// Runs the plain check of a body.
pub fn verify_plain(body: &XfrBody) -> (r: Result<(), ZeiError>)
    ensures
        r == plain_check(body),
{
    match &body.proofs.asset_type_and_amount_proof {
        AssetTypeAndAmountProof::ConfAmount(_) => verify_plain_asset(
            body.inputs.as_slice(),
            body.outputs.as_slice(),
        ),
        AssetTypeAndAmountProof::ConfAsset(_) => verify_plain_amounts(
            body.inputs.as_slice(),
            body.outputs.as_slice(),
        ),
        AssetTypeAndAmountProof::NoProof => verify_plain_asset_mix(
            body.inputs.as_slice(),
            body.outputs.as_slice(),
        ),
        _ => Ok(()),
    }
}

/// A failure among the first results is the first failure of all.
pub proof fn lemma_first_failure_at(results: Seq<Result<(), ZeiError>>, i: int)
    requires
        0 <= i < results.len(),
        results[i] is Err,
        forall|j: int| 0 <= j < i ==> results[j] is Ok,
    ensures
        first_failure(results) == results[i],
    decreases i,
{
    if i > 0 {
        let rest = results.drop_first();
        assert forall|j: int| 0 <= j < i - 1 implies rest[j] is Ok by {
            assert(rest[j] == results[j + 1]);
        }
        lemma_first_failure_at(rest, i - 1);
    }
}

/// Where no result is a failure, there is no first failure.
pub proof fn lemma_first_failure_none(results: Seq<Result<(), ZeiError>>)
    requires
        forall|j: int| 0 <= j < results.len() ==> results[j] is Ok,
    ensures
        first_failure(results) == Ok::<(), ZeiError>(()),
    decreases results.len(),
{
    if results.len() > 0 {
        let rest = results.drop_first();
        assert forall|j: int| 0 <= j < rest.len() implies rest[j] is Ok by {
            assert(rest[j] == results[j + 1]);
        }
        lemma_first_failure_none(rest);
    }
}

/// There is no first failure exactly where no result is a failure.
pub proof fn lemma_first_failure_ok(results: Seq<Result<(), ZeiError>>)
    ensures
        first_failure(results) is Ok <==> forall|j: int|
            0 <= j < results.len() ==> (#[trigger] results[j]) is Ok,
    decreases results.len(),
{
    if results.len() > 0 {
        let rest = results.drop_first();
        lemma_first_failure_ok(rest);
        if first_failure(results) is Ok {
            assert forall|j: int| 0 <= j < results.len() implies (#[trigger] results[j]) is Ok by {
                if j > 0 {
                    assert(rest[j - 1] == results[j]);
                }
            }
        }
        if forall|j: int| 0 <= j < results.len() ==> (#[trigger] results[j]) is Ok {
            lemma_first_failure_none(results);
        }
    }
}

/// Runs the plain checks of the bodies and sorts their proofs into pools.
///
/// Returns the first failure of a plain check, in the order of the bodies;
/// where there is none, the pools.
pub fn xfr_proof_pools<'a>(bodies: &[&'a XfrBody]) -> (r: Result<ProofPools<'a>, ZeiError>)
    ensures
        match first_failure(plain_checks(bodies@)) {
            Err(e) => r is Err && r->Err_0 == e,
            Ok(_) => r is Ok && r->Ok_0.are_of(bodies@),
        },
{
    let mut conf_amount_records: Vec<BarsInstance<'a>> = Vec::new();
    let mut conf_asset_type_records: Vec<BarsInstance<'a>> = Vec::new();
    let mut conf_asset_mix_bodies: Vec<BarsInstance<'a>> = Vec::new();
    let mut i: usize = 0;
    while i < bodies.len()
        invariant
            i <= bodies@.len(),
            forall|j: int| 0 <= j < i ==> (#[trigger] plain_checks(bodies@)[j]) is Ok,
            pool_content(conf_amount_records@) == pool_of(bodies@.take(i as int), Pool::ConfAmount),
            pool_content(conf_asset_type_records@) == pool_of(
                bodies@.take(i as int),
                Pool::ConfAsset,
            ),
            pool_content(conf_asset_mix_bodies@) == pool_of(bodies@.take(i as int), Pool::AssetMix),
        decreases bodies@.len() - i,
    {
        let body: &'a XfrBody = bodies[i];
        proof {
            assert(bodies@.take(i + 1).drop_last() == bodies@.take(i as int));
            assert(bodies@.take(i + 1).last() == body);
        }
        match verify_plain(body) {
            Err(e) => {
                proof {
                    lemma_first_failure_at(plain_checks(bodies@), i as int);
                }
                return Err(e);
            },
            Ok(_) => {},
        }
        let ghost amount_before = conf_amount_records@;
        let ghost asset_before = conf_asset_type_records@;
        let ghost mix_before = conf_asset_mix_bodies@;
        match &body.proofs.asset_type_and_amount_proof {
            AssetTypeAndAmountProof::ConfAll((range_proof, asset_proof)) => {
                conf_amount_records.push(
                    (body.inputs.as_slice(), body.outputs.as_slice(), range_proof),
                );
                conf_asset_type_records.push(
                    (body.inputs.as_slice(), body.outputs.as_slice(), asset_proof),
                );
            },
            AssetTypeAndAmountProof::ConfAmount(range_proof) => {
                conf_amount_records.push(
                    (body.inputs.as_slice(), body.outputs.as_slice(), range_proof),
                );
            },
            AssetTypeAndAmountProof::ConfAsset(asset_proof) => {
                conf_asset_type_records.push(
                    (body.inputs.as_slice(), body.outputs.as_slice(), asset_proof),
                );
            },
            AssetTypeAndAmountProof::NoProof => {},
            AssetTypeAndAmountProof::AssetMix(asset_mix_proof) => {
                conf_asset_mix_bodies.push(
                    (body.inputs.as_slice(), body.outputs.as_slice(), asset_mix_proof),
                );
            },
        }
        i += 1;
        proof {
            assert(pool_content(conf_amount_records@) =~= pool_of(
                bodies@.take(i as int),
                Pool::ConfAmount,
            ));
            assert(pool_content(conf_asset_type_records@) =~= pool_of(
                bodies@.take(i as int),
                Pool::ConfAsset,
            ));
            assert(pool_content(conf_asset_mix_bodies@) =~= pool_of(
                bodies@.take(i as int),
                Pool::AssetMix,
            ));
        }
    }
    proof {
        assert(bodies@.take(bodies@.len() as int) == bodies@);
        lemma_first_failure_none(plain_checks(bodies@));
    }
    Ok(
        ProofPools {
            conf_amount: conf_amount_records,
            conf_asset: conf_asset_type_records,
            asset_mix: conf_asset_mix_bodies,
        },
    )
}


/// What the verifiers of the proofs of a batch of bodies answered: one
/// answer for each pool of `xfr_proof_pools`, and one for the tracing proofs.
#[derive(Clone, Copy, Debug, PartialEq, Eq)]
pub struct ProofVerdicts {
    /// The answer of the batch verifier of range proofs.
    pub conf_amount: Result<(), ZeiError>,
    /// The answer of the batch verifier of asset-equality proofs.
    pub conf_asset: Result<(), ZeiError>,
    /// The answer of the batch verifier of asset-mixing proofs.
    pub asset_mix: Result<(), ZeiError>,
    /// The answer of the batch verifier of tracing proofs.
    pub tracing: Result<(), ZeiError>,
}

/// The commitments of every record of every entry exist.
pub open spec fn pool_commits(entries: Seq<PoolEntry>) -> bool {
    forall|k: int|
        0 <= k < entries.len() ==> record_commitments((#[trigger] entries[k]).0) is Some
            && record_commitments(entries[k].1) is Some
}

/// What `batch_verify_xfr_body_asset_records` returns: the first failure
/// among the plain checks, the range proofs, the asset-equality proofs, the
/// commitments of the bodies with an asset-mixing proof, and those proofs.
pub open spec fn spec_batch_verify_xfr_body_asset_records(
    bodies: Seq<&XfrBody>,
    verdicts: ProofVerdicts,
) -> Result<(), ZeiError> {
    if first_failure(plain_checks(bodies)) is Err {
        first_failure(plain_checks(bodies))
    } else if verdicts.conf_amount is Err {
        verdicts.conf_amount
    } else if verdicts.conf_asset is Err {
        verdicts.conf_asset
    } else if !pool_commits(pool_of(bodies, Pool::AssetMix)) {
        Err(ZeiError::InconsistentStructureError)
    } else {
        verdicts.asset_mix
    }
}

/// What `batch_verify_xfr_bodies` returns: the first failure among the
/// amounts and asset types and the tracing proofs.
pub open spec fn spec_batch_verify_xfr_bodies(
    bodies: Seq<&XfrBody>,
    verdicts: ProofVerdicts,
) -> Result<(), ZeiError> {
    if spec_batch_verify_xfr_body_asset_records(bodies, verdicts) is Err {
        spec_batch_verify_xfr_body_asset_records(bodies, verdicts)
    } else {
        verdicts.tracing
    }
}

/// Verifies the amounts and asset types of a batch of bodies, given what
/// the verifiers of their proofs answered.
///
/// Failures come in this order: a plain check, in the order of the bodies;
/// the range proofs; the asset-equality proofs; a hidden amount of a body
/// with an asset-mixing proof whose commitment encodes no point
/// (`InconsistentStructureError`); the asset-mixing proofs.
pub fn batch_verify_xfr_body_asset_records(bodies: &[&XfrBody], verdicts: &ProofVerdicts) -> (r:
    Result<(), ZeiError>)
    ensures
        r == spec_batch_verify_xfr_body_asset_records(bodies@, *verdicts),
{
    let pools = match xfr_proof_pools(bodies) {
        Ok(pools) => pools,
        Err(e) => {
            return Err(e);
        },
    };
    if verdicts.conf_amount.is_err() {
        return verdicts.conf_amount;
    }
    if verdicts.conf_asset.is_err() {
        return verdicts.conf_asset;
    }
    proof {
        let entries = pool_of(bodies@, Pool::AssetMix);
        assert(pool_content(pools.asset_mix@) == entries);
        assert(instances_commit(pools.asset_mix@) == pool_commits(entries)) by {
            if instances_commit(pools.asset_mix@) {
                assert forall|k: int| 0 <= k < entries.len() implies record_commitments(
                    (#[trigger] entries[k]).0,
                ) is Some && record_commitments(entries[k].1) is Some by {
                    assert(entries[k] == pool_content(pools.asset_mix@)[k]);
                    assert(record_commitments(pools.asset_mix@[k].0@) is Some);
                }
            }
            if pool_commits(entries) {
                assert forall|k: int| 0 <= k < pools.asset_mix@.len() implies record_commitments(
                    (#[trigger] pools.asset_mix@[k]).0@,
                ) is Some && record_commitments(pools.asset_mix@[k].1@) is Some by {
                    assert(entries[k] == pool_content(pools.asset_mix@)[k]);
                    assert(record_commitments(entries[k].0) is Some);
                }
            }
        }
    }
    match batch_verify_asset_mix(pools.asset_mix.as_slice()) {
        Err(e) => {
            return Err(e);
        },
        Ok(_) => {},
    }
    verdicts.asset_mix
}

/// Verifies a batch of bodies, given what the verifiers of their proofs
/// answered: first the amounts and asset types, then the tracing proofs.
pub fn batch_verify_xfr_bodies(bodies: &[&XfrBody], verdicts: &ProofVerdicts) -> (r: Result<
    (),
    ZeiError,
>)
    ensures
        r == spec_batch_verify_xfr_bodies(bodies@, *verdicts),
{
    match batch_verify_xfr_body_asset_records(bodies, verdicts) {
        Err(e) => {
            return Err(e);
        },
        Ok(_) => {},
    }
    verdicts.tracing
}

/// Verifies one body, given what the verifiers of its proofs answered.
pub fn verify_xfr_body(body: &XfrBody, verdicts: &ProofVerdicts) -> (r: Result<(), ZeiError>)
    ensures
        r == spec_batch_verify_xfr_bodies(seq![body], *verdicts),
{
    let bodies: [&XfrBody; 1] = [body];
    assert(bodies@ =~= seq![body]);
    batch_verify_xfr_bodies(bodies.as_slice(), verdicts)
}


/// The public keys that own the inputs of a body, in order: the keys that
/// have to have signed it.
pub open spec fn signer_keys(body: &XfrBody) -> Seq<XfrPublicKey> {
    Seq::new(body.inputs@.len(), |i: int| body.inputs@[i].public_key)
}

/// The public keys against which the signatures of a note are verified:
/// those that own the inputs of its body, in order.
pub fn multisig_public_keys(body: &XfrBody) -> (public_keys: Vec<XfrPublicKey>)
    ensures
        public_keys@ == signer_keys(body),
{
    let mut public_keys: Vec<XfrPublicKey> = Vec::new();
    let mut i: usize = 0;
    while i < body.inputs.len()
        invariant
            i <= body.inputs@.len(),
            public_keys@ == signer_keys(body).take(i as int),
        decreases body.inputs@.len() - i,
    {
        public_keys.push(body.inputs[i].public_key);
        i += 1;
        assert(public_keys@ =~= signer_keys(body).take(i as int));
    }
    assert(signer_keys(body).take(body.inputs@.len() as int) =~= signer_keys(body));
    public_keys
}

/// The first failure among the results, in order.
pub fn first_failed(results: &[Result<(), ZeiError>]) -> (r: Result<(), ZeiError>)
    ensures
        r == first_failure(results@),
{
    let mut i: usize = 0;
    while i < results.len()
        invariant
            i <= results@.len(),
            forall|j: int| 0 <= j < i ==> results@[j] is Ok,
        decreases results@.len() - i,
    {
        if results[i].is_err() {
            proof {
                lemma_first_failure_at(results@, i as int);
            }
            return results[i];
        }
        i += 1;
    }
    proof {
        lemma_first_failure_none(results@);
    }
    Ok(())
}

/// The bodies of the notes.
pub open spec fn bodies_of(notes: Seq<&XfrNote>) -> Seq<&XfrBody> {
    Seq::new(notes.len(), |i: int| &notes[i].body)
}

/// What `batch_verify_xfr_notes` returns: the first failure among the
/// signatures, in the order of the notes, and the bodies.
pub open spec fn spec_batch_verify_xfr_notes(
    notes: Seq<&XfrNote>,
    signatures: Seq<Result<(), ZeiError>>,
    verdicts: ProofVerdicts,
) -> Result<(), ZeiError> {
    if signatures.len() != notes.len() {
        Err(ZeiError::ParameterError)
    } else if first_failure(signatures) is Err {
        first_failure(signatures)
    } else {
        spec_batch_verify_xfr_bodies(bodies_of(notes), verdicts)
    }
}

/// Verifies a batch of notes, given for each note what the verifier of its
/// signatures answered, and what the verifiers of the proofs answered:
/// first the signatures, then the amounts and asset types, then the
/// tracing proofs.
///
/// `ParameterError` where there is not one answer on signatures for each note.
pub fn batch_verify_xfr_notes(
    notes: &[&XfrNote],
    signatures: &[Result<(), ZeiError>],
    verdicts: &ProofVerdicts,
) -> (r: Result<(), ZeiError>)
    ensures
        r == spec_batch_verify_xfr_notes(notes@, signatures@, *verdicts),
{
    if signatures.len() != notes.len() {
        return Err(ZeiError::ParameterError);
    }
    match first_failed(signatures) {
        Err(e) => {
            return Err(e);
        },
        Ok(_) => {},
    }
    let mut bodies: Vec<&XfrBody> = Vec::new();
    let mut i: usize = 0;
    while i < notes.len()
        invariant
            i <= notes@.len(),
            bodies@ == bodies_of(notes@).take(i as int),
        decreases notes@.len() - i,
    {
        bodies.push(&notes[i].body);
        i += 1;
        assert(bodies@ =~= bodies_of(notes@).take(i as int));
    }
    assert(bodies_of(notes@).take(notes@.len() as int) =~= bodies_of(notes@));
    batch_verify_xfr_bodies(bodies.as_slice(), verdicts)
}

/// Verifies one note, given what the verifier of its signatures and the
/// verifiers of its proofs answered.
pub fn verify_xfr_note(
    xfr_note: &XfrNote,
    signature: Result<(), ZeiError>,
    verdicts: &ProofVerdicts,
) -> (r: Result<(), ZeiError>)
    ensures
        r == spec_batch_verify_xfr_notes(seq![xfr_note], seq![signature], *verdicts),
{
    let notes: [&XfrNote; 1] = [xfr_note];
    let signatures: [Result<(), ZeiError>; 1] = [signature];
    assert(notes@ =~= seq![xfr_note]);
    assert(signatures@ =~= seq![signature]);
    batch_verify_xfr_notes(notes.as_slice(), signatures.as_slice(), verdicts)
}

} // verus!
