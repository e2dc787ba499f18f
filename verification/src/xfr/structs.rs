//! The records, memos and proofs that make a transfer.

use crate::bytes::{array_eq, copy_bytes};
use crate::ristretto::{CompressedRistretto, Scalar};
use crate::xfr::sig::{XfrMultiSig, XfrPublicKey};
use vstd::prelude::*;

verus! {

/// The identifier of an asset: 16 opaque bytes.
pub type AssetType = [u8; 16];

/// The amount of a record: revealed, or hidden in two commitments, one to
/// its low and one to its high 32 bits.
#[derive(Clone, Copy, Debug, PartialEq, Eq)]
pub enum XfrAmount {
    Confidential((CompressedRistretto, CompressedRistretto)),
    NonConfidential(u64),
}

/// The asset type of a record: revealed, or hidden in a commitment.
#[derive(Clone, Copy, Debug, PartialEq, Eq)]
pub enum XfrAssetType {
    Confidential(CompressedRistretto),
    NonConfidential(AssetType),
}

impl XfrAmount {
    /// Whether the amount is hidden.
    pub fn is_confidential(&self) -> (hidden: bool)
        ensures
            hidden == (*self is Confidential),
    {
        match self {
            XfrAmount::Confidential(_) => true,
            XfrAmount::NonConfidential(_) => false,
        }
    }

    /// The amount, where it is revealed.
    pub fn get_amount(&self) -> (amount: Option<u64>)
        ensures
            amount == self.revealed(),
    {
        match self {
            XfrAmount::NonConfidential(x) => Some(*x),
            XfrAmount::Confidential(_) => None,
        }
    }

    /// The amount, where it is revealed.
    pub open spec fn revealed(&self) -> Option<u64> {
        match *self {
            XfrAmount::NonConfidential(x) => Some(x),
            XfrAmount::Confidential(_) => None,
        }
    }
}

impl XfrAssetType {
    /// Whether the asset type is hidden.
    pub fn is_confidential(&self) -> (hidden: bool)
        ensures
            hidden == (*self is Confidential),
    {
        match self {
            XfrAssetType::Confidential(_) => true,
            XfrAssetType::NonConfidential(_) => false,
        }
    }

    /// The asset type, where it is revealed.
    pub fn get_asset_type(&self) -> (asset_type: Option<AssetType>)
        ensures
            asset_type == self.revealed(),
    {
        match self {
            XfrAssetType::NonConfidential(t) => Some(*t),
            XfrAssetType::Confidential(_) => None,
        }
    }

    /// The asset type, where it is revealed.
    pub open spec fn revealed(&self) -> Option<AssetType> {
        match *self {
            XfrAssetType::NonConfidential(t) => Some(t),
            XfrAssetType::Confidential(_) => None,
        }
    }
}

/// Whether two asset types are the same.
pub fn same_asset_type(a: &AssetType, b: &AssetType) -> (same: bool)
    ensures
        same == (*a == *b),
{
    array_eq(a, b)
}

/// A record as it goes on the wire.
#[derive(Clone, Copy, Debug, PartialEq, Eq)]
pub struct BlindAssetRecord {
    pub amount: XfrAmount,
    pub asset_type: XfrAssetType,
    pub public_key: XfrPublicKey,
}

/// A record as its sender sees it: the wire record with the amount and the
/// asset type in the clear and the blinding factors of its commitments.
#[derive(Clone, Copy, Debug, PartialEq, Eq)]
pub struct OpenAssetRecord {
    pub blind_asset_record: BlindAssetRecord,
    pub amount: u64,
    pub amount_blinds: (Scalar, Scalar),
    pub asset_type: AssetType,
    pub type_blind: Scalar,
}


/// An El-Gamal ciphertext of an amount limb or of an asset type.
#[derive(Clone, Copy, Debug, PartialEq, Eq)]
pub struct RecordDataCiphertext {
    pub e1: CompressedRistretto,
    pub e2: CompressedRistretto,
}

/// An El-Gamal ciphertext of one identity attribute.
#[derive(Clone, Copy, Debug, PartialEq, Eq)]
pub struct AttributeCiphertext {
    pub e1: [u8; 48],
    pub e2: [u8; 48],
}

/// The encryption keys of a tracer.
#[derive(Clone, Copy, Debug, PartialEq, Eq)]
pub struct AssetTracerEncKeys {
    pub record_data_enc_key: CompressedRistretto,
    pub attrs_enc_key: [u8; 48],
}

/// The decryption keys of a tracer.
#[derive(Clone, Copy, Debug, PartialEq, Eq)]
pub struct AssetTracerDecKeys {
    pub record_data_dec_key: Scalar,
    pub attrs_dec_key: [u8; 32],
}

/// The keys of a tracer.
#[derive(Clone, Copy, Debug, PartialEq, Eq)]
pub struct AssetTracerKeyPair {
    pub enc_key: AssetTracerEncKeys,
    pub dec_key: AssetTracerDecKeys,
}

impl AssetTracerEncKeys {
    /// Whether two sets of encryption keys are the same.
    pub fn same_keys(&self, other: &AssetTracerEncKeys) -> (same: bool)
        ensures
            same == (*self == *other),
    {
        array_eq(&self.record_data_enc_key.0, &other.record_data_enc_key.0) && array_eq(
            &self.attrs_enc_key,
            &other.attrs_enc_key,
        )
    }
}

/// What a record discloses to one tracer: under the tracer's keys, the
/// ciphertexts of those of amount, asset type and identity attributes that
/// the tracing policy asks for.
#[derive(Debug, PartialEq, Eq)]
pub struct AssetTracerMemo {
    pub enc_key: AssetTracerEncKeys,
    pub lock_amount: Option<(RecordDataCiphertext, RecordDataCiphertext)>,
    pub lock_asset_type: Option<RecordDataCiphertext>,
    pub lock_attributes: Option<Vec<AttributeCiphertext>>,
}

/// The mathematical content of an `AssetTracerMemo`.
pub struct AssetTracerMemoContent {
    pub enc_key: AssetTracerEncKeys,
    pub lock_amount: Option<(RecordDataCiphertext, RecordDataCiphertext)>,
    pub lock_asset_type: Option<RecordDataCiphertext>,
    pub lock_attributes: Option<Seq<AttributeCiphertext>>,
}

impl DeepView for AssetTracerMemo {
    type V = AssetTracerMemoContent;

    open spec fn deep_view(&self) -> AssetTracerMemoContent {
        AssetTracerMemoContent {
            enc_key: self.enc_key,
            lock_amount: self.lock_amount,
            lock_asset_type: self.lock_asset_type,
            lock_attributes: match self.lock_attributes {
                Some(v) => Some(v@),
                None => None,
            },
        }
    }
}

impl Clone for AssetTracerMemo {
    fn clone(&self) -> (copy: Self)
        ensures
            copy.deep_view() == self.deep_view(),
    {
        let lock_attributes = match &self.lock_attributes {
            None => None,
            Some(v) => {
                let mut attributes: Vec<AttributeCiphertext> = Vec::new();
                let mut i: usize = 0;
                while i < v.len()
                    invariant
                        i <= v.len(),
                        attributes@ == v@.take(i as int),
                    decreases v.len() - i,
                {
                    attributes.push(v[i]);
                    i += 1;
                    assert(attributes@ =~= v@.take(i as int));
                }
                assert(v@.take(v.len() as int) =~= v@);
                Some(attributes)
            },
        };
        AssetTracerMemo {
            enc_key: self.enc_key,
            lock_amount: self.lock_amount,
            lock_asset_type: self.lock_asset_type,
            lock_attributes,
        }
    }
}

/// A payload that this library carries and does not read: a proof or a
/// memo in its wire encoding.
#[derive(Debug, PartialEq, Eq)]
pub struct Opaque(pub Vec<u8>);

impl DeepView for Opaque {
    type V = Seq<u8>;

    open spec fn deep_view(&self) -> Seq<u8> {
        self.0@
    }
}

impl Clone for Opaque {
    fn clone(&self) -> (copy: Self)
        ensures
            copy.deep_view() == self.deep_view(),
    {
        Opaque(copy_bytes(&self.0))
    }
}

/// The encrypted payload for the owner of an output.
pub type OwnerMemo = Opaque;

/// A proof that a record's owner holds a credential with the attributes
/// that a tracer memo encrypts.
pub type IdentityProof = Opaque;

/// A proof that committed amounts lie in range and balance.
pub type XfrRangeProof = Opaque;

/// A proof that all committed asset types of a transfer are equal.
pub type AssetEqualityProof = Opaque;

/// A proof that a transfer of several asset types balances in each.
pub type AssetMixProof = Opaque;

/// A proof that a tracer memo's ciphertexts hold what the record commits to.
pub type TracingProof = Opaque;


/// A record with what its sender attaches to it: the memos for its tracers,
/// the identity proofs that go with them, and the memo for its owner.
#[derive(Debug, PartialEq, Eq)]
pub struct AssetRecord {
    pub open_asset_record: OpenAssetRecord,
    pub asset_tracers_memos: Vec<AssetTracerMemo>,
    pub identity_proofs: Vec<Option<IdentityProof>>,
    pub owner_memo: Option<OwnerMemo>,
}

/// The mathematical content of an `AssetRecord`.
pub struct AssetRecordContent {
    pub open_asset_record: OpenAssetRecord,
    pub asset_tracers_memos: Seq<AssetTracerMemoContent>,
    pub identity_proofs: Seq<Option<Seq<u8>>>,
    pub owner_memo: Option<Seq<u8>>,
}

impl DeepView for AssetRecord {
    type V = AssetRecordContent;

    open spec fn deep_view(&self) -> AssetRecordContent {
        AssetRecordContent {
            open_asset_record: self.open_asset_record,
            asset_tracers_memos: self.asset_tracers_memos.deep_view(),
            identity_proofs: self.identity_proofs.deep_view(),
            owner_memo: self.owner_memo.deep_view(),
        }
    }
}

/// A copy of a list of tracer memos.
pub fn copy_memos(memos: &Vec<AssetTracerMemo>) -> (copy: Vec<AssetTracerMemo>)
    ensures
        copy.deep_view() == memos.deep_view(),
{
    let mut copy: Vec<AssetTracerMemo> = Vec::new();
    let mut i: usize = 0;
    while i < memos.len()
        invariant
            i <= memos.len(),
            copy.len() == i,
            forall|j: int| 0 <= j < i ==> copy[j].deep_view() == memos[j].deep_view(),
        decreases memos.len() - i,
    {
        copy.push(memos[i].clone());
        i += 1;
    }
    assert(copy.deep_view() =~= memos.deep_view());
    copy
}

/// A copy of an optional payload.
pub fn copy_optional(payload: &Option<Opaque>) -> (copy: Option<Opaque>)
    ensures
        copy.deep_view() == payload.deep_view(),
{
    match payload {
        None => None,
        Some(p) => Some(p.clone()),
    }
}

/// A copy of a list of optional payloads.
pub fn copy_optionals(payloads: &Vec<Option<Opaque>>) -> (copy: Vec<Option<Opaque>>)
    ensures
        copy.deep_view() == payloads.deep_view(),
{
    let mut copy: Vec<Option<Opaque>> = Vec::new();
    let mut i: usize = 0;
    while i < payloads.len()
        invariant
            i <= payloads.len(),
            copy.len() == i,
            forall|j: int| 0 <= j < i ==> copy[j].deep_view() == payloads[j].deep_view(),
        decreases payloads.len() - i,
    {
        copy.push(copy_optional(&payloads[i]));
        i += 1;
    }
    assert(copy.deep_view() =~= payloads.deep_view());
    copy
}

impl Clone for AssetRecord {
    fn clone(&self) -> (copy: Self)
        ensures
            copy.deep_view() == self.deep_view(),
    {
        AssetRecord {
            open_asset_record: self.open_asset_record,
            asset_tracers_memos: copy_memos(&self.asset_tracers_memos),
            identity_proofs: copy_optionals(&self.identity_proofs),
            owner_memo: copy_optional(&self.owner_memo),
        }
    }
}


/// The proof that the amounts and asset types of a transfer are sound. Which
/// one a transfer needs depends on what its records hide.
#[derive(Debug, PartialEq, Eq)]
pub enum AssetTypeAndAmountProof {
    /// Several asset types, something hidden.
    AssetMix(AssetMixProof),
    /// One asset type, revealed; some amount hidden.
    ConfAmount(XfrRangeProof),
    /// All amounts revealed; some asset type hidden.
    ConfAsset(AssetEqualityProof),
    /// Amounts and asset types hidden.
    ConfAll((XfrRangeProof, AssetEqualityProof)),
    /// Nothing hidden.
    NoProof,
}

/// The mathematical content of an `AssetTypeAndAmountProof`.
pub enum AssetTypeAndAmountProofContent {
    AssetMix(Seq<u8>),
    ConfAmount(Seq<u8>),
    ConfAsset(Seq<u8>),
    ConfAll(Seq<u8>, Seq<u8>),
    NoProof,
}

impl DeepView for AssetTypeAndAmountProof {
    type V = AssetTypeAndAmountProofContent;

    open spec fn deep_view(&self) -> AssetTypeAndAmountProofContent {
        match *self {
            AssetTypeAndAmountProof::AssetMix(p) => AssetTypeAndAmountProofContent::AssetMix(p.0@),
            AssetTypeAndAmountProof::ConfAmount(p) => AssetTypeAndAmountProofContent::ConfAmount(
                p.0@,
            ),
            AssetTypeAndAmountProof::ConfAsset(p) => AssetTypeAndAmountProofContent::ConfAsset(
                p.0@,
            ),
            AssetTypeAndAmountProof::ConfAll((r, a)) => AssetTypeAndAmountProofContent::ConfAll(
                r.0@,
                a.0@,
            ),
            AssetTypeAndAmountProof::NoProof => AssetTypeAndAmountProofContent::NoProof,
        }
    }
}

impl Clone for AssetTypeAndAmountProof {
    fn clone(&self) -> (copy: Self)
        ensures
            copy.deep_view() == self.deep_view(),
    {
        match self {
            AssetTypeAndAmountProof::AssetMix(p) => AssetTypeAndAmountProof::AssetMix(p.clone()),
            AssetTypeAndAmountProof::ConfAmount(p) => AssetTypeAndAmountProof::ConfAmount(
                p.clone(),
            ),
            AssetTypeAndAmountProof::ConfAsset(p) => AssetTypeAndAmountProof::ConfAsset(p.clone()),
            AssetTypeAndAmountProof::ConfAll((r, a)) => AssetTypeAndAmountProof::ConfAll(
                (r.clone(), a.clone()),
            ),
            AssetTypeAndAmountProof::NoProof => AssetTypeAndAmountProof::NoProof,
        }
    }
}

/// The tracing proofs of a transfer, and the identity proofs of its inputs
/// and of its outputs, record by record.
#[derive(Debug, PartialEq, Eq)]
pub struct AssetTrackingProofs {
    pub asset_type_and_amount_proofs: Vec<TracingProof>,
    pub inputs_identity_proofs: Vec<Vec<Option<IdentityProof>>>,
    pub outputs_identity_proofs: Vec<Vec<Option<IdentityProof>>>,
}

/// The mathematical content of `AssetTrackingProofs`.
pub struct AssetTrackingProofsContent {
    pub asset_type_and_amount_proofs: Seq<Seq<u8>>,
    pub inputs_identity_proofs: Seq<Seq<Option<Seq<u8>>>>,
    pub outputs_identity_proofs: Seq<Seq<Option<Seq<u8>>>>,
}

impl DeepView for AssetTrackingProofs {
    type V = AssetTrackingProofsContent;

    open spec fn deep_view(&self) -> AssetTrackingProofsContent {
        AssetTrackingProofsContent {
            asset_type_and_amount_proofs: self.asset_type_and_amount_proofs.deep_view(),
            inputs_identity_proofs: self.inputs_identity_proofs.deep_view(),
            outputs_identity_proofs: self.outputs_identity_proofs.deep_view(),
        }
    }
}

/// The proofs of a transfer.
#[derive(Debug, PartialEq, Eq)]
pub struct XfrProofs {
    pub asset_type_and_amount_proof: AssetTypeAndAmountProof,
    pub asset_tracking_proof: AssetTrackingProofs,
}

/// The mathematical content of `XfrProofs`.
pub struct XfrProofsContent {
    pub asset_type_and_amount_proof: AssetTypeAndAmountProofContent,
    pub asset_tracking_proof: AssetTrackingProofsContent,
}

impl DeepView for XfrProofs {
    type V = XfrProofsContent;

    open spec fn deep_view(&self) -> XfrProofsContent {
        XfrProofsContent {
            asset_type_and_amount_proof: self.asset_type_and_amount_proof.deep_view(),
            asset_tracking_proof: self.asset_tracking_proof.deep_view(),
        }
    }
}

/// A transfer without its signatures: what is signed.
#[derive(Debug, PartialEq, Eq)]
pub struct XfrBody {
    pub inputs: Vec<BlindAssetRecord>,
    pub outputs: Vec<BlindAssetRecord>,
    pub proofs: XfrProofs,
    /// The tracer memos of each input, then of each output, in order.
    pub asset_tracing_memos: Vec<Vec<AssetTracerMemo>>,
    /// The owner memo of each output.
    pub owners_memos: Vec<Option<OwnerMemo>>,
}

/// The mathematical content of an `XfrBody`.
pub struct XfrBodyContent {
    pub inputs: Seq<BlindAssetRecord>,
    pub outputs: Seq<BlindAssetRecord>,
    pub proofs: XfrProofsContent,
    pub asset_tracing_memos: Seq<Seq<AssetTracerMemoContent>>,
    pub owners_memos: Seq<Option<Seq<u8>>>,
}

impl DeepView for XfrBody {
    type V = XfrBodyContent;

    open spec fn deep_view(&self) -> XfrBodyContent {
        XfrBodyContent {
            inputs: self.inputs@,
            outputs: self.outputs@,
            proofs: self.proofs.deep_view(),
            asset_tracing_memos: self.asset_tracing_memos.deep_view(),
            owners_memos: self.owners_memos.deep_view(),
        }
    }
}

impl XfrBody {
    /// The invariants on the lengths of a body: one list of tracer memos for
    /// each input and output, and one owner memo for each output.
    pub open spec fn well_formed(&self) -> bool {
        &&& self.asset_tracing_memos@.len() == self.inputs@.len() + self.outputs@.len()
        &&& self.owners_memos@.len() == self.outputs@.len()
    }
}

/// A transfer: a body and the signatures of the owners of its inputs.
#[derive(Debug, PartialEq, Eq)]
pub struct XfrNote {
    pub body: XfrBody,
    pub multisig: XfrMultiSig,
}


/// A copy of a list of wire records.
pub fn copy_records(records: &Vec<BlindAssetRecord>) -> (copy: Vec<BlindAssetRecord>)
    ensures
        copy@ == records@,
{
    let mut copy: Vec<BlindAssetRecord> = Vec::new();
    let mut i: usize = 0;
    while i < records.len()
        invariant
            i <= records.len(),
            copy@ == records@.take(i as int),
        decreases records.len() - i,
    {
        copy.push(records[i]);
        i += 1;
        assert(copy@ =~= records@.take(i as int));
    }
    assert(records@.take(records.len() as int) =~= records@);
    copy
}

/// A copy of a list of payloads.
pub fn copy_payloads(payloads: &Vec<Opaque>) -> (copy: Vec<Opaque>)
    ensures
        copy.deep_view() == payloads.deep_view(),
{
    let mut copy: Vec<Opaque> = Vec::new();
    let mut i: usize = 0;
    while i < payloads.len()
        invariant
            i <= payloads.len(),
            copy.len() == i,
            forall|j: int| 0 <= j < i ==> copy[j].deep_view() == payloads[j].deep_view(),
        decreases payloads.len() - i,
    {
        copy.push(payloads[i].clone());
        i += 1;
    }
    assert(copy.deep_view() =~= payloads.deep_view());
    copy
}

/// A copy of the lists of optional payloads of a list of records.
pub fn copy_optionals_of_each(lists: &Vec<Vec<Option<Opaque>>>) -> (copy: Vec<Vec<Option<Opaque>>>)
    ensures
        copy.deep_view() == lists.deep_view(),
{
    let mut copy: Vec<Vec<Option<Opaque>>> = Vec::new();
    let mut i: usize = 0;
    while i < lists.len()
        invariant
            i <= lists.len(),
            copy.len() == i,
            forall|j: int| 0 <= j < i ==> copy[j].deep_view() == lists[j].deep_view(),
        decreases lists.len() - i,
    {
        copy.push(copy_optionals(&lists[i]));
        i += 1;
    }
    assert(copy.deep_view() =~= lists.deep_view());
    copy
}

/// A copy of the lists of tracer memos of a list of records.
pub fn copy_memos_of_each(lists: &Vec<Vec<AssetTracerMemo>>) -> (copy: Vec<Vec<AssetTracerMemo>>)
    ensures
        copy.deep_view() == lists.deep_view(),
{
    let mut copy: Vec<Vec<AssetTracerMemo>> = Vec::new();
    let mut i: usize = 0;
    while i < lists.len()
        invariant
            i <= lists.len(),
            copy.len() == i,
            forall|j: int| 0 <= j < i ==> copy[j].deep_view() == lists[j].deep_view(),
        decreases lists.len() - i,
    {
        copy.push(copy_memos(&lists[i]));
        i += 1;
    }
    assert(copy.deep_view() =~= lists.deep_view());
    copy
}

impl Clone for AssetTrackingProofs {
    fn clone(&self) -> (copy: Self)
        ensures
            copy.deep_view() == self.deep_view(),
    {
        AssetTrackingProofs {
            asset_type_and_amount_proofs: copy_payloads(&self.asset_type_and_amount_proofs),
            inputs_identity_proofs: copy_optionals_of_each(&self.inputs_identity_proofs),
            outputs_identity_proofs: copy_optionals_of_each(&self.outputs_identity_proofs),
        }
    }
}

impl Clone for XfrProofs {
    fn clone(&self) -> (copy: Self)
        ensures
            copy.deep_view() == self.deep_view(),
    {
        XfrProofs {
            asset_type_and_amount_proof: self.asset_type_and_amount_proof.clone(),
            asset_tracking_proof: self.asset_tracking_proof.clone(),
        }
    }
}

impl Clone for XfrBody {
    fn clone(&self) -> (copy: Self)
        ensures
            copy.deep_view() == self.deep_view(),
    {
        XfrBody {
            inputs: copy_records(&self.inputs),
            outputs: copy_records(&self.outputs),
            proofs: self.proofs.clone(),
            asset_tracing_memos: copy_memos_of_each(&self.asset_tracing_memos),
            owners_memos: copy_optionals(&self.owners_memos),
        }
    }
}

/// The mathematical content of an `XfrNote`.
pub struct XfrNoteContent {
    pub body: XfrBodyContent,
    pub multisig: Seq<crate::xfr::sig::XfrSignature>,
}

impl DeepView for XfrNote {
    type V = XfrNoteContent;

    open spec fn deep_view(&self) -> XfrNoteContent {
        XfrNoteContent { body: self.body.deep_view(), multisig: self.multisig.deep_view() }
    }
}

impl Clone for XfrNote {
    fn clone(&self) -> (copy: Self)
        ensures
            copy.deep_view() == self.deep_view(),
    {
        XfrNote { body: self.body.clone(), multisig: self.multisig.clone() }
    }
}

} // verus!
