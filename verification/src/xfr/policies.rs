//! The tracing policies against which the records of a transfer are verified.

use crate::xfr::structs::{AssetTracerEncKeys, Opaque, XfrBody};
use vstd::prelude::*;

verus! {

/// A commitment to a credential, in its wire encoding.
pub type ACCommitment = Opaque;

/// Which identity attributes a record's owner has to disclose, and under
/// which credential issuer.
#[derive(Clone, Debug, PartialEq, Eq)]
pub struct IdentityRevealPolicy {
    pub cred_issuer_pub_key: Opaque,
    pub reveal_map: Vec<bool>,
}

/// What a record has to disclose to one tracer.
#[derive(Clone, Debug, PartialEq, Eq)]
pub struct AssetTracingPolicy {
    pub enc_keys: AssetTracerEncKeys,
    pub asset_tracking: bool,
    pub identity_tracking: Option<IdentityRevealPolicy>,
}

/// What a record has to disclose, tracer by tracer.
#[derive(Clone, Debug, PartialEq, Eq)]
pub struct AssetTracingPolicies(pub Vec<AssetTracingPolicy>);

/// The policies of the inputs and outputs of a note and the credential
/// commitments of their owners, each list in the order of the records.
#[derive(Clone, Debug, PartialEq, Eq)]
pub struct XfrNotePolicies<'b> {
    pub inputs_tracking_policies: Vec<&'b AssetTracingPolicies>,
    pub inputs_sig_commitments: Vec<Option<&'b ACCommitment>>,
    pub outputs_tracking_policies: Vec<&'b AssetTracingPolicies>,
    pub outputs_sig_commitments: Vec<Option<&'b ACCommitment>>,
}

/// The policies of the inputs and outputs of a note and the credential
/// commitments of their owners, owned.
#[derive(Clone, Debug, PartialEq, Eq)]
pub struct XfrNotePoliciesNoRef {
    pub inputs_tracking_policies: Vec<AssetTracingPolicies>,
    pub inputs_sig_commitments: Vec<Option<ACCommitment>>,
    pub outputs_tracking_policies: Vec<AssetTracingPolicies>,
    pub outputs_sig_commitments: Vec<Option<ACCommitment>>,
}

/// A reference to the commitment, where there is one.
pub fn if_some_closure(x: &Option<ACCommitment>) -> (r: Option<&ACCommitment>)
    ensures
        r is Some <==> *x is Some,
        r is Some ==> *r->0 == x->0,
{
    match x {
        Some(commitment) => Some(commitment),
        None => None,
    }
}

/// The references point, one for one, to the policies.
pub open spec fn policies_refer(
    refs: Seq<&AssetTracingPolicies>,
    policies: Seq<AssetTracingPolicies>,
) -> bool {
    &&& refs.len() == policies.len()
    &&& forall|i: int| 0 <= i < refs.len() ==> *(#[trigger] refs[i]) == policies[i]
}

/// The references point, one for one, to the commitments that there are.
pub open spec fn commitments_refer(
    refs: Seq<Option<&ACCommitment>>,
    commitments: Seq<Option<ACCommitment>>,
) -> bool {
    &&& refs.len() == commitments.len()
    &&& forall|i: int|
        0 <= i < refs.len() ==> ((#[trigger] refs[i]) is Some <==> commitments[i] is Some)
    &&& forall|i: int|
        0 <= i < refs.len() && (#[trigger] refs[i]) is Some ==> *refs[i]->0 == commitments[i]->0
}

/// References to the policies.
fn policy_refs<'a>(policies: &'a Vec<AssetTracingPolicies>) -> (refs: Vec<&'a AssetTracingPolicies>)
    ensures
        policies_refer(refs@, policies@),
{
    let mut refs: Vec<&'a AssetTracingPolicies> = Vec::new();
    let mut i: usize = 0;
    while i < policies.len()
        invariant
            i <= policies@.len(),
            refs@.len() == i,
            forall|j: int| 0 <= j < i ==> *(#[trigger] refs@[j]) == policies@[j],
        decreases policies@.len() - i,
    {
        refs.push(&policies[i]);
        i += 1;
    }
    refs
}

/// References to the commitments that there are.
fn commitment_refs<'a>(commitments: &'a Vec<Option<ACCommitment>>) -> (refs: Vec<
    Option<&'a ACCommitment>,
>)
    ensures
        commitments_refer(refs@, commitments@),
{
    let mut refs: Vec<Option<&'a ACCommitment>> = Vec::new();
    let mut i: usize = 0;
    while i < commitments.len()
        invariant
            i <= commitments@.len(),
            refs@.len() == i,
            forall|j: int|
                0 <= j < i ==> ((#[trigger] refs@[j]) is Some <==> commitments@[j] is Some),
            forall|j: int|
                0 <= j < i && (#[trigger] refs@[j]) is Some ==> *refs@[j]->0 == commitments@[j]->0,
        decreases commitments@.len() - i,
    {
        refs.push(if_some_closure(&commitments[i]));
        i += 1;
    }
    refs
}

impl<'b> XfrNotePolicies<'b> {
    /// The policies made of the four lists.
    pub fn new(
        inputs_tracking_policies: Vec<&'b AssetTracingPolicies>,
        inputs_sig_commitments: Vec<Option<&'b ACCommitment>>,
        outputs_tracking_policies: Vec<&'b AssetTracingPolicies>,
        outputs_sig_commitments: Vec<Option<&'b ACCommitment>>,
    ) -> (policies: XfrNotePolicies<'b>)
        ensures
            policies.inputs_tracking_policies == inputs_tracking_policies,
            policies.inputs_sig_commitments == inputs_sig_commitments,
            policies.outputs_tracking_policies == outputs_tracking_policies,
            policies.outputs_sig_commitments == outputs_sig_commitments,
    {
        XfrNotePolicies {
            inputs_tracking_policies,
            inputs_sig_commitments,
            outputs_tracking_policies,
            outputs_sig_commitments,
        }
    }

    /// The same policies and commitments, by reference.
    pub fn from_policies_no_ref(p: &'b XfrNotePoliciesNoRef) -> (policies: XfrNotePolicies<'b>)
        ensures
            policies_refer(policies.inputs_tracking_policies@, p.inputs_tracking_policies@),
            commitments_refer(policies.inputs_sig_commitments@, p.inputs_sig_commitments@),
            policies_refer(policies.outputs_tracking_policies@, p.outputs_tracking_policies@),
            commitments_refer(policies.outputs_sig_commitments@, p.outputs_sig_commitments@),
    {
        XfrNotePolicies::new(
            policy_refs(&p.inputs_tracking_policies),
            commitment_refs(&p.inputs_sig_commitments),
            policy_refs(&p.outputs_tracking_policies),
            commitment_refs(&p.outputs_sig_commitments),
        )
    }

    /// There is one policy and one optional commitment for each input and
    /// for each output of the body.
    pub open spec fn fits(&self, body: &XfrBody) -> bool {
        &&& self.inputs_tracking_policies@.len() == body.inputs@.len()
        &&& self.inputs_sig_commitments@.len() == body.inputs@.len()
        &&& self.outputs_tracking_policies@.len() == body.outputs@.len()
        &&& self.outputs_sig_commitments@.len() == body.outputs@.len()
    }

    /// Whether there is one policy and one optional commitment for each
    /// input and for each output of the body.
    pub fn fits_body(&self, body: &XfrBody) -> (fits: bool)
        ensures
            fits == self.fits(body),
    {
        self.inputs_tracking_policies.len() == body.inputs.len()
            && self.inputs_sig_commitments.len() == body.inputs.len()
            && self.outputs_tracking_policies.len() == body.outputs.len()
            && self.outputs_sig_commitments.len() == body.outputs.len()
    }
}

impl<'b> Default for XfrNotePolicies<'b> {
    /// No policies.
    fn default() -> (policies: Self)
        ensures
            policies.inputs_tracking_policies@.len() == 0,
            policies.inputs_sig_commitments@.len() == 0,
            policies.outputs_tracking_policies@.len() == 0,
            policies.outputs_sig_commitments@.len() == 0,
    {
        XfrNotePolicies {
            inputs_tracking_policies: Vec::new(),
            inputs_sig_commitments: Vec::new(),
            outputs_tracking_policies: Vec::new(),
            outputs_sig_commitments: Vec::new(),
        }
    }
}

impl XfrNotePoliciesNoRef {
    /// The policies made of the four lists.
    pub fn new(
        inputs_tracking_policies: Vec<AssetTracingPolicies>,
        inputs_sig_commitments: Vec<Option<ACCommitment>>,
        outputs_tracking_policies: Vec<AssetTracingPolicies>,
        outputs_sig_commitments: Vec<Option<ACCommitment>>,
    ) -> (policies: XfrNotePoliciesNoRef)
        ensures
            policies.inputs_tracking_policies == inputs_tracking_policies,
            policies.inputs_sig_commitments == inputs_sig_commitments,
            policies.outputs_tracking_policies == outputs_tracking_policies,
            policies.outputs_sig_commitments == outputs_sig_commitments,
    {
        XfrNotePoliciesNoRef {
            inputs_tracking_policies,
            inputs_sig_commitments,
            outputs_tracking_policies,
            outputs_sig_commitments,
        }
    }
}

impl Default for XfrNotePoliciesNoRef {
    /// No policies.
    fn default() -> (policies: Self)
        ensures
            policies.inputs_tracking_policies@.len() == 0,
            policies.inputs_sig_commitments@.len() == 0,
            policies.outputs_tracking_policies@.len() == 0,
            policies.outputs_sig_commitments@.len() == 0,
    {
        XfrNotePoliciesNoRef {
            inputs_tracking_policies: Vec::new(),
            inputs_sig_commitments: Vec::new(),
            outputs_tracking_policies: Vec::new(),
            outputs_sig_commitments: Vec::new(),
        }
    }
}

} // verus!
