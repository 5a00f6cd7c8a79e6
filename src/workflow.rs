//! The deployment workflow as a state machine: the caller performs each action on the
//! network and hands back what came of it.

use vstd::prelude::*;
use crate::address::all_wf;
use crate::address::derived;
use crate::address::felt_values;
use crate::address::udc_address;
use crate::address::Uniqueness;
use crate::fee::buffered;
use crate::fee::ether_text;
use crate::fee::fee_in_ether;
use crate::fee::resolve_fee;
use crate::fee::FeeOutcome;
use crate::fee::FeeSetting;
use crate::felt::Felt;

verus! {

/// Everything a deployment needs once its salt and address are fixed.
#[derive(Debug, Clone, PartialEq, Eq)]
pub struct DeployPlan {
    pub class_hash: Felt,
    pub salt: Felt,
    pub mode: Uniqueness,
    pub ctor_args: Vec<Felt>,
    /// The address the deployment lands at.
    pub address: Felt,
    pub fee: FeeSetting,
    /// Wait for the transaction to be confirmed before reporting the address.
    pub watch: bool,
}

impl DeployPlan {
    /// All elements reduced, and the address is the one derived from the other inputs.
    pub open spec fn wf(&self) -> bool {
        &&& self.class_hash.wf()
        &&& self.salt.wf()
        &&& self.mode.wf()
        &&& all_wf(self.ctor_args@)
        &&& self.address.wf()
        &&& self.fee.wf()
        &&& self.address.value() == derived(self.salt, self.class_hash, self.mode, self.ctor_args@)
    }
}

/// The address a plan reports, after submission or confirmation, is the address the
/// network derives from the very salt, class hash, mode and arguments that it submits.
pub proof fn lemma_plan_address_is_derived(plan: DeployPlan)
    requires
        plan.wf(),
    ensures
        plan.address.value() == udc_address(
            plan.salt.value(),
            plan.class_hash.value(),
            plan.mode@,
            felt_values(plan.ctor_args@),
        ),
{
}

/// Where the workflow stands.
#[derive(Debug, Clone, Copy, PartialEq, Eq, Structural)]
pub enum Stage {
    Start,
    /// Waiting for the network's fee estimate.
    Estimating,
    /// Waiting for the transaction to be sent.
    Submitting,
    /// Waiting for the transaction to be confirmed.
    Confirming,
    /// The address has been reported.
    Finished,
    /// The estimate has been reported and nothing was submitted.
    Stopped,
}

/// What the caller reports back.
#[derive(Debug, Clone, Copy, PartialEq, Eq)]
pub enum Event {
    Begin,
    /// The network estimated the deployment's fee.
    FeeEstimated(u64),
    /// The network accepted the transaction under this hash.
    Sent(Felt),
    /// The transaction reached an accepted state.
    Confirmed,
}

/// What the caller is to do next.
#[derive(Debug, Clone, PartialEq, Eq)]
pub enum Action {
    /// Ask the network to estimate the fee of the plan's deployment.
    EstimateFee,
    /// Report this estimate, rendered as a decimal amount, and stop.
    ReportFee { estimate: u64, text: String },
    /// Send the plan's deployment with this maximal fee.
    Submit { max_fee: Felt },
    /// Wait for this transaction to be confirmed.
    Watch { tx: Felt },
    /// Report the deployed address; the workflow is over.
    Emit { address: Felt },
}

/// An event that the workflow does not expect at its stage.
#[derive(Debug, Clone, Copy, PartialEq, Eq, Structural)]
pub enum WorkflowError {
    UnexpectedEvent,
}

/// The events that the workflow accepts at each stage.
pub open spec fn expected(stage: Stage, event: Event) -> bool {
    match (stage, event) {
        (Stage::Start, Event::Begin) => true,
        (Stage::Estimating, Event::FeeEstimated(_)) => true,
        (Stage::Submitting, Event::Sent(_)) => true,
        (Stage::Confirming, Event::Confirmed) => true,
        _ => false,
    }
}

/// Decides the next stage and action from the current stage and the event.
pub fn step(plan: &DeployPlan, stage: Stage, event: Event) -> (r: Result<(Stage, Action), WorkflowError>)
    requires
        plan.wf(),
    ensures
        r is Err <==> !expected(stage, event),
        r matches Ok((_, Action::Submit { .. })) ==> !(plan.fee is EstimateOnly),
        (stage, event) matches (Stage::Start, Event::Begin) ==> (match plan.fee {
            FeeSetting::Manual(f) => r matches Ok((Stage::Submitting, Action::Submit { max_fee }))
                && max_fee == f,
            _ => r matches Ok((Stage::Estimating, Action::EstimateFee)),
        }),
        (stage, event) matches (Stage::Estimating, Event::FeeEstimated(e)) ==> (match plan.fee {
            FeeSetting::Manual(f) => r matches Ok((Stage::Submitting, Action::Submit { max_fee }))
                && max_fee == f,
            FeeSetting::EstimateOnly => r matches Ok((Stage::Stopped, Action::ReportFee { estimate, text }))
                && estimate == e && text@ == ether_text(e as nat),
            FeeSetting::Automatic => r matches Ok((Stage::Submitting, Action::Submit { max_fee }))
                && max_fee.value() == buffered(e as nat) && max_fee.wf(),
        }),
        (stage, event) matches (Stage::Submitting, Event::Sent(tx)) ==> (if plan.watch {
            r matches Ok((Stage::Confirming, Action::Watch { tx: t })) && t == tx
        } else {
            r matches Ok((Stage::Finished, Action::Emit { address })) && address == plan.address
        }),
        (stage, event) matches (Stage::Confirming, Event::Confirmed) ==> (r matches Ok(
            (Stage::Finished, Action::Emit { address }),
        ) && address == plan.address),
{
    match (stage, event) {
        (Stage::Start, Event::Begin) => match plan.fee {
            FeeSetting::Manual(f) => Ok((Stage::Submitting, Action::Submit { max_fee: f })),
            _ => Ok((Stage::Estimating, Action::EstimateFee)),
        },
        (Stage::Estimating, Event::FeeEstimated(e)) => match resolve_fee(&plan.fee, e) {
            FeeOutcome::Resolved(f) => Ok((Stage::Submitting, Action::Submit { max_fee: f })),
            FeeOutcome::ReportAndStop(estimate) => Ok(
                (Stage::Stopped, Action::ReportFee { estimate, text: fee_in_ether(estimate) }),
            ),
        },
        (Stage::Submitting, Event::Sent(tx)) => if plan.watch {
            Ok((Stage::Confirming, Action::Watch { tx }))
        } else {
            Ok((Stage::Finished, Action::Emit { address: plan.address }))
        },
        (Stage::Confirming, Event::Confirmed) => Ok(
            (Stage::Finished, Action::Emit { address: plan.address }),
        ),
        _ => Err(WorkflowError::UnexpectedEvent),
    }
}

} // verus!
