//! The redeploy actuator's plan.
//!
//! A triggered redeploy is a fixed three-step sequence: wait a settling
//! delay so the rest of a notification burst can arrive, refresh the
//! deployment's artifacts, then restart the deployment. The steps run in
//! that order, are not retried, and a failed refresh does not prevent the
//! restart. The caller executes each step in turn against the target path
//! the dispatcher resolved.

use vstd::prelude::*;

verus! {

/// Seconds to wait before the first actuator step.
pub const SETTLE_SECONDS: u64 = 5;

/// One step of the redeploy sequence.
#[derive(Clone, Copy, PartialEq, Eq, Structural, Debug)]
pub enum Step {
    /// Wait `SETTLE_SECONDS` to absorb the rest of the burst.
    Settle,
    /// Pull the latest artifacts named by the deployment descriptor.
    RefreshArtifacts,
    /// Restart the services the descriptor describes.
    Restart,
}

/// The redeploy sequence: settle, then refresh, then restart — every
/// step exactly once, with the settling delay before the refresh and the
/// refresh before the restart.
pub fn actuator_plan() -> (steps: Vec<Step>)
    ensures
        steps@ =~= seq![Step::Settle, Step::RefreshArtifacts, Step::Restart],
{
    let mut steps: Vec<Step> = Vec::new();
    steps.push(Step::Settle);
    steps.push(Step::RefreshArtifacts);
    steps.push(Step::Restart);
    steps
}

} // verus!
