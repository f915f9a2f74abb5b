//! A whole pass, run against a model of the cluster, and what holds of it.
//!
//! The model keeps the two objects that a pass writes: the resource, whose
//! status the pass patches, and the Secret that the pass applies. A request
//! that the cluster accepts takes effect as a whole; one that it refuses
//! leaves no trace.

use crate::error::ErrorView;
use crate::integration::{IntegrationView, Rejection, ValidationError};
use crate::provision::{
    path_for, provisioned_integration, PGIntegrationView, ProvisionPath, INTEGRATION_URL,
};
use crate::reconciler::{
    next_step, EventView, OutcomeView, StepView, SyncReportView, REQUEUE_RETRY_SECS,
    REQUEUE_STEADY_SECS,
};
use crate::secret::{desired_secret, SecretPatchView, SecretView};
use crate::status::{status_patch, StatusPatchView};
use vstd::prelude::*;

verus! {

/// The objects in the cluster that belong to one resource.
pub struct Cluster {
    /// The resource itself.
    pub integration: IntegrationView,
    /// The Secret of the resource's name and namespace, as far as this
    /// operator manages it, if it exists.
    pub secret: Option<SecretView>,
}

/// How the cluster treats the two requests of a pass: for each of them the
/// failure that it answers with, if it does not accept the request.
pub struct Faults {
    pub secret: Option<ErrorView>,
    pub status: Option<ErrorView>,
}

impl Faults {
    /// The cluster accepts both requests.
    pub open spec fn none() -> Faults {
        Faults { secret: None, status: None }
    }
}

impl Cluster {
    /// The answer to the request for the Secret: the Secret as applied, or
    /// the failure.
    pub open spec fn answer_secret(
        self,
        request: SecretPatchView,
        fault: Option<ErrorView>,
    ) -> Result<SecretView, ErrorView> {
        match fault {
            Some(error) => Err(error),
            None => Ok(request.secret),
        }
    }

    /// The answer to the request for the status: the resource as patched, or
    /// the failure.
    pub open spec fn answer_status(
        self,
        request: StatusPatchView,
        fault: Option<ErrorView>,
    ) -> Result<IntegrationView, ErrorView> {
        match fault {
            Some(error) => Err(error),
            None => Ok(request.merged_into(self.integration)),
        }
    }

    /// The cluster once both requests are answered: each accepted request
    /// has replaced its object, each refused one has changed nothing.
    pub open spec fn answered(
        self,
        secret: Result<SecretView, ErrorView>,
        status: Result<IntegrationView, ErrorView>,
    ) -> Cluster {
        Cluster {
            integration: match status {
                Ok(patched) => patched,
                Err(_) => self.integration,
            },
            secret: match secret {
                Ok(applied) => Some(applied),
                Err(_) => self.secret,
            },
        }
    }
}

/// One pass over the cluster's resource, driven as [`next_step`] asks: the
/// cluster afterwards, and the last step, which ends the pass.
///
/// `provisioned` is the provisioner's answer. If the step that follows it
/// asks for the two requests, both are sent, and the cluster answers each as
/// `faults` says. If it does not, nothing is sent.
pub open spec fn pass(
    cluster: Cluster,
    provisioned: Result<PGIntegrationView, ErrorView>,
    faults: Faults,
) -> (Cluster, StepView)
    recommends
        cluster.integration.admitted(),
{
    match next_step(cluster.integration, EventView::Provisioned(provisioned)) {
        StepView::Synchronize(secret_request, status_request) => {
            let secret = cluster.answer_secret(secret_request, faults.secret);
            let status = cluster.answer_status(status_request, faults.status);
            (
                cluster.answered(secret, status),
                next_step(cluster.integration, EventView::Synchronized(secret, status)),
            )
        },
        last => (cluster, last),
    }
}

/// The cluster after a pass in which the provisioner of this crate answered
/// and the cluster accepted both requests.
pub open spec fn settled(cluster: Cluster) -> Cluster
    recommends
        cluster.integration.admitted(),
{
    pass(cluster, Ok(provisioned_integration(cluster.integration)), Faults::none()).0
}

/// A pass is idempotent. A pass that succeeds in full leaves the cluster in a
/// state that the next such pass does not change: it applies the same Secret
/// and writes the same status.
pub proof fn pass_is_idempotent(cluster: Cluster)
    requires
        cluster.integration.admitted(),
    ensures
        settled(settled(cluster)) == settled(cluster),
{
}

/// No integration is created twice. After a pass that succeeded in full, the
/// resource is still one that the cluster hands over, and it records the
/// integration, so that the next pass takes the fetch path.
pub proof fn second_pass_fetches(cluster: Cluster)
    requires
        cluster.integration.admitted(),
    ensures
        settled(cluster).integration.admitted(),
        settled(cluster).integration.provisioned(),
        path_for(settled(cluster).integration) == ProvisionPath::Fetch,
        settled(cluster).integration.status->0.integration == Some(INTEGRATION_URL@),
{
}

/// A pass reads the resource's spec and writes its status, and nothing else
/// of the resource: whatever the provisioner and the cluster answer, the
/// metadata and the spec are afterwards what they were.
pub proof fn pass_writes_status_only(
    cluster: Cluster,
    provisioned: Result<PGIntegrationView, ErrorView>,
    faults: Faults,
)
    requires
        cluster.integration.admitted(),
    ensures
        pass(cluster, provisioned, faults).0.integration.metadata == cluster.integration.metadata,
        pass(cluster, provisioned, faults).0.integration.spec == cluster.integration.spec,
        pass(cluster, provisioned, faults).0.integration.admitted(),
{
}

/// The two requests of a pass do not depend on each other. Once provisioning
/// has succeeded, what becomes of the resource's status depends on the
/// cluster's answer to the status request alone, and what becomes of the
/// Secret on its answer to the Secret request alone: a failure of one
/// neither prevents nor undoes the other. The outcome records each answer by
/// itself.
pub proof fn requests_are_independent(
    cluster: Cluster,
    provisioned: PGIntegrationView,
    faults: Faults,
)
    requires
        cluster.integration.admitted(),
    ensures
        next_step(cluster.integration, EventView::Provisioned(Ok(provisioned)))
            is Synchronize,
        faults.status is None ==> pass(cluster, Ok(provisioned), faults).0.integration
            == status_patch(provisioned, cluster.integration).merged_into(cluster.integration),
        faults.status is Some ==> pass(cluster, Ok(provisioned), faults).0.integration
            == cluster.integration,
        faults.secret is None ==> pass(cluster, Ok(provisioned), faults).0.secret == Some(
            desired_secret(cluster.integration, provisioned.key),
        ),
        faults.secret is Some ==> pass(cluster, Ok(provisioned), faults).0.secret
            == cluster.secret,
        pass(cluster, Ok(provisioned), faults).1 matches StepView::Requeue(
            _,
            OutcomeView::Synchronized { secret, status },
        ) && {
            &&& secret is Failed <==> faults.secret is Some
            &&& status is Failed <==> faults.status is Some
            &&& faults.secret matches Some(error) ==> secret == SyncReportView::Failed(error)
            &&& faults.status matches Some(error) ==> status == SyncReportView::Failed(error)
        },
{
}

/// The schedule of a pass. It always ends by asking for another pass: after
/// exactly the steady interval if provisioning and both requests succeeded,
/// after exactly the retry interval if anything failed. If provisioning
/// failed, no request is sent, and the cluster is as it was.
pub proof fn pass_schedule(
    cluster: Cluster,
    provisioned: Result<PGIntegrationView, ErrorView>,
    faults: Faults,
)
    requires
        cluster.integration.admitted(),
    ensures
        pass(cluster, provisioned, faults).1 matches StepView::Requeue(action, outcome) && {
            &&& action == outcome.action()
            &&& action.requeue_after == if provisioned is Ok && faults == Faults::none() {
                Some(REQUEUE_STEADY_SECS)
            } else {
                Some(REQUEUE_RETRY_SECS)
            }
        },
        provisioned is Err ==> {
            &&& next_step(cluster.integration, EventView::Provisioned(provisioned)) is Requeue
            &&& pass(cluster, provisioned, faults).0 == cluster
        },
{
}

/// The validation boundary. A resource whose `service` has fewer than three
/// characters is rejected, and so is never among the resources that
/// [`crate::reconciler::reconcile`] accepts.
pub proof fn short_service_is_rejected(integration: IntegrationView)
    requires
        integration.spec.service.len() < 3,
    ensures
        integration.admission() == Err::<(), Rejection>(
            Rejection::InvalidSpec(ValidationError::ServiceTooShort),
        ),
        !integration.admitted(),
{
}

} // verus!
