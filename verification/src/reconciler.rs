//! The reconciler: one pass over a resource, as a sequence of steps.
//!
//! A pass provisions the external integration, then sends two requests to the
//! cluster, one for the Secret and one for the status, and waits for both
//! answers. The reconciler decides; it does not talk to anyone. The caller
//! hands it an [`Event`], performs the [`Step`] that [`reconcile`] answers
//! with, and comes back with the next event, until the step is
//! [`Step::Requeue`].

use crate::error::{Error, ErrorView};
use crate::integration::{Integration, IntegrationView, Rejection};
use crate::meta::{clone_opt, ObjectMeta, ObjectMetaView};
use crate::provision::{path_for, provision_path, PGIntegration, PGIntegrationView, ProvisionPath};
use crate::secret::{
    create_secret, desired_secret, patch_secret, secret_patch, Secret, SecretPatch, SecretPatchView,
    SecretView,
};
use crate::status::{patch_status, status_patch, StatusPatch, StatusPatchView};
use vstd::prelude::*;

verus! {

/// Seconds until the next pass after a pass in which everything succeeded.
pub const REQUEUE_STEADY_SECS: u64 = 3600;

/// Seconds until the next pass after a pass in which something failed.
pub const REQUEUE_RETRY_SECS: u64 = 30;

/// Seconds until the next pass after a failure outside any pass.
pub const REQUEUE_ERROR_SECS: u64 = 5;

/// What the controller loop is to do with a resource after a pass.
#[derive(Clone, Copy, Debug, PartialEq, Eq, Structural)]
pub struct Action {
    /// Seconds after which the resource is reconciled again, even if nothing
    /// about it changes.
    pub requeue_after: Option<u64>,
}

impl Action {
    /// Reconcile again after `secs` seconds.
    pub open spec fn requeue_spec(secs: u64) -> Action {
        Action { requeue_after: Some(secs) }
    }

    /// Reconcile again after `secs` seconds.
    #[verifier::when_used_as_spec(requeue_spec)]
    pub fn requeue(secs: u64) -> (action: Action)
        ensures
            action == Action::requeue_spec(secs),
    {
        Action { requeue_after: Some(secs) }
    }
}

/// What became of one of the two requests of a pass.
#[derive(Clone, Debug, PartialEq, Eq)]
pub enum SyncReport {
    /// The cluster answered with the object of this namespace and name.
    Updated { namespace: Option<String>, name: String },
    /// The request failed.
    Failed(Error),
}

/// The mathematical value of a [`SyncReport`].
pub enum SyncReportView {
    Updated { namespace: Option<Seq<char>>, name: Seq<char> },
    Failed(ErrorView),
}

impl DeepView for SyncReport {
    type V = SyncReportView;

    open spec fn deep_view(&self) -> SyncReportView {
        match self {
            SyncReport::Updated { namespace, name } => SyncReportView::Updated {
                namespace: namespace.deep_view(),
                name: name@,
            },
            SyncReport::Failed(error) => SyncReportView::Failed(error@),
        }
    }
}

impl View for SyncReport {
    type V = SyncReportView;

    open spec fn view(&self) -> SyncReportView {
        self.deep_view()
    }
}

/// What a pass came to. Each part of the pass is recorded by itself.
#[derive(Clone, Debug, PartialEq, Eq)]
pub enum Outcome {
    /// Provisioning failed, and nothing was sent to the cluster.
    NotProvisioned(Error),
    /// Provisioning succeeded, and both requests were answered.
    Synchronized { secret: SyncReport, status: SyncReport },
}

/// The mathematical value of an [`Outcome`].
pub enum OutcomeView {
    NotProvisioned(ErrorView),
    Synchronized { secret: SyncReportView, status: SyncReportView },
}

impl OutcomeView {
    /// Whether everything in the pass succeeded.
    pub open spec fn succeeded(self) -> bool {
        self matches OutcomeView::Synchronized { secret, status } && secret is Updated
            && status is Updated
    }

    /// The action that follows: the steady interval after full success, the
    /// retry interval after any failure.
    pub open spec fn action(self) -> Action {
        if self.succeeded() {
            Action::requeue_spec(REQUEUE_STEADY_SECS)
        } else {
            Action::requeue_spec(REQUEUE_RETRY_SECS)
        }
    }
}

impl DeepView for Outcome {
    type V = OutcomeView;

    open spec fn deep_view(&self) -> OutcomeView {
        match self {
            Outcome::NotProvisioned(error) => OutcomeView::NotProvisioned(error@),
            Outcome::Synchronized { secret, status } => OutcomeView::Synchronized {
                secret: secret@,
                status: status@,
            },
        }
    }
}

impl View for Outcome {
    type V = OutcomeView;

    open spec fn view(&self) -> OutcomeView {
        self.deep_view()
    }
}

/// What happened since the last step.
#[derive(Debug, PartialEq, Eq)]
pub enum Event {
    /// The controller loop handed the resource over: a pass begins.
    Triggered,
    /// The provisioner answered.
    Provisioned(Result<PGIntegration, Error>),
    /// The cluster answered both requests: first the one for the Secret,
    /// then the one for the status.
    Synchronized(Result<Secret, Error>, Result<Integration, Error>),
}

/// The mathematical value of an [`Event`].
pub enum EventView {
    Triggered,
    Provisioned(Result<PGIntegrationView, ErrorView>),
    Synchronized(Result<SecretView, ErrorView>, Result<IntegrationView, ErrorView>),
}

/// The value of a result: the value of what it holds.
pub open spec fn result_view<T: DeepView, E: DeepView>(result: Result<T, E>) -> Result<T::V, E::V> {
    match result {
        Ok(value) => Ok(value.deep_view()),
        Err(error) => Err(error.deep_view()),
    }
}

impl DeepView for Event {
    type V = EventView;

    open spec fn deep_view(&self) -> EventView {
        match self {
            Event::Triggered => EventView::Triggered,
            Event::Provisioned(answer) => EventView::Provisioned(result_view(*answer)),
            Event::Synchronized(secret, status) => EventView::Synchronized(
                result_view(*secret),
                result_view(*status),
            ),
        }
    }
}

impl View for Event {
    type V = EventView;

    open spec fn view(&self) -> EventView {
        self.deep_view()
    }
}

/// What the caller is to do next.
#[derive(Clone, Debug, PartialEq, Eq)]
pub enum Step {
    /// Provision the integration along this path, and come back with
    /// [`Event::Provisioned`].
    Provision(ProvisionPath),
    /// Send both requests at once, wait for both answers whatever the other
    /// one is, and come back with [`Event::Synchronized`].
    Synchronize(SecretPatch, StatusPatch),
    /// The pass is over: hand the action to the controller loop.
    Requeue(Action, Outcome),
}

/// The mathematical value of a [`Step`].
pub enum StepView {
    Provision(ProvisionPath),
    Synchronize(SecretPatchView, StatusPatchView),
    Requeue(Action, OutcomeView),
}

impl DeepView for Step {
    type V = StepView;

    open spec fn deep_view(&self) -> StepView {
        match self {
            Step::Provision(path) => StepView::Provision(*path),
            Step::Synchronize(secret, status) => StepView::Synchronize(secret@, status@),
            Step::Requeue(action, outcome) => StepView::Requeue(*action, outcome@),
        }
    }
}

impl View for Step {
    type V = StepView;

    open spec fn view(&self) -> StepView {
        self.deep_view()
    }
}

/// What became of a request, read off the cluster's answer: the namespace and
/// name of the object that came back, or the failure.
pub open spec fn sync_of(answer: Result<ObjectMetaView, ErrorView>) -> SyncReportView {
    match answer {
        Ok(meta) => SyncReportView::Updated { namespace: meta.namespace, name: meta.name_any() },
        Err(error) => SyncReportView::Failed(error),
    }
}

/// The metadata of the Secret that came back, or the failure.
pub open spec fn secret_answer(answer: Result<SecretView, ErrorView>) -> Result<
    ObjectMetaView,
    ErrorView,
> {
    match answer {
        Ok(secret) => Ok(secret.metadata),
        Err(error) => Err(error),
    }
}

/// The metadata of the resource that came back, or the failure.
pub open spec fn status_answer(answer: Result<IntegrationView, ErrorView>) -> Result<
    ObjectMetaView,
    ErrorView,
> {
    match answer {
        Ok(integration) => Ok(integration.metadata),
        Err(error) => Err(error),
    }
}

/// What a pass came to, given the two answers of the cluster.
pub open spec fn outcome_of(
    secret: Result<SecretView, ErrorView>,
    status: Result<IntegrationView, ErrorView>,
) -> OutcomeView {
    OutcomeView::Synchronized {
        secret: sync_of(secret_answer(secret)),
        status: sync_of(status_answer(status)),
    }
}

/// The two requests of a pass over `integration` whose provisioning answered
/// with `provisioned`.
pub open spec fn requests_for(
    integration: IntegrationView,
    provisioned: PGIntegrationView,
) -> (SecretPatchView, StatusPatchView)
    recommends
        integration.identified(),
{
    (
        secret_patch(desired_secret(integration, provisioned.key)),
        status_patch(provisioned, integration),
    )
}

/// The step that follows an event in a pass over `integration`.
pub open spec fn next_step(integration: IntegrationView, event: EventView) -> StepView
    recommends
        integration.admitted(),
{
    match event {
        EventView::Triggered => StepView::Provision(path_for(integration)),
        EventView::Provisioned(Err(error)) => StepView::Requeue(
            Action::requeue_spec(REQUEUE_RETRY_SECS),
            OutcomeView::NotProvisioned(error),
        ),
        EventView::Provisioned(Ok(provisioned)) => StepView::Synchronize(
            requests_for(integration, provisioned).0,
            requests_for(integration, provisioned).1,
        ),
        EventView::Synchronized(secret, status) => StepView::Requeue(
            outcome_of(secret, status).action(),
            outcome_of(secret, status),
        ),
    }
}

/// The steps of a pass follow each other in one order, and the pass never
/// gives up. The trigger is followed by provisioning. The provisioner's
/// answer is followed by the two requests if it is a success, and ends the
/// pass if it is a failure. The cluster's answers end the pass. Whenever the
/// pass ends, it asks for another pass after some delay.
pub proof fn steps_follow_in_order(integration: IntegrationView, event: EventView)
    requires
        integration.admitted(),
    ensures
        event is Triggered ==> next_step(integration, event) is Provision,
        event matches EventView::Provisioned(Ok(_)) ==> next_step(integration, event)
            is Synchronize,
        event matches EventView::Provisioned(Err(_)) ==> next_step(integration, event)
            is Requeue,
        event is Synchronized ==> next_step(integration, event) is Requeue,
        next_step(integration, event) matches StepView::Requeue(action, _)
            ==> action.requeue_after is Some,
{
}

/// Reads off the metadata of an answered request what became of it.
fn sync_from(meta: &ObjectMeta) -> (sync: SyncReport)
    ensures
        sync@ == sync_of(Ok(meta@)),
{
    SyncReport::Updated { namespace: clone_opt(&meta.namespace), name: meta.name_any() }
}

/// Builds the two requests of a pass from the provisioner's answer, see
/// [`requests_for`].
pub fn synchronize(obj: &Integration, provisioned: PGIntegration) -> (requests: (
    SecretPatch,
    StatusPatch,
))
    requires
        obj@.identified(),
    ensures
        requests.0@ == requests_for(obj@, provisioned@).0,
        requests.1@ == requests_for(obj@, provisioned@).1,
        requests.1@.addresses(obj@),
{
    let key: String = provisioned.key.clone();
    let secret: Secret = create_secret(obj, key).unwrap();
    let secret_request: SecretPatch = patch_secret(secret).unwrap();
    let status_request: StatusPatch = patch_status(provisioned, obj).unwrap();
    (secret_request, status_request)
}

/// Combines the two answers of the cluster into the outcome of the pass and
/// the action that follows from it.
///
/// Each answer is recorded as it came, whatever the other one is. The action
/// is the steady interval if both requests succeeded, and the retry interval
/// if either failed.
pub fn conclude(secret: Result<Secret, Error>, status: Result<Integration, Error>) -> (decision: (
    Action,
    Outcome,
))
    ensures
        decision.1@ == outcome_of(result_view(secret), result_view(status)),
        decision.0 == decision.1@.action(),
        decision.0.requeue_after == if secret is Ok && status is Ok {
            Some(REQUEUE_STEADY_SECS)
        } else {
            Some(REQUEUE_RETRY_SECS)
        },
{
    let secret_sync: SyncReport = match secret {
        Ok(applied) => sync_from(&applied.metadata),
        Err(error) => SyncReport::Failed(error),
    };
    let status_sync: SyncReport = match status {
        Ok(patched) => sync_from(&patched.metadata),
        Err(error) => SyncReport::Failed(error),
    };
    let all_ok: bool = match (&secret_sync, &status_sync) {
        (SyncReport::Updated { .. }, SyncReport::Updated { .. }) => true,
        _ => false,
    };
    let action: Action = if all_ok {
        Action::requeue(REQUEUE_STEADY_SECS)
    } else {
        Action::requeue(REQUEUE_RETRY_SECS)
    };
    (action, Outcome::Synchronized { secret: secret_sync, status: status_sync })
}

/// Decides the step that follows `event` in a pass over `obj`, see
/// [`next_step`].
///
/// The resource is one that the cluster handed over: it passed validation and
/// carries its identity. No event makes the pass fail: every pass ends in a
/// [`Step::Requeue`].
pub fn reconcile(obj: &Integration, event: Event) -> (step: Step)
    requires
        obj@.admitted(),
    ensures
        step@ == next_step(obj@, event@),
{
    match event {
        Event::Triggered => Step::Provision(provision_path(obj)),
        Event::Provisioned(Err(error)) => Step::Requeue(
            Action::requeue(REQUEUE_RETRY_SECS),
            Outcome::NotProvisioned(error),
        ),
        Event::Provisioned(Ok(provisioned)) => {
            let (secret_request, status_request) = synchronize(obj, provisioned);
            Step::Synchronize(secret_request, status_request)
        },
        Event::Synchronized(secret, status) => {
            let (action, outcome) = conclude(secret, status);
            Step::Requeue(action, outcome)
        },
    }
}

/// Decides the step that follows `event` in a pass over `obj`, if `obj` is a
/// resource that the cluster hands over, and says what is wrong with it if it
/// is not.
///
/// This is [`reconcile`] for callers who cannot show beforehand that the
/// resource is admitted.
pub fn try_reconcile(obj: &Integration, event: Event) -> (outcome: Result<Step, Rejection>)
    ensures
        match outcome {
            Ok(step) => obj@.admitted() && step@ == next_step(obj@, event@),
            Err(rejection) => obj@.admission() == Err::<(), Rejection>(rejection),
        },
{
    match obj.check_admission() {
        Ok(()) => Ok(reconcile(obj, event)),
        Err(rejection) => Err(rejection),
    }
}

/// The action after a failure that no pass accounted for: a short, fixed
/// delay.
pub fn error_policy(_obj: &Integration, _err: &Error) -> (action: Action)
    ensures
        action == Action::requeue_spec(REQUEUE_ERROR_SECS),
{
    Action::requeue(REQUEUE_ERROR_SECS)
}

} // verus!
