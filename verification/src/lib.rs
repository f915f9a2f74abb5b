//! Reconciliation of `Integration` resources against a paging service.
//!
//! The crate holds the decisions of the operator: how the external
//! integration of a resource is provisioned, which Secret and which status
//! follow from it, and when the next pass is due. Talking to the cluster is
//! left to the caller, who performs each step that [`reconcile`] asks for and
//! hands the result back.
//!
//! Every type has a view, its mathematical value, in which each string is the
//! sequence of its characters. The contracts are stated over these views.

pub mod error;
pub mod integration;
mod kube_api;
pub mod meta;
pub mod pass;
pub mod provision;
pub mod reconciler;
pub mod secret;
pub mod status;

pub use error::{Error, ErrorView};
pub use integration::{
    Integration, IntegrationSpec, IntegrationSpecView, IntegrationStatus, IntegrationStatusView,
    IntegrationView, Rejection, ValidationError, API_VERSION, GROUP, KIND, SECRET_MAX_CHARS,
    SECRET_MIN_CHARS, SERVICE_MIN_CHARS, VERSION,
};
pub use meta::{ObjectMeta, ObjectMetaView, OwnerReference, OwnerReferenceView};
pub use provision::{
    create_pagerduty_integration, get_pagerduty_integration, provision, provision_path,
    provision_via, PGIntegration, PGIntegrationView, ProvisionPath,
};
pub use reconciler::{
    conclude, error_policy, reconcile, synchronize, try_reconcile, Action, Event, EventView,
    Outcome, OutcomeView, Step, StepView, SyncReport, SyncReportView, REQUEUE_ERROR_SECS,
    REQUEUE_RETRY_SECS, REQUEUE_STEADY_SECS,
};
pub use secret::{
    create_secret, patch_secret, Secret, SecretPatch, SecretPatchView, SecretView, FIELD_MANAGER,
    SECRET_KEY,
};
pub use status::{patch_status, StatusPatch, StatusPatchView};
