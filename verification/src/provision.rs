//! The provisioner: it gives the identity of the external integration that
//! belongs to a resource, creating the integration on the first pass and
//! reading it back on every later one.
//!
//! The paging service itself is not called. A resource has one integration:
//! the create path mints its identity, with fixed endpoints and a routing key
//! derived from the resource's name, and the fetch path reads that same
//! identity back. Both can be called any number of times.

use crate::error::Error;
use crate::integration::{Integration, IntegrationView};
use vstd::prelude::*;

verus! {

/// The endpoint of a resource's integration.
pub const INTEGRATION_URL: &'static str =
    "https://api.pagerduty.com/services/PQL78HM/integrations/PABCDEF";

/// The endpoint of the service that a resource's integration belongs to.
/// The integration's own endpoint stands under it.
pub const SERVICE_URL: &'static str = "https://api.pagerduty.com/services/PQL78HM";

/// What an integration's endpoint holds after the endpoint of its service.
pub const INTEGRATION_PATH: &'static str = "/integrations/PABCDEF";

/// What stands between the endpoint of a service and the identifier of one of
/// its integrations.
pub const INTEGRATIONS_SEGMENT: &'static str = "/integrations/";

/// The identity of an integration at the paging provider.
#[derive(Clone, Debug, PartialEq, Eq)]
pub struct PGIntegration {
    /// The endpoint of the integration.
    pub url: String,
    /// The endpoint of the service that the integration belongs to.
    pub service: String,
    /// The routing credential.
    pub key: String,
}

/// The mathematical value of a [`PGIntegration`].
pub struct PGIntegrationView {
    pub url: Seq<char>,
    pub service: Seq<char>,
    pub key: Seq<char>,
}

impl PGIntegrationView {
    /// Whether `service` is the parent of the integration at `url`: the URL
    /// begins with the service's endpoint, followed by `/integrations/`.
    pub open spec fn stands_under_its_service(self) -> bool {
        (self.service + INTEGRATIONS_SEGMENT@).is_prefix_of(self.url)
    }
}

impl DeepView for PGIntegration {
    type V = PGIntegrationView;

    open spec fn deep_view(&self) -> PGIntegrationView {
        PGIntegrationView { url: self.url@, service: self.service@, key: self.key@ }
    }
}

impl View for PGIntegration {
    type V = PGIntegrationView;

    open spec fn view(&self) -> PGIntegrationView {
        self.deep_view()
    }
}

/// The two ways of provisioning.
#[derive(Clone, Copy, Debug, PartialEq, Eq, Structural)]
pub enum ProvisionPath {
    /// Allocate a new integration.
    Create,
    /// Read the existing integration back.
    Fetch,
}

/// What the create path answers for a resource: the identity that it mints.
pub open spec fn created_integration(integration: IntegrationView) -> PGIntegrationView {
    PGIntegrationView {
        url: INTEGRATION_URL@,
        service: SERVICE_URL@,
        key: integration.metadata.name_any(),
    }
}

/// What the fetch path answers for a resource: the identity that the create
/// path minted for it.
pub open spec fn fetched_integration(integration: IntegrationView) -> PGIntegrationView {
    created_integration(integration)
}

/// The path that provisioning takes for a resource: it fetches once the
/// status records an integration, and creates until then.
pub open spec fn path_for(integration: IntegrationView) -> ProvisionPath {
    if integration.provisioned() {
        ProvisionPath::Fetch
    } else {
        ProvisionPath::Create
    }
}

/// What the given path answers for a resource.
pub open spec fn provisioned_via(
    path: ProvisionPath,
    integration: IntegrationView,
) -> PGIntegrationView {
    match path {
        ProvisionPath::Create => created_integration(integration),
        ProvisionPath::Fetch => fetched_integration(integration),
    }
}

/// What provisioning answers for a resource.
pub open spec fn provisioned_integration(integration: IntegrationView) -> PGIntegrationView {
    provisioned_via(path_for(integration), integration)
}

/// The integration of a resource stands under its service: its endpoint is
/// the service's endpoint followed by `/integrations/` and the integration's
/// identifier.
pub proof fn integration_stands_under_its_service(integration: IntegrationView)
    ensures
        created_integration(integration).url == created_integration(integration).service
            + INTEGRATION_PATH@,
        created_integration(integration).stands_under_its_service(),
        fetched_integration(integration).stands_under_its_service(),
{
    reveal_strlit("https://api.pagerduty.com/services/PQL78HM/integrations/PABCDEF");
    reveal_strlit("https://api.pagerduty.com/services/PQL78HM");
    reveal_strlit("/integrations/PABCDEF");
    reveal_strlit("/integrations/");
    assert(INTEGRATION_URL@ =~= SERVICE_URL@ + INTEGRATION_PATH@);
    assert((SERVICE_URL@ + INTEGRATIONS_SEGMENT@) =~= INTEGRATION_URL@.subrange(
        0,
        (SERVICE_URL@ + INTEGRATIONS_SEGMENT@).len() as int,
    ));
}

/// Provisioning does not depend on the path: whether the integration of a
/// resource is created or read back, and whatever the status records, the
/// answer is the one identity of that resource.
pub proof fn provisioning_answers_alike(
    path: ProvisionPath,
    integration: IntegrationView,
    later: IntegrationView,
)
    requires
        later.metadata == integration.metadata,
    ensures
        provisioned_via(path, integration) == created_integration(integration),
        provisioned_integration(later) == provisioned_integration(integration),
{
}

/// The create path: allocates the integration of a resource.
pub fn create_pagerduty_integration(integration: &Integration) -> (outcome: Result<
    PGIntegration,
    Error,
>)
    ensures
        outcome matches Ok(pg) && {
            &&& pg@ == created_integration(integration@)
            &&& pg@.stands_under_its_service()
        },
{
    proof {
        integration_stands_under_its_service(integration@);
    }
    Ok(
        PGIntegration {
            url: INTEGRATION_URL.to_owned(),
            service: SERVICE_URL.to_owned(),
            key: integration.name_any(),
        },
    )
}

/// The fetch path: reads the integration of a resource back. It answers with
/// the endpoints and the key that the create path gave for the resource.
pub fn get_pagerduty_integration(integration: &Integration) -> (outcome: Result<
    PGIntegration,
    Error,
>)
    ensures
        outcome matches Ok(pg) && {
            &&& pg@ == fetched_integration(integration@)
            &&& pg@.url == created_integration(integration@).url
            &&& pg@.service == created_integration(integration@).service
            &&& pg@.key == integration@.metadata.name_any()
            &&& pg@.stands_under_its_service()
        },
{
    proof {
        integration_stands_under_its_service(integration@);
    }
    Ok(
        PGIntegration {
            url: INTEGRATION_URL.to_owned(),
            service: SERVICE_URL.to_owned(),
            key: integration.name_any(),
        },
    )
}

/// Chooses the path for a resource.
pub fn provision_path(integration: &Integration) -> (path: ProvisionPath)
    ensures
        path == path_for(integration@),
{
    match &integration.status {
        Some(status) => {
            if status.integration.is_some() {
                ProvisionPath::Fetch
            } else {
                ProvisionPath::Create
            }
        },
        None => ProvisionPath::Create,
    }
}

/// Provisions along the given path.
pub fn provision_via(path: ProvisionPath, integration: &Integration) -> (outcome: Result<
    PGIntegration,
    Error,
>)
    ensures
        outcome matches Ok(pg) && pg@ == provisioned_via(path, integration@),
{
    match path {
        ProvisionPath::Create => create_pagerduty_integration(integration),
        ProvisionPath::Fetch => get_pagerduty_integration(integration),
    }
}

/// Provisions the integration of a resource: creates it if the status records
/// none, and reads it back otherwise.
pub fn provision(integration: &Integration) -> (outcome: Result<PGIntegration, Error>)
    ensures
        outcome matches Ok(pg) && pg@ == provisioned_integration(integration@),
{
    provision_via(provision_path(integration), integration)
}

} // verus!
