//! The Status synchronizer: the merge patch that records a provisioned
//! integration in a resource's status.

use crate::error::{Error, ErrorView};
use crate::integration::{Integration, IntegrationStatusView, IntegrationView};
use crate::provision::{PGIntegration, PGIntegrationView};
use vstd::prelude::*;

verus! {

/// A request to merge into the status subresource of the resource of that
/// name and namespace. On the wire it is the document
/// `{"status": {"integration": ..}}`, where an absent value is sent as `null`.
#[derive(Clone, Debug, PartialEq, Eq)]
pub struct StatusPatch {
    pub namespace: String,
    pub name: String,
    pub integration: Option<String>,
}

/// The mathematical value of a [`StatusPatch`].
pub struct StatusPatchView {
    pub namespace: Seq<char>,
    pub name: Seq<char>,
    pub integration: Option<Seq<char>>,
}

impl DeepView for StatusPatch {
    type V = StatusPatchView;

    open spec fn deep_view(&self) -> StatusPatchView {
        StatusPatchView {
            namespace: self.namespace@,
            name: self.name@,
            integration: self.integration.deep_view(),
        }
    }
}

impl View for StatusPatch {
    type V = StatusPatchView;

    open spec fn view(&self) -> StatusPatchView {
        self.deep_view()
    }
}

impl StatusPatchView {
    /// Whether the request is addressed to `integration`.
    pub open spec fn addresses(self, integration: IntegrationView) -> bool {
        &&& integration.metadata.namespace == Some(self.namespace)
        &&& integration.metadata.name_any() == self.name
    }

    /// The resource after the server merged the patch into it: the status
    /// then holds the patch's `integration`, every other field is as before.
    pub open spec fn merged_into(self, integration: IntegrationView) -> IntegrationView {
        IntegrationView {
            status: Some(
                IntegrationStatusView {
                    integration: self.integration,
                    error: match integration.status {
                        Some(status) => status.error,
                        None => None,
                    },
                },
            ),
            ..integration
        }
    }
}

/// The request that records `provisioned` in the status of `integration`: it
/// is addressed to the resource's namespace and name, and sets the status's
/// `integration` to the provisioned URL.
pub open spec fn status_patch(
    provisioned: PGIntegrationView,
    integration: IntegrationView,
) -> StatusPatchView
    recommends
        integration.metadata.namespace is Some,
{
    StatusPatchView {
        namespace: integration.metadata.namespace->0,
        name: integration.metadata.name_any(),
        integration: Some(provisioned.url),
    }
}

/// Builds the request that records `integration` in the status of `obj`, see
/// [`status_patch`].
///
/// The resource is a namespaced one: for a resource that names no namespace
/// there is no request, and the answer is [`Error::Unknown`].
pub fn patch_status(integration: PGIntegration, obj: &Integration) -> (outcome: Result<
    StatusPatch,
    Error,
>)
    ensures
        match outcome {
            Ok(patch) => {
                &&& obj@.metadata.namespace is Some
                &&& patch@ == status_patch(integration@, obj@)
                &&& patch@.addresses(obj@)
            },
            Err(error) => obj@.metadata.namespace is None && error@ == ErrorView::Unknown,
        },
{
    match obj.namespace() {
        Some(namespace) => {
            let name: String = obj.name_any();
            Ok(StatusPatch { namespace, name, integration: Some(integration.url) })
        },
        None => Err(Error::Unknown),
    }
}

} // verus!
