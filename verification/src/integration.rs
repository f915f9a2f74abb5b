//! The `Integration` resource: what a user declares, and what the operator
//! reports back.

use crate::kube_api::resource_controller_owner_ref;
use crate::meta::{clone_opt, controller_owner_ref, ObjectMeta, ObjectMetaView, OwnerReference};
use vstd::prelude::*;
use vstd::string::StrSliceExecFns;

verus! {

/// The API group of the resource.
pub const GROUP: &'static str = "service.pagerduty.cs.dev";

/// The version of the resource within its group.
pub const VERSION: &'static str = "v1alpha1";

/// The API version of the resource: its group, a slash, and its version.
pub const API_VERSION: &'static str = "service.pagerduty.cs.dev/v1alpha1";

/// The kind of the resource.
pub const KIND: &'static str = "Integration";

/// The API version is made of the group and the version, with a slash
/// between them.
pub proof fn api_version_is_group_and_version()
    ensures
        API_VERSION@ == GROUP@ + seq!['/'] + VERSION@,
{
    reveal_strlit("service.pagerduty.cs.dev");
    reveal_strlit("v1alpha1");
    reveal_strlit("service.pagerduty.cs.dev/v1alpha1");
    assert(API_VERSION@ =~= GROUP@ + seq!['/'] + VERSION@);
}

/// The least number of characters in `service`.
pub const SERVICE_MIN_CHARS: usize = 3;

/// The least number of characters in `secret`, where it is given.
pub const SECRET_MIN_CHARS: usize = 1;

/// The greatest number of characters in `secret`, where it is given.
pub const SECRET_MAX_CHARS: usize = 64;

/// The desired state that a user declares.
#[derive(Clone, Debug, PartialEq, Eq)]
pub struct IntegrationSpec {
    /// The identifier of the service at the paging provider.
    pub service: String,
    /// The name under which the generated credential is bound.
    pub secret: Option<String>,
}

/// The mathematical value of an [`IntegrationSpec`].
pub struct IntegrationSpecView {
    pub service: Seq<char>,
    pub secret: Option<Seq<char>>,
}

/// The rule of the schema that a spec breaks.
#[derive(Clone, Copy, Debug, PartialEq, Eq, Structural)]
pub enum ValidationError {
    /// `service` has fewer than three characters.
    ServiceTooShort,
    /// `secret` is given and empty.
    SecretTooShort,
    /// `secret` is given and has more than 64 characters.
    SecretTooLong,
}

impl IntegrationSpecView {
    /// Whether the spec keeps within the schema's length limits.
    pub open spec fn valid(self) -> bool {
        &&& self.service.len() >= SERVICE_MIN_CHARS
        &&& self.secret matches Some(secret) ==> SECRET_MIN_CHARS <= secret.len()
            <= SECRET_MAX_CHARS
    }

    /// The outcome of validation: the first rule that is broken, taking
    /// `service` before `secret`, or success.
    pub open spec fn validation(self) -> Result<(), ValidationError> {
        if self.service.len() < SERVICE_MIN_CHARS {
            Err(ValidationError::ServiceTooShort)
        } else if self.secret is Some && self.secret->0.len() < SECRET_MIN_CHARS {
            Err(ValidationError::SecretTooShort)
        } else if self.secret is Some && self.secret->0.len() > SECRET_MAX_CHARS {
            Err(ValidationError::SecretTooLong)
        } else {
            Ok(())
        }
    }
}

impl DeepView for IntegrationSpec {
    type V = IntegrationSpecView;

    open spec fn deep_view(&self) -> IntegrationSpecView {
        IntegrationSpecView { service: self.service@, secret: self.secret.deep_view() }
    }
}

impl View for IntegrationSpec {
    type V = IntegrationSpecView;

    open spec fn view(&self) -> IntegrationSpecView {
        self.deep_view()
    }
}

impl IntegrationSpec {
    /// Checks the spec against the schema's length limits, which count
    /// characters.
    pub fn validate(&self) -> (outcome: Result<(), ValidationError>)
        ensures
            outcome == self@.validation(),
            outcome is Ok <==> self@.valid(),
    {
        if self.service.as_str().unicode_len() < SERVICE_MIN_CHARS {
            return Err(ValidationError::ServiceTooShort);
        }
        match &self.secret {
            Some(secret) => {
                let chars: usize = secret.as_str().unicode_len();
                if chars < SECRET_MIN_CHARS {
                    Err(ValidationError::SecretTooShort)
                } else if chars > SECRET_MAX_CHARS {
                    Err(ValidationError::SecretTooLong)
                } else {
                    Ok(())
                }
            },
            None => Ok(()),
        }
    }
}

/// The observed state that the operator reports.
#[derive(Clone, Debug, PartialEq, Eq)]
pub struct IntegrationStatus {
    /// The URL of the integration at the paging provider, once provisioned.
    pub integration: Option<String>,
    /// A diagnostic text.
    pub error: Option<String>,
}

/// The mathematical value of an [`IntegrationStatus`].
pub struct IntegrationStatusView {
    pub integration: Option<Seq<char>>,
    pub error: Option<Seq<char>>,
}

impl DeepView for IntegrationStatus {
    type V = IntegrationStatusView;

    open spec fn deep_view(&self) -> IntegrationStatusView {
        IntegrationStatusView {
            integration: self.integration.deep_view(),
            error: self.error.deep_view(),
        }
    }
}

impl View for IntegrationStatus {
    type V = IntegrationStatusView;

    open spec fn view(&self) -> IntegrationStatusView {
        self.deep_view()
    }
}

impl Default for IntegrationStatus {
    fn default() -> (status: IntegrationStatus)
        ensures
            status@ == (IntegrationStatusView { integration: None, error: None }),
    {
        IntegrationStatus { integration: None, error: None }
    }
}

/// An `Integration` resource: metadata, spec, and status if one was written.
#[derive(Clone, Debug, PartialEq, Eq)]
pub struct Integration {
    pub metadata: ObjectMeta,
    pub spec: IntegrationSpec,
    pub status: Option<IntegrationStatus>,
}

/// The mathematical value of an [`Integration`].
pub struct IntegrationView {
    pub metadata: ObjectMetaView,
    pub spec: IntegrationSpecView,
    pub status: Option<IntegrationStatusView>,
}

/// Why a resource is not one that the cluster hands to the reconciler.
#[derive(Clone, Copy, Debug, PartialEq, Eq, Structural)]
pub enum Rejection {
    /// The spec breaks a rule of the schema.
    InvalidSpec(ValidationError),
    /// The metadata holds no name.
    MissingName,
    /// The metadata holds no namespace.
    MissingNamespace,
    /// The metadata holds no unique identifier.
    MissingUid,
}

impl IntegrationView {
    /// Whether the resource carries the identity that the cluster gives to
    /// every stored namespaced object: name, namespace and unique identifier.
    pub open spec fn identified(self) -> bool {
        &&& self.metadata.name is Some
        &&& self.metadata.namespace is Some
        &&& self.metadata.uid is Some
    }

    /// Whether the resource is one that the cluster hands to the reconciler:
    /// its spec passed validation and it is stored under an identity.
    pub open spec fn admitted(self) -> bool {
        self.spec.valid() && self.identified()
    }

    /// The outcome of admission: the first thing that is wrong, taking the
    /// spec before the name, the namespace and the identifier, or success.
    pub open spec fn admission(self) -> Result<(), Rejection> {
        if self.spec.validation() is Err {
            Err(Rejection::InvalidSpec(self.spec.validation()->Err_0))
        } else if self.metadata.name is None {
            Err(Rejection::MissingName)
        } else if self.metadata.namespace is None {
            Err(Rejection::MissingNamespace)
        } else if self.metadata.uid is None {
            Err(Rejection::MissingUid)
        } else {
            Ok(())
        }
    }

    /// Whether provisioning has already recorded an integration: the status
    /// exists and holds its URL.
    pub open spec fn provisioned(self) -> bool {
        self.status is Some && self.status->0.integration is Some
    }

    /// The controller reference that points at this resource.
    pub open spec fn controller_owner_ref(self) -> Option<crate::meta::OwnerReferenceView> {
        controller_owner_ref(API_VERSION@, KIND@, self.metadata)
    }
}

impl DeepView for Integration {
    type V = IntegrationView;

    open spec fn deep_view(&self) -> IntegrationView {
        IntegrationView {
            metadata: self.metadata@,
            spec: self.spec@,
            status: self.status.deep_view(),
        }
    }
}

impl View for Integration {
    type V = IntegrationView;

    open spec fn view(&self) -> IntegrationView {
        self.deep_view()
    }
}

impl Integration {
    /// A resource of the given name and spec that was not stored yet: it has
    /// no namespace, no unique identifier and no status.
    pub fn new(name: &str, spec: IntegrationSpec) -> (integration: Integration)
        ensures
            integration@ == (IntegrationView {
                metadata: ObjectMetaView {
                    name: Some(name@),
                    generate_name: None,
                    namespace: None,
                    uid: None,
                    owner_references: None,
                },
                spec: spec@,
                status: None,
            }),
    {
        let mut metadata = ObjectMeta::default();
        metadata.name = Some(name.to_owned());
        Integration { metadata, spec, status: None }
    }

    /// Decides whether the resource is one that the cluster hands to the
    /// reconciler, and says what is wrong if it is not.
    pub fn check_admission(&self) -> (outcome: Result<(), Rejection>)
        ensures
            outcome == self@.admission(),
            outcome is Ok <==> self@.admitted(),
    {
        match self.spec.validate() {
            Err(broken) => Err(Rejection::InvalidSpec(broken)),
            Ok(()) => {
                if self.metadata.name.is_none() {
                    Err(Rejection::MissingName)
                } else if self.metadata.namespace.is_none() {
                    Err(Rejection::MissingNamespace)
                } else if self.metadata.uid.is_none() {
                    Err(Rejection::MissingUid)
                } else {
                    Ok(())
                }
            },
        }
    }

    /// The name used to refer to the resource, see [`ObjectMetaView::name_any`].
    pub fn name_any(&self) -> (name: String)
        ensures
            name@ == self@.metadata.name_any(),
    {
        self.metadata.name_any()
    }

    /// The namespace that the resource lives in.
    pub fn namespace(&self) -> (namespace: Option<String>)
        ensures
            namespace == self.metadata.namespace,
    {
        clone_opt(&self.metadata.namespace)
    }

    /// The controller reference that points at this resource, if its metadata
    /// holds a name and a unique identifier.
    pub fn controller_owner_ref(&self) -> (owner: Option<OwnerReference>)
        ensures
            owner.deep_view() == self@.controller_owner_ref(),
            owner is Some <==> self@.metadata.can_be_owner(),
    {
        resource_controller_owner_ref(API_VERSION, KIND, &self.metadata)
    }
}

} // verus!
