//! The Secret synchronizer: the Secret that follows from a resource and its
//! routing key, and the request that applies it to the cluster.

use crate::error::{Error, ErrorView};
use crate::integration::{Integration, IntegrationView, API_VERSION, KIND};
use crate::meta::{clone_opt, ObjectMeta, ObjectMetaView, OwnerReference, OwnerReferenceView};
use vstd::prelude::*;

verus! {

/// The only entry of a derived Secret: under this name it holds the routing
/// key.
pub const SECRET_KEY: &'static str = "key";

/// The identity under which the operator applies its Secrets, so that its own
/// repeated applies never conflict with each other.
pub const FIELD_MANAGER: &'static str = "pgkubecontroller";

/// A Secret: metadata and its string entries, each a name and a value.
#[derive(Clone, Debug, PartialEq, Eq)]
pub struct Secret {
    pub metadata: ObjectMeta,
    pub string_data: Option<Vec<(String, String)>>,
}

/// The mathematical value of a [`Secret`].
pub struct SecretView {
    pub metadata: ObjectMetaView,
    pub string_data: Option<Seq<(Seq<char>, Seq<char>)>>,
}

impl SecretView {
    /// Whether the entries form a map: no name occurs twice.
    pub open spec fn well_formed(self) -> bool {
        self.string_data matches Some(entries) ==> forall|i: int, j: int|
            0 <= i < j < entries.len() ==> entries[i].0 != entries[j].0
    }
}

impl DeepView for Secret {
    type V = SecretView;

    open spec fn deep_view(&self) -> SecretView {
        SecretView { metadata: self.metadata@, string_data: self.string_data.deep_view() }
    }
}

impl View for Secret {
    type V = SecretView;

    open spec fn view(&self) -> SecretView {
        self.deep_view()
    }
}

/// The reference by which a derived object names the resource as its
/// controlling owner: deleting the resource deletes the object, and the
/// resource is kept until the object is gone.
pub open spec fn controlling_owner(integration: IntegrationView) -> OwnerReferenceView
    recommends
        integration.metadata.can_be_owner(),
{
    OwnerReferenceView {
        api_version: API_VERSION@,
        block_owner_deletion: Some(true),
        controller: Some(true),
        kind: KIND@,
        name: integration.metadata.name->0,
        uid: integration.metadata.uid->0,
    }
}

/// The Secret that belongs to a resource whose routing key is `key`: it has
/// the resource's name and namespace, the resource as its only owner, and the
/// key as its only entry.
pub open spec fn desired_secret(integration: IntegrationView, key: Seq<char>) -> SecretView
    recommends
        integration.metadata.can_be_owner(),
{
    SecretView {
        metadata: ObjectMetaView {
            name: integration.metadata.name,
            generate_name: None,
            namespace: integration.metadata.namespace,
            uid: None,
            owner_references: Some(seq![controlling_owner(integration)]),
        },
        string_data: Some(seq![(SECRET_KEY@, key)]),
    }
}

/// Builds the Secret that belongs to a resource, see [`desired_secret`].
///
/// The resource must be able to be an owner: without a name or a unique
/// identifier no reference to it exists.
pub fn create_secret(integration: &Integration, key: String) -> (outcome: Result<Secret, Error>)
    requires
        integration@.metadata.can_be_owner(),
    ensures
        outcome matches Ok(secret) && {
            &&& secret@ == desired_secret(integration@, key@)
            &&& secret@.well_formed()
            &&& secret@.metadata.owner_references matches Some(owners) && {
                &&& owners.len() == 1
                &&& owners[0].uid == integration@.metadata.uid->0
                &&& owners[0].controller == Some(true)
            }
        },
{
    let mut owner: OwnerReference = integration.controller_owner_ref().unwrap();
    owner.block_owner_deletion = Some(true);
    let ghost owner_view = owner@;
    let owners: Vec<OwnerReference> = vec![owner];
    assert(owners.deep_view() =~= seq![owner_view]);
    let entries: Vec<(String, String)> = vec![(SECRET_KEY.to_owned(), key)];
    assert(entries.deep_view() =~= seq![(SECRET_KEY@, key@)]);
    Ok(
        Secret {
            metadata: ObjectMeta {
                name: clone_opt(&integration.metadata.name),
                generate_name: None,
                namespace: clone_opt(&integration.metadata.namespace),
                uid: None,
                owner_references: Some(owners),
            },
            string_data: Some(entries),
        },
    )
}

/// A request to apply a Secret on the server side: the server merges the
/// given fields into the Secret of that name and namespace, creating it if
/// need be, and records `field_manager` as their owner. Fields that another
/// manager owns stay as they are unless `force` is set.
#[derive(Clone, Debug, PartialEq, Eq)]
pub struct SecretPatch {
    pub namespace: String,
    pub name: String,
    pub field_manager: String,
    pub force: bool,
    pub secret: Secret,
}

/// The mathematical value of a [`SecretPatch`].
pub struct SecretPatchView {
    pub namespace: Seq<char>,
    pub name: Seq<char>,
    pub field_manager: Seq<char>,
    pub force: bool,
    pub secret: SecretView,
}

impl DeepView for SecretPatch {
    type V = SecretPatchView;

    open spec fn deep_view(&self) -> SecretPatchView {
        SecretPatchView {
            namespace: self.namespace@,
            name: self.name@,
            field_manager: self.field_manager@,
            force: self.force,
            secret: self.secret@,
        }
    }
}

impl View for SecretPatch {
    type V = SecretPatchView;

    open spec fn view(&self) -> SecretPatchView {
        self.deep_view()
    }
}

/// The request that applies `secret`: it is addressed to the Secret's own
/// namespace and name, made under the operator's field manager, and not
/// forced.
pub open spec fn secret_patch(secret: SecretView) -> SecretPatchView
    recommends
        secret.metadata.namespace is Some,
{
    SecretPatchView {
        namespace: secret.metadata.namespace->0,
        name: secret.metadata.name_any(),
        field_manager: FIELD_MANAGER@,
        force: false,
        secret,
    }
}

/// Builds the request that applies `secret`, see [`secret_patch`].
///
/// The Secret's entries must form a map, see [`SecretView::well_formed`]: of
/// two entries of one name the cluster could keep only one.
///
/// A Secret lives in a namespace: for one that names none there is no
/// request, and the answer is [`Error::Unknown`].
pub fn patch_secret(secret: Secret) -> (outcome: Result<SecretPatch, Error>)
    requires
        secret@.well_formed(),
    ensures
        match outcome {
            Ok(patch) => {
                &&& secret@.metadata.namespace is Some
                &&& patch@ == secret_patch(secret@)
                &&& patch@.secret.well_formed()
            },
            Err(error) => secret@.metadata.namespace is None && error@ == ErrorView::Unknown,
        },
{
    match clone_opt(&secret.metadata.namespace) {
        Some(namespace) => {
            let name: String = secret.metadata.name_any();
            Ok(
                SecretPatch {
                    namespace,
                    name,
                    field_manager: FIELD_MANAGER.to_owned(),
                    force: false,
                    secret,
                },
            )
        },
        None => Err(Error::Unknown),
    }
}

} // verus!
