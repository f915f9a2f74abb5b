//! The calls into the `kube` crate that the logic makes.
//!
//! Each function here forwards to one function of that crate. The function
//! is one that `kube` offers for every kind of resource; here it is called on
//! a `DynamicObject`, which carries nothing but metadata. The contract is
//! taken from the crate's source and is trusted, not proved.

use crate::meta::{controller_owner_ref, ObjectMeta, OwnerReference};
use kube::api::{ApiResource, DynamicObject};
use kube::{Resource, ResourceExt};
use vstd::prelude::*;

verus! {

/// Calls `kube::ResourceExt::name_any` on an object that has the name and the
/// `generate_name` of `meta`.
///
/// Trusted: the result is the name; without a name, the `generate_name`;
/// without either, the empty string.
#[verifier::external_body]
pub(crate) fn resource_name_any(meta: &ObjectMeta) -> (name: String)
    ensures
        name@ == meta@.name_any(),
{
    let metadata = k8s_openapi::apimachinery::pkg::apis::meta::v1::ObjectMeta {
        name: meta.name.clone(),
        generate_name: meta.generate_name.clone(),
        ..Default::default()
    };
    let object = DynamicObject { types: None, metadata, data: Default::default() };
    object.name_any()
}

/// Calls `kube::Resource::controller_owner_ref` on an object of the given
/// API version and kind that has the name and the unique identifier of
/// `meta`.
///
/// Trusted: the result is `None` unless both the name and the identifier are
/// there; otherwise it is a reference that carries the API version, the
/// kind, that name and that identifier, is marked as the controller's, and
/// leaves `block_owner_deletion` unset.
#[verifier::external_body]
pub(crate) fn resource_controller_owner_ref(
    api_version: &str,
    kind: &str,
    meta: &ObjectMeta,
) -> (owner: Option<OwnerReference>)
    ensures
        owner.deep_view() == controller_owner_ref(api_version@, kind@, meta@),
{
    let (api_version, kind) = (api_version.to_string(), kind.to_string());
    let dt =
        ApiResource { group: String::new(), version: String::new(), api_version, kind, plural: String::new() };
    let (name, uid) = (meta.name.clone(), meta.uid.clone());
    let metadata =
        k8s_openapi::apimachinery::pkg::apis::meta::v1::ObjectMeta { name, uid, ..Default::default() };
    let object = DynamicObject { types: None, metadata, data: Default::default() };
    object.controller_owner_ref(&dt).map(|o| OwnerReference {
        api_version: o.api_version,
        block_owner_deletion: o.block_owner_deletion,
        controller: o.controller,
        kind: o.kind,
        name: o.name,
        uid: o.uid,
    })
}

} // verus!
