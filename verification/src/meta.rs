//! Object metadata and owner references, as plain values.
//!
//! These types hold the part of the cluster's object metadata that the
//! reconciliation logic reads or writes. Their views replace every string by
//! its sequence of characters, so that contracts can speak of whole values.

use crate::kube_api::resource_name_any;
use vstd::prelude::*;

verus! {

/// A back-link from a derived object to the object that owns it.
#[derive(Clone, Debug, PartialEq, Eq)]
pub struct OwnerReference {
    pub api_version: String,
    pub block_owner_deletion: Option<bool>,
    pub controller: Option<bool>,
    pub kind: String,
    pub name: String,
    pub uid: String,
}

/// The mathematical value of an [`OwnerReference`].
pub struct OwnerReferenceView {
    pub api_version: Seq<char>,
    pub block_owner_deletion: Option<bool>,
    pub controller: Option<bool>,
    pub kind: Seq<char>,
    pub name: Seq<char>,
    pub uid: Seq<char>,
}

impl DeepView for OwnerReference {
    type V = OwnerReferenceView;

    open spec fn deep_view(&self) -> OwnerReferenceView {
        OwnerReferenceView {
            api_version: self.api_version@,
            block_owner_deletion: self.block_owner_deletion,
            controller: self.controller,
            kind: self.kind@,
            name: self.name@,
            uid: self.uid@,
        }
    }
}

impl View for OwnerReference {
    type V = OwnerReferenceView;

    open spec fn view(&self) -> OwnerReferenceView {
        self.deep_view()
    }
}

/// The metadata of a namespaced object: its identity and its owners.
#[derive(Clone, Debug, PartialEq, Eq)]
pub struct ObjectMeta {
    pub name: Option<String>,
    pub generate_name: Option<String>,
    pub namespace: Option<String>,
    pub uid: Option<String>,
    pub owner_references: Option<Vec<OwnerReference>>,
}

/// The mathematical value of an [`ObjectMeta`].
pub struct ObjectMetaView {
    pub name: Option<Seq<char>>,
    pub generate_name: Option<Seq<char>>,
    pub namespace: Option<Seq<char>>,
    pub uid: Option<Seq<char>>,
    pub owner_references: Option<Seq<OwnerReferenceView>>,
}

impl ObjectMetaView {
    /// The name used to refer to the object: its name, else the prefix from
    /// which a name is to be generated, else the empty string.
    pub open spec fn name_any(self) -> Seq<char> {
        match self.name {
            Some(name) => name,
            None => match self.generate_name {
                Some(prefix) => prefix,
                None => Seq::empty(),
            },
        }
    }

    /// Whether a reference to the object can be built: it needs a name and a
    /// unique identifier.
    pub open spec fn can_be_owner(self) -> bool {
        self.name is Some && self.uid is Some
    }
}

impl DeepView for ObjectMeta {
    type V = ObjectMetaView;

    open spec fn deep_view(&self) -> ObjectMetaView {
        ObjectMetaView {
            name: self.name.deep_view(),
            generate_name: self.generate_name.deep_view(),
            namespace: self.namespace.deep_view(),
            uid: self.uid.deep_view(),
            owner_references: self.owner_references.deep_view(),
        }
    }
}

impl View for ObjectMeta {
    type V = ObjectMetaView;

    open spec fn view(&self) -> ObjectMetaView {
        self.deep_view()
    }
}

/// The controller reference that points at an object of the given type with
/// the given metadata, if the metadata names the object and carries its
/// unique identifier.
pub open spec fn controller_owner_ref(
    api_version: Seq<char>,
    kind: Seq<char>,
    meta: ObjectMetaView,
) -> Option<OwnerReferenceView> {
    if meta.can_be_owner() {
        Some(
            OwnerReferenceView {
                api_version,
                block_owner_deletion: None,
                controller: Some(true),
                kind,
                name: meta.name->0,
                uid: meta.uid->0,
            },
        )
    } else {
        None
    }
}

/// A copy of an optional string.
pub(crate) fn clone_opt(value: &Option<String>) -> (copy: Option<String>)
    ensures
        copy == *value,
{
    match value {
        Some(s) => Some(s.clone()),
        None => None,
    }
}

impl Default for ObjectMeta {
    /// Metadata with no field set.
    fn default() -> (meta: ObjectMeta)
        ensures
            meta@ == (ObjectMetaView {
                name: None,
                generate_name: None,
                namespace: None,
                uid: None,
                owner_references: None,
            }),
    {
        ObjectMeta {
            name: None,
            generate_name: None,
            namespace: None,
            uid: None,
            owner_references: None,
        }
    }
}

impl ObjectMeta {
    /// The name used to refer to the object, see
    /// [`ObjectMetaView::name_any`].
    pub fn name_any(&self) -> (name: String)
        ensures
            name@ == self@.name_any(),
    {
        resource_name_any(self)
    }
}

} // verus!
