//! A minimal typed object — type information plus common metadata — that the
//! store, the watcher and the waits can carry when no richer schema is
//! needed.

use vstd::prelude::*;

verus! {

use crate::discovery::{api_version_of, ApiResource, ResourceType};
use crate::meta::{ObjectMeta, TypeMeta};
use crate::store::{Lookup, ObjectRef};

/// An object reduced to what every Kubernetes object carries.
#[derive(Debug, Clone)]
pub struct PartialObject {
    /// The object's API version and kind, when known.
    pub types: Option<TypeMeta>,
    /// The object's metadata.
    pub metadata: ObjectMeta,
}

impl PartialObject {
    /// An object with only a namespace and a name, as the store tests and
    /// waits need.
    pub fn named(namespace: &str, name: &str) -> (r: PartialObject)
        ensures
            r.types is None,
            r.metadata.namespace matches Some(n) && n@ == namespace@,
            r.metadata.name matches Some(n) && n@ == name@,
            r.metadata.uid is None,
            r.metadata.resource_version is None,
            r.spec_key() == (namespace@, name@),
    {
        PartialObject {
            types: None,
            metadata: ObjectMeta {
                name: Some(name.to_owned()),
                namespace: Some(namespace.to_owned()),
                uid: None,
                resource_version: None,
            },
        }
    }
}

impl Lookup for PartialObject {
    open spec fn spec_key(&self) -> (Seq<char>, Seq<char>) {
        (
            match self.metadata.namespace {
                Some(ns) => ns@,
                None => Seq::empty(),
            },
            match self.metadata.name {
                Some(n) => n@,
                None => Seq::empty(),
            },
        )
    }

    fn key(&self) -> (r: ObjectRef) {
        ObjectRef {
            namespace: match &self.metadata.namespace {
                Some(ns) => ns.clone(),
                None => String::new(),
            },
            name: match &self.metadata.name {
                Some(n) => n.clone(),
                None => String::new(),
            },
        }
    }

    fn duplicate(&self) -> (r: PartialObject) {
        PartialObject {
            types: match &self.types {
                Some(t) => Some(TypeMeta {
                    api_version: t.api_version.clone(),
                    kind: t.kind.clone(),
                }),
                None => None,
            },
            metadata: self.metadata.duplicate(),
        }
    }
}

impl ResourceType for PartialObject {
    type DynamicType = ApiResource;

    open spec fn spec_group(dt: &ApiResource) -> Seq<char> {
        dt.group@
    }

    open spec fn spec_version(dt: &ApiResource) -> Seq<char> {
        dt.version@
    }

    open spec fn spec_kind(dt: &ApiResource) -> Seq<char> {
        dt.kind@
    }

    open spec fn spec_plural(dt: &ApiResource) -> Seq<char> {
        dt.plural@
    }

    fn group(dt: &ApiResource) -> (r: String) {
        dt.group.clone()
    }

    fn version(dt: &ApiResource) -> (r: String) {
        dt.version.clone()
    }

    fn kind(dt: &ApiResource) -> (r: String) {
        dt.kind.clone()
    }

    fn plural(dt: &ApiResource) -> (r: String) {
        dt.plural.clone()
    }

    fn api_version(dt: &ApiResource) -> (r: String)
        ensures
            r@ == api_version_of(dt.group@, dt.version@),
    {
        if dt.group.as_str().is_empty() {
            dt.version.clone()
        } else {
            dt.group.clone().concat("/").concat(dt.version.as_str())
        }
    }
}

} // verus!
