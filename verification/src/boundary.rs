//! Per-object deserialization isolation: a wrapper that keeps a list usable
//! when one object in it is malformed. The invalid object keeps its
//! metadata, so it stays addressable by key — stores and watchers treat it
//! like any sibling — and carries the decoder's message instead of a value.

use vstd::prelude::*;

verus! {

use crate::meta::ObjectMeta;
use crate::object::PartialObject;
use crate::store::{Lookup, ObjectRef};

/// An object that failed to deserialize: the decoder's message and the
/// metadata that still identifies it.
#[derive(Debug, Clone)]
pub struct InvalidObject {
    /// The error message from deserializing the object.
    pub error: String,
    /// The metadata of the invalid object.
    pub metadata: ObjectMeta,
}

impl InvalidObject {
    /// The decoder's message.
    pub fn message(&self) -> (r: &str)
        ensures
            r@ == self.error@,
    {
        self.error.as_str()
    }
}

/// A wrapper that lets deserializing a parent list succeed even when this
/// one object is invalid: either the typed object, or what is known of the
/// invalid one.
#[derive(Debug)]
pub struct ErrorBoundary<T>(pub Result<T, InvalidObject>);

impl<T> ErrorBoundary<T> {
    /// Wraps an object that parsed.
    pub fn valid(obj: T) -> (r: ErrorBoundary<T>)
        ensures
            r.0 == Ok::<T, InvalidObject>(obj),
    {
        ErrorBoundary(Ok(obj))
    }

    /// Wraps what is known of an object that did not parse.
    pub fn invalid(error: String, metadata: ObjectMeta) -> (r: ErrorBoundary<T>)
        ensures
            r.0 matches Err(inv) && inv.error == error && inv.metadata == metadata,
    {
        ErrorBoundary(Err(InvalidObject { error, metadata }))
    }

    /// Whether the wrapped object parsed.
    pub fn is_valid(&self) -> (r: bool)
        ensures
            r == (self.0 is Ok),
    {
        self.0.is_ok()
    }
}

impl ErrorBoundary<PartialObject> {
    /// The metadata of the object, valid or not.
    pub fn meta(&self) -> (r: &ObjectMeta)
        ensures
            match self.0 {
                Ok(ref obj) => r == obj.metadata,
                Err(ref inv) => r == inv.metadata,
            },
    {
        match &self.0 {
            Ok(obj) => &obj.metadata,
            Err(inv) => &inv.metadata,
        }
    }
}

impl Lookup for ErrorBoundary<PartialObject> {
    /// An invalid object keeps the key its metadata names, so it stays
    /// addressable beside its valid siblings.
    open spec fn spec_key(&self) -> (Seq<char>, Seq<char>) {
        match self.0 {
            Ok(obj) => obj.spec_key(),
            Err(inv) => (
                match inv.metadata.namespace {
                    Some(ns) => ns@,
                    None => Seq::empty(),
                },
                match inv.metadata.name {
                    Some(n) => n@,
                    None => Seq::empty(),
                },
            ),
        }
    }

    fn key(&self) -> (r: ObjectRef) {
        let meta = self.meta();
        ObjectRef {
            namespace: match &meta.namespace {
                Some(ns) => ns.clone(),
                None => String::new(),
            },
            name: match &meta.name {
                Some(n) => n.clone(),
                None => String::new(),
            },
        }
    }

    fn duplicate(&self) -> (r: ErrorBoundary<PartialObject>) {
        match &self.0 {
            Ok(obj) => ErrorBoundary(Ok(obj.duplicate())),
            Err(inv) => ErrorBoundary(
                Err(
                    InvalidObject {
                        error: inv.error.clone(),
                        metadata: inv.metadata.duplicate(),
                    },
                ),
            ),
        }
    }
}

} // verus!
