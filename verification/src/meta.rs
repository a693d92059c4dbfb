//! Common wire-level metadata: type identification, object metadata and the
//! structured `Status` the API server returns for failures.

use vstd::prelude::*;

verus! {

/// The API version and kind of an object or envelope.
#[derive(Debug, Clone)]
pub struct TypeMeta {
    /// `apiVersion` of the object: `v1` for the core group, otherwise
    /// `group/version`.
    pub api_version: String,
    /// PascalCase kind of the object.
    pub kind: String,
}

/// The metadata common to every object: its identity and version stamp.
#[derive(Debug, Clone)]
pub struct ObjectMeta {
    /// Object name, unique within a namespace.
    pub name: Option<String>,
    /// Namespace the object lives in; `None` for cluster-scoped objects.
    pub namespace: Option<String>,
    /// Server-assigned stable identifier.
    pub uid: Option<String>,
    /// Opaque version token, monotonically ordered within a key.
    pub resource_version: Option<String>,
}

impl ObjectMeta {
    /// Metadata with every field unset.
    pub fn empty() -> (r: ObjectMeta)
        ensures
            r.name is None,
            r.namespace is None,
            r.uid is None,
            r.resource_version is None,
    {
        ObjectMeta { name: None, namespace: None, uid: None, resource_version: None }
    }

    /// A field-by-field copy.
    pub fn duplicate(&self) -> (r: ObjectMeta)
        ensures
            r == *self,
    {
        ObjectMeta {
            name: self.name.clone(),
            namespace: self.namespace.clone(),
            uid: self.uid.clone(),
            resource_version: self.resource_version.clone(),
        }
    }
}

/// The structured outcome the API server reports: a summary, a machine
/// readable reason, a human readable message and an HTTP-like code.
#[derive(Debug, Clone, PartialEq)]
pub struct Status {
    /// `"Success"` or `"Failure"`, when the server set it.
    pub status: Option<String>,
    /// HTTP status code of this outcome; zero when unset.
    pub code: u16,
    /// Human-readable description.
    pub message: String,
    /// Machine-readable, single-word reason.
    pub reason: String,
}

impl Status {
    /// Whether this status reports success.
    pub open spec fn spec_is_success(self) -> bool {
        self.status matches Some(s) && s@ == "Success"@
    }

    /// Whether this status means the requested `resourceVersion` is too old
    /// and the watch must relist: a `410` code or an `Expired`/`Gone` reason.
    pub open spec fn spec_is_gone(self) -> bool {
        self.code == 410 || self.reason@ == "Expired"@ || self.reason@ == "Gone"@
    }

    /// A success outcome.
    pub fn success() -> (r: Status)
        ensures
            r.spec_is_success(),
            r.code == 0,
            r.message@ == ""@,
            r.reason@ == ""@,
    {
        Status {
            status: Some("Success".to_owned()),
            code: 0,
            message: "".to_owned(),
            reason: "".to_owned(),
        }
    }

    /// A failure outcome carrying the given message and reason.
    pub fn failure(message: &str, reason: &str) -> (r: Status)
        ensures
            !r.spec_is_success(),
            r.status matches Some(s) && s@ == "Failure"@,
            r.code == 0,
            r.message@ == message@,
            r.reason@ == reason@,
    {
        let r = Status {
            status: Some("Failure".to_owned()),
            code: 0,
            message: message.to_owned(),
            reason: reason.to_owned(),
        };
        proof {
            reveal_strlit("Failure");
            reveal_strlit("Success");
            assert("Failure"@[0] != "Success"@[0]);
        }
        r
    }

    /// Whether this status reports success.
    pub fn is_success(&self) -> (r: bool)
        ensures
            r == self.spec_is_success(),
    {
        match &self.status {
            Some(s) => crate::strutil::str_eq(s.as_str(), "Success"),
            None => false,
        }
    }

    /// Whether this status demands a relist (see [`Status::spec_is_gone`]).
    pub fn is_gone(&self) -> (r: bool)
        ensures
            r == self.spec_is_gone(),
    {
        self.code == 410 || crate::strutil::str_eq(self.reason.as_str(), "Expired")
            || crate::strutil::str_eq(self.reason.as_str(), "Gone")
    }

    /// A field-by-field copy.
    pub fn duplicate(&self) -> (r: Status)
        ensures
            r == *self,
    {
        Status {
            status: self.status.clone(),
            code: self.code,
            message: self.message.clone(),
            reason: self.reason.clone(),
        }
    }
}

} // verus!
