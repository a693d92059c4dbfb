//! Type information for API discovery: resource descriptors, scopes and
//! capabilities, with URL-relevant names derived from them.

use vstd::prelude::*;

verus! {

use crate::plural::{to_plural, plural_of};
use crate::strutil::{str_eq, ascii_lowercase, lower_seq};

/// The `apiVersion` string of a group and version: the bare version for the
/// core (empty) group, otherwise `group/version`.
pub open spec fn api_version_of(group: Seq<char>, version: Seq<char>) -> Seq<char> {
    if group.len() == 0 {
        version
    } else {
        group + "/"@ + version
    }
}

/// A group, version and kind identifying a resource type, without its plural
/// name.
#[derive(Debug, Clone)]
pub struct GroupVersionKind {
    /// Resource group, empty for the core group.
    pub group: String,
    /// Version within the group.
    pub version: String,
    /// Singular PascalCase name of the resource.
    pub kind: String,
}

impl GroupVersionKind {
    /// Constructs the `apiVersion` string for this group and version.
    pub fn api_version(&self) -> (r: String)
        ensures
            r@ == api_version_of(self.group@, self.version@),
    {
        if self.group.as_str().is_empty() {
            self.version.clone()
        } else {
            self.group.clone().concat("/").concat(self.version.as_str())
        }
    }
}

/// The descriptor a verified resource type supplies: enough names to build
/// URLs and to erase the type into an [`ApiResource`].
pub trait ResourceType {
    /// The runtime information the names are read from; statically known
    /// resources use `()`.
    type DynamicType;

    /// The resource group this type belongs to.
    spec fn spec_group(dt: &Self::DynamicType) -> Seq<char>;

    /// The version of the resource within its group.
    spec fn spec_version(dt: &Self::DynamicType) -> Seq<char>;

    /// The singular PascalCase kind.
    spec fn spec_kind(dt: &Self::DynamicType) -> Seq<char>;

    /// The plural, lowercase resource name.
    spec fn spec_plural(dt: &Self::DynamicType) -> Seq<char>;

    fn group(dt: &Self::DynamicType) -> (r: String)
        ensures
            r@ == Self::spec_group(dt),
    ;

    fn version(dt: &Self::DynamicType) -> (r: String)
        ensures
            r@ == Self::spec_version(dt),
    ;

    fn kind(dt: &Self::DynamicType) -> (r: String)
        ensures
            r@ == Self::spec_kind(dt),
    ;

    fn plural(dt: &Self::DynamicType) -> (r: String)
        ensures
            r@ == Self::spec_plural(dt),
    ;

    fn api_version(dt: &Self::DynamicType) -> (r: String)
        ensures
            r@ == api_version_of(Self::spec_group(dt), Self::spec_version(dt)),
    ;
}

/// Information about a Kubernetes API resource: enough to build its URLs and
/// to address it dynamically.
#[derive(Debug, Clone, Hash, Eq, PartialEq)]
pub struct ApiResource {
    /// Resource group, empty for the core group.
    pub group: String,
    /// Group version.
    pub version: String,
    /// `apiVersion` of the resource: `v1` for the core group,
    /// `group/version` otherwise.
    pub api_version: String,
    /// Singular PascalCase name of the resource.
    pub kind: String,
    /// Plural name of the resource.
    pub plural: String,
}

impl ApiResource {
    /// Whether the `api_version` field agrees with the group and version.
    pub open spec fn well_formed(self) -> bool {
        self.api_version@ == api_version_of(self.group@, self.version@)
    }

    /// Creates an `ApiResource` by type-erasing a resource type.
    pub fn erase<K: ResourceType>(dt: &K::DynamicType) -> (r: ApiResource)
        ensures
            r.group@ == K::spec_group(dt),
            r.version@ == K::spec_version(dt),
            r.kind@ == K::spec_kind(dt),
            r.plural@ == K::spec_plural(dt),
            r.well_formed(),
    {
        ApiResource {
            group: K::group(dt),
            version: K::version(dt),
            api_version: K::api_version(dt),
            kind: K::kind(dt),
            plural: K::plural(dt),
        }
    }

    /// Creates an `ApiResource` from a group, version, kind and plural name.
    pub fn from_gvk_with_plural(gvk: &GroupVersionKind, plural: &str) -> (r: ApiResource)
        ensures
            r.group@ == gvk.group@,
            r.version@ == gvk.version@,
            r.kind@ == gvk.kind@,
            r.plural@ == plural@,
            r.well_formed(),
    {
        ApiResource {
            api_version: gvk.api_version(),
            group: gvk.group.clone(),
            version: gvk.version.clone(),
            kind: gvk.kind.clone(),
            plural: plural.to_owned(),
        }
    }

    /// Creates an `ApiResource` from a group, version and kind, guessing the
    /// plural name from the lowercased kind. For resources with irregular
    /// plurals, prefer [`ApiResource::from_gvk_with_plural`] or API
    /// discovery.
    pub fn from_gvk(gvk: &GroupVersionKind) -> (r: ApiResource)
        ensures
            r.group@ == gvk.group@,
            r.version@ == gvk.version@,
            r.kind@ == gvk.kind@,
            r.plural@ == plural_of(lower_seq(gvk.kind@)),
            r.well_formed(),
    {
        let lowered = ascii_lowercase(gvk.kind.as_str());
        let plural = to_plural(lowered.as_str());
        ApiResource::from_gvk_with_plural(gvk, plural.as_str())
    }
}

/// Resource scope.
#[derive(Debug, Clone, Copy, Hash, Eq, PartialEq, Structural)]
pub enum Scope {
    /// Objects are global.
    Cluster,
    /// Each object lives in a namespace.
    Namespaced,
}

/// One served version of a custom resource definition.
#[derive(Debug, Clone)]
pub struct CrdVersion {
    /// The version name, such as `v1beta1`.
    pub name: String,
    /// Whether objects are persisted in this version.
    pub storage: bool,
}

/// The names a custom resource definition declares.
#[derive(Debug, Clone)]
pub struct CrdNames {
    /// Singular PascalCase kind.
    pub kind: String,
    /// Plural resource name.
    pub plural: String,
}

/// What this library reads from a custom resource definition: its group, its
/// declared names and its served versions.
#[derive(Debug, Clone)]
pub struct CustomResourceDefinition {
    /// The group the custom resource belongs to.
    pub group: String,
    /// The declared kind and plural.
    pub names: CrdNames,
    /// The served versions, in the order the definition lists them.
    pub versions: Vec<CrdVersion>,
}

/// Hint for [`ApiResource::from_crd`]: which of the definition's versions to
/// use.
pub enum ApiResourceFromCrdHint {
    /// Assume that the definition has exactly one version; otherwise nothing
    /// is selected.
    SingleVersioned,
    /// Use the given version; nothing is selected when the definition lacks
    /// it.
    Exact(String),
    /// Use the storage version, which every valid definition has.
    Storage,
}

impl ApiResourceFromCrdHint {
    /// The version this hint selects from a list: the single one, the first
    /// with the wanted name, or the first marked as the storage version.
    pub open spec fn spec_select(self, versions: Seq<CrdVersion>) -> Option<CrdVersion>
        decreases versions.len(),
    {
        match self {
            ApiResourceFromCrdHint::SingleVersioned => {
                if versions.len() == 1 {
                    Some(versions[0])
                } else {
                    None
                }
            },
            ApiResourceFromCrdHint::Exact(expected) => {
                if versions.len() == 0 {
                    None
                } else if versions[0].name@ == expected@ {
                    Some(versions[0])
                } else {
                    self.spec_select(versions.drop_first())
                }
            },
            ApiResourceFromCrdHint::Storage => {
                if versions.len() == 0 {
                    None
                } else if versions[0].storage {
                    Some(versions[0])
                } else {
                    self.spec_select(versions.drop_first())
                }
            },
        }
    }

    /// Selects the version of the definition that this hint names.
    fn select<'a>(&self, crd: &'a CustomResourceDefinition) -> (r: Option<&'a CrdVersion>)
        ensures
            match r {
                Some(v) => self.spec_select(crd.versions@) == Some(*v),
                None => self.spec_select(crd.versions@) is None,
            },
    {
        match self {
            ApiResourceFromCrdHint::SingleVersioned => {
                if crd.versions.len() == 1 {
                    Some(&crd.versions[0])
                } else {
                    None
                }
            },
            ApiResourceFromCrdHint::Exact(expected) => {
                let n = crd.versions.len();
                let mut i: usize = 0;
                while i < n
                    invariant
                        n == crd.versions@.len(),
                        i <= n,
                        forall|j: int| 0 <= j < i ==> crd.versions@[j].name@ != expected@,
                        (*self) matches ApiResourceFromCrdHint::Exact(e) && e == expected,
                    decreases n - i,
                {
                    if str_eq(crd.versions[i].name.as_str(), expected.as_str()) {
                        proof {
                            lemma_select_first_hit(*self, crd.versions@, i as int);
                        }
                        return Some(&crd.versions[i]);
                    }
                    i = i + 1;
                }
                proof {
                    lemma_select_no_hit(*self, crd.versions@);
                }
                None
            },
            ApiResourceFromCrdHint::Storage => {
                let n = crd.versions.len();
                let mut i: usize = 0;
                while i < n
                    invariant
                        n == crd.versions@.len(),
                        i <= n,
                        forall|j: int| 0 <= j < i ==> !crd.versions@[j].storage,
                        (*self) is Storage,
                    decreases n - i,
                {
                    if crd.versions[i].storage {
                        proof {
                            lemma_select_first_hit(*self, crd.versions@, i as int);
                        }
                        return Some(&crd.versions[i]);
                    }
                    i = i + 1;
                }
                proof {
                    lemma_select_no_hit(*self, crd.versions@);
                }
                None
            },
        }
    }
}

/// Whether a version matches a searching hint (`Exact` or `Storage`).
pub open spec fn hint_matches(hint: ApiResourceFromCrdHint, v: CrdVersion) -> bool {
    match hint {
        ApiResourceFromCrdHint::SingleVersioned => false,
        ApiResourceFromCrdHint::Exact(expected) => v.name@ == expected@,
        ApiResourceFromCrdHint::Storage => v.storage,
    }
}

proof fn lemma_select_first_hit(hint: ApiResourceFromCrdHint, versions: Seq<CrdVersion>, i: int)
    requires
        !(hint is SingleVersioned),
        0 <= i < versions.len(),
        hint_matches(hint, versions[i]),
        forall|j: int| 0 <= j < i ==> !hint_matches(hint, versions[j]),
    ensures
        hint.spec_select(versions) == Some(versions[i]),
    decreases i,
{
    if i == 0 {
    } else {
        lemma_select_first_hit(hint, versions.drop_first(), i - 1);
    }
}

proof fn lemma_select_no_hit(hint: ApiResourceFromCrdHint, versions: Seq<CrdVersion>)
    requires
        !(hint is SingleVersioned),
        forall|j: int| 0 <= j < versions.len() ==> !hint_matches(hint, versions[j]),
    ensures
        hint.spec_select(versions) is None,
    decreases versions.len(),
{
    if versions.len() > 0 {
        lemma_select_no_hit(hint, versions.drop_first());
    }
}

impl ApiResource {
    /// Returns the `ApiResource` for the custom resource a definition
    /// declares, using the version the hint selects.
    pub fn from_crd(crd: &CustomResourceDefinition, hint: &ApiResourceFromCrdHint) -> (r: Option<
        ApiResource,
    >)
        ensures
            match r {
                Some(res) => {
                    &&& hint.spec_select(crd.versions@) is Some
                    &&& res.group@ == crd.group@
                    &&& res.version@ == hint.spec_select(crd.versions@)->Some_0.name@
                    &&& res.kind@ == crd.names.kind@
                    &&& res.plural@ == crd.names.plural@
                    &&& res.well_formed()
                },
                None => hint.spec_select(crd.versions@) is None,
            },
    {
        let selected = match hint.select(crd) {
            Some(v) => v,
            None => {
                return None;
            },
        };
        let gvk = GroupVersionKind {
            group: crd.group.clone(),
            version: selected.name.clone(),
            kind: crd.names.kind.clone(),
        };
        Some(ApiResource::from_gvk_with_plural(&gvk, crd.names.plural.as_str()))
    }
}

/// The capabilities of an API resource, as discovery reports them.
#[derive(Debug)]
pub struct ApiCapabilities {
    /// Scope of the resource.
    pub scope: Scope,
    /// Available subresources, each with its own capabilities.
    pub subresources: Vec<(ApiResource, ApiCapabilities)>,
    /// Supported operations on this resource.
    pub operations: Vec<String>,
}

impl ApiCapabilities {
    /// Checks that the given verb is supported on this resource.
    pub fn supports_operation(&self, operation: &str) -> (r: bool)
        ensures
            r == exists|i: int|
                0 <= i < self.operations@.len() && self.operations@[i]@ == operation@,
    {
        let n = self.operations.len();
        let mut i: usize = 0;
        while i < n
            invariant
                n == self.operations@.len(),
                i <= n,
                forall|j: int| 0 <= j < i ==> self.operations@[j]@ != operation@,
            decreases n - i,
        {
            if str_eq(self.operations[i].as_str(), operation) {
                return true;
            }
            i = i + 1;
        }
        false
    }
}

} // verus!
