//! Predicate-driven waits: a condition on the observed state of one object,
//! evaluated on the initial get and then on every watch observation, that
//! resolves exactly at the first observation on which it holds.

use vstd::prelude::*;

verus! {

use crate::object::PartialObject;

/// A pure predicate on the observed state of an object: `None` stands for
/// "the object does not exist".
pub trait Condition<K> {
    /// What the condition means.
    spec fn spec_matches(&self, obj: Option<K>) -> bool;

    /// Evaluates the condition on one observation.
    fn matches_object(&self, obj: &Option<K>) -> (r: bool)
        ensures
            r == self.spec_matches(*obj),
    ;
}

/// A wait for a condition: fed one observation at a time — the initial get
/// first, then each watch event's view of the object — it resolves at the
/// first observation on which the condition holds.
pub struct ConditionWait<C> {
    condition: C,
    resolved: bool,
}

impl<C> ConditionWait<C> {
    /// Whether the wait has resolved.
    pub closed spec fn spec_resolved(&self) -> bool {
        self.resolved
    }

    /// The condition waited for.
    pub closed spec fn spec_condition(&self) -> C {
        self.condition
    }

    /// A pending wait on the given condition.
    pub fn new(condition: C) -> (r: ConditionWait<C>)
        ensures
            !r.spec_resolved(),
            r.spec_condition() == condition,
    {
        ConditionWait { condition, resolved: false }
    }

    /// Whether the wait has resolved.
    pub fn is_resolved(&self) -> (r: bool)
        ensures
            r == self.spec_resolved(),
    {
        self.resolved
    }
}

impl<C> ConditionWait<C> {
    /// Law: feeds one observation; the wait resolves on it exactly when the
    /// condition holds of it, and a resolved wait stays resolved.
    pub fn observe<K>(&mut self, obj: &Option<K>) -> (r: bool) where C: Condition<K>
        ensures
            final(self).spec_condition() == old(self).spec_condition(),
            final(self).spec_resolved() == (old(self).spec_resolved() || old(
                self,
            ).spec_condition().spec_matches(*obj)),
            r == final(self).spec_resolved(),
    {
        if !self.resolved {
            if self.condition.matches_object(obj) {
                self.resolved = true;
            }
        }
        self.resolved
    }
}

/// Law: the index at which a wait over these observations resolves is
/// exactly the first index whose observation satisfies the condition — no
/// earlier, no later.
pub fn first_match_index<K, C: Condition<K>>(condition: &C, observations: &Vec<Option<K>>) -> (r:
    Option<usize>)
    ensures
        match r {
            Some(i) => {
                &&& i < observations@.len()
                &&& condition.spec_matches(observations@[i as int])
                &&& forall|j: int|
                    0 <= j < i ==> !condition.spec_matches(#[trigger] observations@[j])
            },
            None => forall|j: int|
                0 <= j < observations@.len() ==> !condition.spec_matches(
                    #[trigger] observations@[j],
                ),
        },
{
    let n = observations.len();
    let mut i: usize = 0;
    while i < n
        invariant
            n == observations@.len(),
            i <= n,
            forall|j: int| 0 <= j < i ==> !condition.spec_matches(#[trigger] observations@[j]),
        decreases n - i,
    {
        if condition.matches_object(&observations[i]) {
            return Some(i);
        }
        i = i + 1;
    }
    None
}

/// The condition that an object with the given `uid` is gone: it holds when
/// the object is absent, carries no `uid`, or carries a different one — the
/// name then belongs to a new object.
#[derive(Debug, Clone)]
pub struct IsDeleted {
    /// The `uid` of the object whose deletion is awaited.
    pub uid: String,
}

/// The deletion condition for the object with the given `uid`.
pub fn is_deleted(uid: &str) -> (r: IsDeleted)
    ensures
        r.uid@ == uid@,
{
    IsDeleted { uid: uid.to_owned() }
}

impl Condition<PartialObject> for IsDeleted {
    open spec fn spec_matches(&self, obj: Option<PartialObject>) -> bool {
        match obj {
            None => true,
            Some(o) => match o.metadata.uid {
                Some(u) => u@ != self.uid@,
                None => true,
            },
        }
    }

    fn matches_object(&self, obj: &Option<PartialObject>) -> (r: bool) {
        match obj {
            None => true,
            Some(o) => match &o.metadata.uid {
                Some(u) => !crate::strutil::str_eq(u.as_str(), self.uid.as_str()),
                None => true,
            },
        }
    }
}

} // verus!
