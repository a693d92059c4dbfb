//! The reflected in-memory store: a mirror of server state keyed by
//! `(namespace, name)`, driven by watch events, and the reflector that
//! applies each event before forwarding it.
//!
//! Writer semantics: `Applied` inserts or overwrites, `Deleted` removes, and
//! `Restarted` atomically replaces the whole keyset. The store's view is a
//! `Map` from key to object, and every mutation's contract says exactly how
//! the map changes, so the state after any event history is the replay of
//! that history on the empty map ([`lemma_store_replay`]).

use vstd::prelude::*;

verus! {

use crate::watcher::Event;

/// The identity of an object: its namespace — empty for cluster-scoped
/// objects — and its name.
#[derive(Debug, Clone, Hash, Eq, PartialEq)]
pub struct ObjectRef {
    /// Namespace the object lives in; empty for cluster-scoped objects.
    pub namespace: String,
    /// Object name.
    pub name: String,
}

impl View for ObjectRef {
    type V = (Seq<char>, Seq<char>);

    open spec fn view(&self) -> (Seq<char>, Seq<char>) {
        (self.namespace@, self.name@)
    }
}

impl ObjectRef {
    /// Whether two keys denote the same object.
    pub fn matches(&self, other: &ObjectRef) -> (r: bool)
        ensures
            r == (self@ == other@),
    {
        let same = crate::strutil::str_eq(self.namespace.as_str(), other.namespace.as_str())
            && crate::strutil::str_eq(self.name.as_str(), other.name.as_str());
        proof {
            if self.namespace@ == other.namespace@ && self.name@ == other.name@ {
                assert(self@ == other@);
            }
        }
        same
    }
}

/// What the store needs of an object: a key, and a way to copy the object
/// into the store while the original travels on downstream.
pub trait Lookup: Sized {
    /// The `(namespace, name)` key of this object.
    spec fn spec_key(&self) -> (Seq<char>, Seq<char>);

    /// Computes the key of this object.
    fn key(&self) -> (r: ObjectRef)
        ensures
            r@ == self.spec_key(),
    ;

    /// An equal copy of this object.
    fn duplicate(&self) -> (r: Self)
        ensures
            r == *self,
    ;
}

/// The map a list of objects denotes: each object under its key, later
/// entries winning over earlier ones with the same key.
pub open spec fn map_of_list<K: Lookup>(l: Seq<K>) -> Map<(Seq<char>, Seq<char>), K>
    decreases l.len(),
{
    if l.len() == 0 {
        Map::empty()
    } else {
        map_of_list(l.drop_last()).insert(l.last().spec_key(), l.last())
    }
}

/// How one watch event transforms the store's map.
pub open spec fn apply_event_spec<K: Lookup>(
    m: Map<(Seq<char>, Seq<char>), K>,
    e: Event<K>,
) -> Map<(Seq<char>, Seq<char>), K> {
    match e {
        Event::Applied(o) => m.insert(o.spec_key(), o),
        Event::Deleted(o) => m.remove(o.spec_key()),
        Event::Restarted(l) => map_of_list(l@),
    }
}

/// The map a sequence of events leaves behind when replayed on the empty map.
pub open spec fn replay<K: Lookup>(events: Seq<Event<K>>) -> Map<(Seq<char>, Seq<char>), K>
    decreases events.len(),
{
    if events.len() == 0 {
        Map::empty()
    } else {
        apply_event_spec(replay(events.drop_last()), events.last())
    }
}

/// The map an entry list denotes.
pub open spec fn assoc_map<K: Lookup>(es: Seq<(ObjectRef, K)>) -> Map<(Seq<char>, Seq<char>), K>
    decreases es.len(),
{
    if es.len() == 0 {
        Map::empty()
    } else {
        assoc_map(es.drop_last()).insert(es.last().0@, es.last().1)
    }
}

/// Entry lists the store maintains: distinct keys, each recorded key being
/// the object's own.
pub open spec fn wf_entries<K: Lookup>(es: Seq<(ObjectRef, K)>) -> bool {
    &&& forall|i: int, j: int| 0 <= i < j < es.len() ==> es[i].0@ != es[j].0@
    &&& forall|i: int| 0 <= i < es.len() ==> es[i].0@ == es[i].1.spec_key()
}

proof fn lemma_assoc_map_absent<K: Lookup>(es: Seq<(ObjectRef, K)>, k: (Seq<char>, Seq<char>))
    requires
        forall|i: int| 0 <= i < es.len() ==> es[i].0@ != k,
    ensures
        !assoc_map(es).contains_key(k),
    decreases es.len(),
{
    if es.len() > 0 {
        lemma_assoc_map_absent(es.drop_last(), k);
    }
}

proof fn lemma_assoc_map_present<K: Lookup>(es: Seq<(ObjectRef, K)>, i: int)
    requires
        wf_entries(es),
        0 <= i < es.len(),
    ensures
        assoc_map(es).contains_pair(es[i].0@, es[i].1),
    decreases es.len(),
{
    if i + 1 == es.len() {
    } else {
        lemma_assoc_map_present(es.drop_last(), i);
    }
}

proof fn lemma_assoc_map_remove<K: Lookup>(es: Seq<(ObjectRef, K)>, i: int)
    requires
        wf_entries(es),
        0 <= i < es.len(),
    ensures
        assoc_map(es.remove(i)) == assoc_map(es).remove(es[i].0@),
    decreases es.len(),
{
    if i + 1 == es.len() {
        assert(es.remove(i) =~= es.drop_last());
        lemma_assoc_map_absent(es.drop_last(), es[i].0@);
        assert(assoc_map(es.drop_last()) =~= assoc_map(es.drop_last()).insert(
            es[i].0@,
            es[i].1,
        ).remove(es[i].0@));
    } else {
        lemma_assoc_map_remove(es.drop_last(), i);
        assert(es.remove(i).drop_last() =~= es.drop_last().remove(i));
        assert(es.remove(i).last() == es.last());
        assert(assoc_map(es.remove(i)) == assoc_map(es.drop_last().remove(i)).insert(
            es.last().0@,
            es.last().1,
        ));
        assert(assoc_map(es.drop_last()).remove(es[i].0@).insert(es.last().0@, es.last().1)
            =~= assoc_map(es.drop_last()).insert(es.last().0@, es.last().1).remove(es[i].0@));
    }
}

/// The local mirror of one watched collection, keyed by `(namespace, name)`.
///
/// This is the sequential core: the writing side applies events through
/// [`Store::apply_watcher_event`]; the reading side takes snapshots and
/// lookups. The surrounding runtime shares it behind its chosen
/// synchronization, cloning a snapshot out for each reader.
pub struct Store<K> {
    entries: Vec<(ObjectRef, K)>,
    version: u64,
    ready: bool,
}

impl<K: Lookup> View for Store<K> {
    type V = Map<(Seq<char>, Seq<char>), K>;

    closed spec fn view(&self) -> Map<(Seq<char>, Seq<char>), K> {
        assoc_map(self.entries@)
    }
}

impl<K: Lookup> Store<K> {
    /// The store's structural invariant: entry keys are distinct and honest.
    pub closed spec fn inv(&self) -> bool {
        wf_entries(self.entries@)
    }

    /// The version stamp, incremented on every mutation.
    pub closed spec fn spec_version(&self) -> u64 {
        self.version
    }

    /// Whether a first `Restarted` has been applied.
    pub closed spec fn spec_ready(&self) -> bool {
        self.ready
    }

    /// An empty, not yet ready store.
    pub fn new() -> (r: Store<K>)
        ensures
            r.inv(),
            r@ == Map::<(Seq<char>, Seq<char>), K>::empty(),
            r.spec_version() == 0,
            !r.spec_ready(),
    {
        let r = Store { entries: Vec::new(), version: 0, ready: false };
        proof {
            assert(r@ =~= Map::<(Seq<char>, Seq<char>), K>::empty());
        }
        r
    }

    /// The version stamp, incremented on every mutation.
    pub fn version(&self) -> (r: u64)
        ensures
            r == self.spec_version(),
    {
        self.version
    }

    /// Whether the first `Restarted` has been applied, so that readers see a
    /// complete snapshot rather than a store that merely has not filled yet.
    pub fn is_ready(&self) -> (r: bool)
        ensures
            r == self.spec_ready(),
    {
        self.ready
    }

    fn find_index(&self, key: &ObjectRef) -> (r: Option<usize>)
        ensures
            match r {
                Some(i) => i < self.entries@.len() && self.entries@[i as int].0@ == key@,
                None => forall|i: int| 0 <= i < self.entries@.len() ==> self.entries@[i].0@ != key@,
            },
    {
        let n = self.entries.len();
        let mut i: usize = 0;
        while i < n
            invariant
                n == self.entries@.len(),
                i <= n,
                forall|j: int| 0 <= j < i ==> self.entries@[j].0@ != key@,
            decreases n - i,
        {
            if self.entries[i].0.matches(key) {
                return Some(i);
            }
            i = i + 1;
        }
        None
    }

    fn upsert(&mut self, obj: K)
        requires
            old(self).inv(),
        ensures
            final(self).inv(),
            final(self)@ == old(self)@.insert(obj.spec_key(), obj),
            final(self).version == old(self).version,
            final(self).ready == old(self).ready,
    {
        let key = obj.key();
        match self.find_index(&key) {
            Some(i) => {
                proof {
                    lemma_assoc_map_remove(self.entries@, i as int);
                }
                let ghost pre = self.entries@;
                self.entries.remove(i);
                proof {
                    assert forall|a: int, b: int|
                        0 <= a < b < self.entries@.len() implies self.entries@[a].0@
                        != self.entries@[b].0@ by {
                        assert(self.entries@ == pre.remove(i as int));
                    }
                }
                self.entries.push((key, obj));
                proof {
                    assert(self.entries@.drop_last() =~= pre.remove(i as int));
                    assert(assoc_map(self.entries@) =~= assoc_map(pre).remove(
                        pre[i as int].0@,
                    ).insert(obj.spec_key(), obj));
                    assert(assoc_map(pre).remove(pre[i as int].0@).insert(obj.spec_key(), obj)
                        =~= assoc_map(pre).insert(obj.spec_key(), obj));
                }
            },
            None => {
                let ghost pre = self.entries@;
                proof {
                    lemma_assoc_map_absent(pre, key@);
                }
                self.entries.push((key, obj));
                proof {
                    assert(self.entries@.drop_last() =~= pre);
                }
            },
        }
    }

    /// Applies one watch event: `Applied` inserts or overwrites the object
    /// under its key, `Deleted` removes the key, and `Restarted` replaces
    /// the whole contents with the carried list — atomically, from any
    /// reader's point of view, because the writer holds the store
    /// exclusively for the whole call. The version stamp always moves, and
    /// the store becomes ready on the first `Restarted`.
    pub fn apply_watcher_event(&mut self, event: &Event<K>)
        requires
            old(self).inv(),
            old(self).spec_version() < u64::MAX,
        ensures
            final(self).inv(),
            final(self)@ == apply_event_spec(old(self)@, *event),
            final(self).spec_version() == old(self).spec_version() + 1,
            final(self).spec_ready() == (old(self).spec_ready() || *event is Restarted),
    {
        match event {
            Event::Applied(obj) => {
                self.upsert(obj.duplicate());
            },
            Event::Deleted(obj) => {
                let key = obj.key();
                match self.find_index(&key) {
                    Some(i) => {
                        proof {
                            lemma_assoc_map_remove(self.entries@, i as int);
                        }
                        let ghost pre = self.entries@;
                        self.entries.remove(i);
                        proof {
                            assert forall|a: int, b: int|
                                0 <= a < b < self.entries@.len() implies self.entries@[a].0@
                                != self.entries@[b].0@ by {
                                assert(self.entries@ == pre.remove(i as int));
                            }
                        }
                    },
                    None => {
                        proof {
                            lemma_assoc_map_absent(self.entries@, key@);
                            assert(assoc_map(self.entries@) =~= assoc_map(self.entries@).remove(
                                key@,
                            ));
                        }
                    },
                }
            },
            Event::Restarted(list) => {
                self.entries.clear();
                proof {
                    assert(assoc_map(self.entries@) =~= Map::<(Seq<char>, Seq<char>), K>::empty());
                }
                let ghost v0 = self.version;
                let ghost r0 = self.ready;
                let n = list.len();
                let mut i: usize = 0;
                while i < n
                    invariant
                        n == list@.len(),
                        i <= n,
                        self.inv(),
                        self.version == v0,
                        self.ready == r0,
                        v0 < u64::MAX,
                        assoc_map(self.entries@) == map_of_list(list@.subrange(0, i as int)),
                    decreases n - i,
                {
                    self.upsert(list[i].duplicate());
                    proof {
                        assert(list@.subrange(0, i + 1 as int).drop_last() =~= list@.subrange(
                            0,
                            i as int,
                        ));
                        assert(list@.subrange(0, i + 1 as int).last() == list@[i as int]);
                    }
                    i = i + 1;
                }
                proof {
                    assert(list@.subrange(0, n as int) =~= list@);
                }
                self.ready = true;
            },
        }
        self.version = self.version + 1;
    }

    /// Looks one object up by key.
    pub fn get(&self, key: &ObjectRef) -> (r: Option<&K>)
        requires
            self.inv(),
        ensures
            match r {
                Some(o) => self@.contains_key(key@) && *o == self@[key@],
                None => !self@.contains_key(key@),
            },
    {
        match self.find_index(key) {
            Some(i) => {
                proof {
                    lemma_assoc_map_present(self.entries@, i as int);
                }
                Some(&self.entries[i].1)
            },
            None => {
                proof {
                    lemma_assoc_map_absent(self.entries@, key@);
                }
                None
            },
        }
    }

    /// A snapshot of the store: every stored object exactly once, under its
    /// own key. Mutations after the call do not touch the returned vector.
    pub fn state(&self) -> (r: Vec<K>)
        requires
            self.inv(),
        ensures
            forall|i: int|
                0 <= i < r@.len() ==> #[trigger] self@.contains_pair(r@[i].spec_key(), r@[i]),
            forall|k: (Seq<char>, Seq<char>)| #[trigger]
                self@.contains_key(k) ==> exists|i: int|
                    0 <= i < r@.len() && #[trigger] r@[i].spec_key() == k,
            forall|i: int, j: int| 0 <= i < j < r@.len() ==> r@[i].spec_key() != r@[j].spec_key(),
    {
        let n = self.entries.len();
        let mut out: Vec<K> = Vec::new();
        let mut i: usize = 0;
        while i < n
            invariant
                n == self.entries@.len(),
                i <= n,
                self.inv(),
                out@.len() == i,
                forall|j: int| 0 <= j < i ==> out@[j] == self.entries@[j].1,
            decreases n - i,
        {
            out.push(self.entries[i].1.duplicate());
            i = i + 1;
        }
        proof {
            assert forall|j: int| 0 <= j < out@.len() implies #[trigger] self@.contains_pair(
                out@[j].spec_key(),
                out@[j],
            ) by {
                lemma_assoc_map_present(self.entries@, j);
            }
            assert forall|k: (Seq<char>, Seq<char>)| #[trigger]
                self@.contains_key(k) implies exists|j: int|
                0 <= j < out@.len() && #[trigger] out@[j].spec_key() == k by {
                lemma_assoc_map_some_entry(self.entries@, k);
                let j = choose|j: int|
                    0 <= j < self.entries@.len() && self.entries@[j].0@ == k;
                assert(out@[j].spec_key() == k);
            }
        }
        out
    }
}

proof fn lemma_assoc_map_some_entry<K: Lookup>(
    es: Seq<(ObjectRef, K)>,
    k: (Seq<char>, Seq<char>),
)
    requires
        assoc_map(es).contains_key(k),
    ensures
        exists|i: int| 0 <= i < es.len() && es[i].0@ == k,
    decreases es.len(),
{
    if es.len() > 0 {
        if es.last().0@ == k {
            assert(es[es.len() - 1].0@ == k);
        } else {
            lemma_assoc_map_some_entry(es.drop_last(), k);
            let i = choose|i: int| 0 <= i < es.drop_last().len() && es.drop_last()[i].0@ == k;
            assert(es[i].0@ == k);
        }
    }
}

/// Law: a writer that starts empty and applies `events` in order ends at
/// exactly the replay of those events on the empty map — its state is a pure
/// function of the event history.
pub proof fn lemma_store_replay<K: Lookup>(
    events: Seq<Event<K>>,
    states: Seq<Map<(Seq<char>, Seq<char>), K>>,
)
    requires
        states.len() == events.len() + 1,
        states[0] == Map::<(Seq<char>, Seq<char>), K>::empty(),
        forall|i: int|
            0 <= i < events.len() ==> states[i + 1] == apply_event_spec(states[i], events[i]),
    ensures
        states[events.len() as int] == replay(events),
    decreases events.len(),
{
    if events.len() > 0 {
        lemma_store_replay(events.drop_last(), states.drop_last());
        assert(states.drop_last()[events.len() - 1] == states[events.len() - 1]);
        assert(states[events.len() as int] == apply_event_spec(
            states[events.len() - 1],
            events[events.len() - 1],
        ));
    }
}

/// Law: the keyset a `Restarted(l)` leaves behind is exactly the keys of the
/// objects in `l` — neither a subset nor a superset, whatever was stored
/// before.
pub proof fn lemma_restart_keyset<K: Lookup>(
    m: Map<(Seq<char>, Seq<char>), K>,
    l: Vec<K>,
)
    ensures
        apply_event_spec(m, Event::Restarted(l)).dom() =~= Set::new(
            |k: (Seq<char>, Seq<char>)|
                exists|i: int| 0 <= i < l@.len() && #[trigger] l@[i].spec_key() == k,
        ),
{
    lemma_map_of_list_dom(l@);
}

proof fn lemma_map_of_list_dom<K: Lookup>(l: Seq<K>)
    ensures
        map_of_list(l).dom() =~= Set::new(
            |k: (Seq<char>, Seq<char>)|
                exists|i: int| 0 <= i < l.len() && #[trigger] l[i].spec_key() == k,
        ),
    decreases l.len(),
{
    if l.len() > 0 {
        lemma_map_of_list_dom(l.drop_last());
        assert forall|k: (Seq<char>, Seq<char>)|
            map_of_list(l).dom().contains(k) implies exists|i: int|
            0 <= i < l.len() && #[trigger] l[i].spec_key() == k by {
            if k == l.last().spec_key() {
                assert(l[l.len() - 1].spec_key() == k);
            } else {
                let i = choose|i: int|
                    0 <= i < l.drop_last().len() && #[trigger] l.drop_last()[i].spec_key() == k;
                assert(l[i].spec_key() == k);
            }
        }
        assert forall|k: (Seq<char>, Seq<char>)|
            (exists|i: int| 0 <= i < l.len() && #[trigger] l[i].spec_key() == k)
            implies map_of_list(l).dom().contains(k) by {
            let i = choose|i: int| 0 <= i < l.len() && #[trigger] l[i].spec_key() == k;
            if i == l.len() - 1 {
            } else {
                assert(l.drop_last()[i].spec_key() == k);
            }
        }
    }
}

/// The pipeline that consumes watch events, applies each to the store, and
/// yields it onward unchanged, so that a consumer who has seen an event is
/// guaranteed to find its effect in the store.
pub struct Reflector<K> {
    store: Store<K>,
}

impl<K: Lookup> Reflector<K> {
    /// The reflector's structural invariant: its store's.
    pub closed spec fn inv(&self) -> bool {
        self.store.inv()
    }

    /// The store's contents.
    pub closed spec fn view(&self) -> Map<(Seq<char>, Seq<char>), K> {
        self.store@
    }

    /// The store's version stamp.
    pub closed spec fn spec_version(&self) -> u64 {
        self.store.spec_version()
    }

    /// Whether the store has seen its first `Restarted`.
    pub closed spec fn spec_ready(&self) -> bool {
        self.store.spec_ready()
    }

    /// A reflector over a fresh, empty store.
    pub fn new() -> (r: Reflector<K>)
        ensures
            r.inv(),
            r@ == Map::<(Seq<char>, Seq<char>), K>::empty(),
            r.spec_version() == 0,
            !r.spec_ready(),
    {
        Reflector { store: Store::new() }
    }

    /// The reading side of the store.
    pub fn store(&self) -> (r: &Store<K>)
        ensures
            r@ == self@,
            r.inv() == self.inv(),
            r.spec_version() == self.spec_version(),
            r.spec_ready() == self.spec_ready(),
    {
        &self.store
    }

    /// Law: applies the event to the store and forwards it unchanged. When
    /// this returns an event to the consumer, the store already holds that
    /// event's effect: a reader who observed event `E` here never sees a
    /// store state preceding `E`.
    pub fn step(&mut self, event: Event<K>) -> (r: Event<K>)
        requires
            old(self).inv(),
            old(self).spec_version() < u64::MAX,
        ensures
            final(self).inv(),
            r == event,
            final(self)@ == apply_event_spec(old(self)@, event),
            final(self).spec_version() == old(self).spec_version() + 1,
            final(self).spec_ready() == (old(self).spec_ready() || event is Restarted),
    {
        self.store.apply_watcher_event(&event);
        event
    }
}

} // verus!
