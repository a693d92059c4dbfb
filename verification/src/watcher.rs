//! The restartable list-then-watch state machine and the events it emits.

use vstd::prelude::*;

verus! {

use crate::meta::Status;

/// An event the watcher yields to its consumers. `Restarted` carries a full
/// snapshot that supersedes any prior state for this watcher.
#[derive(Debug, PartialEq)]
pub enum Event<K> {
    /// An object was added or modified.
    Applied(K),
    /// An object was deleted.
    Deleted(K),
    /// The watch was restarted: the carried list is a complete snapshot.
    Restarted(Vec<K>),
}

/// An error surfaced on the watcher's event stream.
#[derive(Debug, PartialEq)]
pub enum Error {
    /// The initial or paged list request failed; carries the transport or
    /// server message.
    InitialListFailed(String),
    /// The watch request could not be started.
    WatchStartFailed(String),
    /// The server sent a structured error event on the watch.
    WatchError(Status),
    /// The watch connection failed mid-stream.
    WatchFailed(String),
    /// A list response carried no `resourceVersion` to resume from.
    NoResourceVersion,
    /// The server reported more objects than this watcher accepts.
    TooManyObjects,
}

/// One raw event received on a watch connection, as decoded off the wire.
#[derive(Debug, PartialEq)]
pub enum WireEvent<K> {
    /// `ADDED`: a new object.
    Added(K),
    /// `MODIFIED`: a changed object.
    Modified(K),
    /// `DELETED`: a removed object.
    Deleted(K),
    /// `BOOKMARK`: only a newer `resourceVersion` to resume from.
    Bookmark {
        /// The version to checkpoint.
        resource_version: String,
    },
    /// `ERROR`: a structured error from the server.
    ErrorStatus(Status),
}

/// The outcome of one list-page request the driver performed.
#[derive(Debug, PartialEq)]
pub enum ListOutcome<K> {
    /// A page arrived: its items, the token for the next page if any, and
    /// the list's own `resourceVersion`.
    Page {
        /// The objects on this page.
        items: Vec<K>,
        /// The token to fetch the next page, when the server has more.
        continue_token: Option<String>,
        /// The `resourceVersion` of the `ObjectList` itself.
        resource_version: Option<String>,
    },
    /// The request failed; carries the transport or server message.
    Failed(String),
}

/// The outcome of polling the watch connection once.
#[derive(Debug, PartialEq)]
pub enum WatchOutcome<K> {
    /// One decoded event.
    Received(WireEvent<K>),
    /// The stream ended cleanly.
    Closed,
    /// The connection failed; carries the transport message.
    Failed(String),
}

/// Either kind of outcome, for stating trace laws over whole runs.
pub enum WatcherInput<K> {
    /// The outcome of a list-page request.
    List(ListOutcome<K>),
    /// The outcome of polling the watch.
    Watch(WatchOutcome<K>),
}

/// What the watcher asks its driver to perform next.
#[derive(Debug, PartialEq)]
pub enum WatcherRequest {
    /// Fetch one page of the list, continuing from the token when present.
    List {
        /// `None` for the first page.
        continue_token: Option<String>,
    },
    /// Open or poll a watch from this `resourceVersion`.
    Watch {
        /// The version to resume from.
        resource_version: String,
    },
}

/// Where a watcher stands.
pub enum WatcherState<K> {
    /// Nothing listed yet, or the last snapshot was invalidated: a full
    /// relist is required.
    Empty,
    /// Mid-pagination: the pages accumulated so far and the token for the
    /// next one.
    ListPage {
        /// The continue token for the next page.
        continue_token: Option<String>,
        /// All items of the pages fetched so far.
        objects: Vec<K>,
    },
    /// A snapshot was emitted; watching from this version.
    Watching {
        /// The version to resume from.
        resource_version: String,
    },
}

/// What one step emits downstream, if anything.
pub type Emit<K> = Option<Result<Event<K>, Error>>;

/// Whether an emitted item passes an object through (`Applied` or
/// `Deleted`).
pub open spec fn emits_touch<K>(o: Emit<K>) -> bool {
    ||| o matches Some(Ok(Event::Applied(_)))
    ||| o matches Some(Ok(Event::Deleted(_)))
}

/// Whether an emitted item is a snapshot.
pub open spec fn emits_restart<K>(o: Emit<K>) -> bool {
    o matches Some(Ok(Event::Restarted(_)))
}

/// The objects accumulated so far in the list phase.
pub open spec fn list_acc<K>(s: WatcherState<K>) -> Seq<K> {
    match s {
        WatcherState::ListPage { objects, .. } => objects@,
        _ => Seq::empty(),
    }
}

/// The list-phase transition: a failed page restarts the whole list; a page
/// with a continue token only accumulates; the final page emits `Restarted`
/// with everything accumulated and moves to watching at the list's own
/// version, or fails when the list carried none.
pub open spec fn step_list_rel<K>(
    s: WatcherState<K>,
    outcome: ListOutcome<K>,
    s2: WatcherState<K>,
    out: Emit<K>,
) -> bool {
    match outcome {
        ListOutcome::Failed(msg) => s2 is Empty && out == Some(
            Err::<Event<K>, Error>(Error::InitialListFailed(msg)),
        ),
        ListOutcome::Page { items, continue_token: next, resource_version } => {
            if next is Some {
                &&& s2 matches WatcherState::ListPage { continue_token, objects }
                    && continue_token == next && objects@ == list_acc(s) + items@
                &&& out is None
            } else {
                match resource_version {
                    Some(rv) => {
                        &&& s2 == (WatcherState::<K>::Watching { resource_version: rv })
                        &&& out matches Some(Ok(Event::Restarted(l))) && l@ == list_acc(s)
                            + items@
                    },
                    None => s2 is Empty && out == Some(Err::<Event<K>, Error>(Error::NoResourceVersion)),
                }
            }
        },
    }
}

/// The watch-phase transition: `ADDED`/`MODIFIED` pass through as `Applied`,
/// `DELETED` as `Deleted`; a bookmark only moves the resume version; an
/// error event forces a relist, silently when it means `Gone`; a clean close
/// keeps the same version to reconnect with; a transport failure surfaces
/// but keeps the version.
pub open spec fn step_watch_rel<K>(
    s: WatcherState<K>,
    outcome: WatchOutcome<K>,
    s2: WatcherState<K>,
    out: Emit<K>,
) -> bool {
    match outcome {
        WatchOutcome::Received(ev) => match ev {
            WireEvent::Added(o) => s2 == s && out == Some(Ok::<Event<K>, Error>(Event::Applied(o))),
            WireEvent::Modified(o) => s2 == s && out == Some(Ok::<Event<K>, Error>(Event::Applied(o))),
            WireEvent::Deleted(o) => s2 == s && out == Some(Ok::<Event<K>, Error>(Event::Deleted(o))),
            WireEvent::Bookmark { resource_version } => s2 == (WatcherState::<K>::Watching {
                resource_version,
            }) && out is None,
            WireEvent::ErrorStatus(status) => s2 is Empty && if status.spec_is_gone() {
                out is None
            } else {
                out == Some(Err::<Event<K>, Error>(Error::WatchError(status)))
            },
        },
        WatchOutcome::Closed => s2 == s && out is None,
        WatchOutcome::Failed(msg) => s2 == s && out == Some(Err::<Event<K>, Error>(Error::WatchFailed(msg))),
    }
}

/// The whole transition relation: list outcomes drive the list phase, watch
/// outcomes the watch phase, and an outcome of the wrong phase changes
/// nothing.
pub open spec fn step_rel<K>(
    s: WatcherState<K>,
    input: WatcherInput<K>,
    s2: WatcherState<K>,
    out: Emit<K>,
) -> bool {
    match input {
        WatcherInput::List(o) => if !(s is Watching) {
            step_list_rel(s, o, s2, out)
        } else {
            s2 == s && out is None
        },
        WatcherInput::Watch(o) => if s is Watching {
            step_watch_rel(s, o, s2, out)
        } else {
            s2 == s && out is None
        },
    }
}

/// The restartable list-then-watch machine. The driver asks
/// [`Watcher::desired_request`] what to perform, performs it outside, and
/// hands the outcome back through [`Watcher::step_list`] or
/// [`Watcher::step_watch`]; whatever those emit is the watcher's event
/// stream.
pub struct Watcher<K> {
    state: WatcherState<K>,
}

impl<K> Watcher<K> {
    /// The current state.
    pub closed spec fn spec_state(&self) -> WatcherState<K> {
        self.state
    }

    /// A watcher that has seen nothing and will list from scratch.
    pub fn new() -> (r: Watcher<K>)
        ensures
            r.spec_state() is Empty,
    {
        Watcher { state: WatcherState::Empty }
    }

    /// Whether the next request is a list page rather than a watch poll.
    pub open spec fn spec_in_list_phase(&self) -> bool {
        !(self.spec_state() is Watching)
    }

    /// What the driver should perform next: the pending page while listing —
    /// the whole list again from the start after a failure or an invalidated
    /// snapshot — or a watch resumed at exactly the recorded
    /// `resourceVersion`.
    pub fn desired_request(&self) -> (r: WatcherRequest)
        ensures
            match self.spec_state() {
                WatcherState::Empty => r == (WatcherRequest::List {
                    continue_token: Option::<String>::None,
                }),
                WatcherState::ListPage { continue_token, .. } => r == (WatcherRequest::List {
                    continue_token,
                }),
                WatcherState::Watching { resource_version } => r == (WatcherRequest::Watch {
                    resource_version,
                }),
            },
    {
        match &self.state {
            WatcherState::Empty => WatcherRequest::List { continue_token: None },
            WatcherState::ListPage { continue_token, .. } => WatcherRequest::List {
                continue_token: match continue_token {
                    Some(t) => Some(t.clone()),
                    None => None,
                },
            },
            WatcherState::Watching { resource_version } => WatcherRequest::Watch {
                resource_version: resource_version.clone(),
            },
        }
    }

    /// Feeds the outcome of a list-page request into the machine.
    pub fn step_list(&mut self, outcome: ListOutcome<K>) -> (r: Emit<K>)
        requires
            old(self).spec_in_list_phase(),
        ensures
            step_rel(
                old(self).spec_state(),
                WatcherInput::List(outcome),
                final(self).spec_state(),
                r,
            ),
    {
        let mut taken = WatcherState::Empty;
        core::mem::swap(&mut self.state, &mut taken);
        let acc = match taken {
            WatcherState::ListPage { objects, .. } => objects,
            _ => Vec::new(),
        };
        match outcome {
            ListOutcome::Failed(msg) => {
                self.state = WatcherState::Empty;
                Some(Err(Error::InitialListFailed(msg)))
            },
            ListOutcome::Page { items, continue_token: next, resource_version } => {
                let mut acc = acc;
                let mut items = items;
                acc.append(&mut items);
                match next {
                    Some(t) => {
                        self.state = WatcherState::ListPage {
                            continue_token: Some(t),
                            objects: acc,
                        };
                        None
                    },
                    None => match resource_version {
                        Some(rv) => {
                            self.state = WatcherState::Watching { resource_version: rv };
                            Some(Ok(Event::Restarted(acc)))
                        },
                        None => {
                            self.state = WatcherState::Empty;
                            Some(Err(Error::NoResourceVersion))
                        },
                    },
                }
            },
        }
    }

    /// Feeds the outcome of one watch poll into the machine.
    pub fn step_watch(&mut self, outcome: WatchOutcome<K>) -> (r: Emit<K>)
        requires
            old(self).spec_state() is Watching,
        ensures
            step_rel(
                old(self).spec_state(),
                WatcherInput::Watch(outcome),
                final(self).spec_state(),
                r,
            ),
    {
        let mut taken = WatcherState::Empty;
        core::mem::swap(&mut self.state, &mut taken);
        let rv = match taken {
            WatcherState::Watching { resource_version } => resource_version,
            _ => String::new(),
        };
        match outcome {
            WatchOutcome::Received(ev) => match ev {
                WireEvent::Added(o) => {
                    self.state = WatcherState::Watching { resource_version: rv };
                    Some(Ok(Event::Applied(o)))
                },
                WireEvent::Modified(o) => {
                    self.state = WatcherState::Watching { resource_version: rv };
                    Some(Ok(Event::Applied(o)))
                },
                WireEvent::Deleted(o) => {
                    self.state = WatcherState::Watching { resource_version: rv };
                    Some(Ok(Event::Deleted(o)))
                },
                WireEvent::Bookmark { resource_version } => {
                    self.state = WatcherState::Watching { resource_version };
                    None
                },
                WireEvent::ErrorStatus(status) => {
                    self.state = WatcherState::Empty;
                    if status.is_gone() {
                        None
                    } else {
                        Some(Err(Error::WatchError(status)))
                    }
                },
            },
            WatchOutcome::Closed => {
                self.state = WatcherState::Watching { resource_version: rv };
                None
            },
            WatchOutcome::Failed(msg) => {
                self.state = WatcherState::Watching { resource_version: rv };
                Some(Err(Error::WatchFailed(msg)))
            },
        }
    }
}

/// Law (one step): only a step taken in the watching phase can pass an
/// object through as `Applied` or `Deleted`.
pub proof fn lemma_touch_needs_watching<K>(
    s: WatcherState<K>,
    input: WatcherInput<K>,
    s2: WatcherState<K>,
    out: Emit<K>,
)
    requires
        step_rel(s, input, s2, out),
        emits_touch(out),
    ensures
        s is Watching,
{
}

/// Law (one step): the only way into the watching phase from a state that
/// required a relist emits the `Restarted` snapshot on that very step.
pub proof fn lemma_watching_entered_by_restart<K>(
    s: WatcherState<K>,
    input: WatcherInput<K>,
    s2: WatcherState<K>,
    out: Emit<K>,
)
    requires
        step_rel(s, input, s2, out),
        !(s is Watching),
        s2 is Watching,
    ensures
        emits_restart(out),
{
}

proof fn lemma_watching_has_restarted<K>(
    states: Seq<WatcherState<K>>,
    inputs: Seq<WatcherInput<K>>,
    outs: Seq<Emit<K>>,
    i: int,
)
    requires
        states.len() == inputs.len() + 1,
        outs.len() == inputs.len(),
        states[0] is Empty,
        forall|t: int|
            0 <= t < inputs.len() ==> #[trigger] step_rel(states[t], inputs[t], states[t + 1], outs[t]),
        0 <= i <= inputs.len(),
        states[i] is Watching,
    ensures
        exists|j: int| 0 <= j < i && emits_restart(#[trigger] outs[j]),
    decreases i,
{
    if i > 0 {
        assert(step_rel(states[i - 1], inputs[i - 1], states[(i - 1) + 1], outs[i - 1]));
        if states[i - 1] is Watching {
            lemma_watching_has_restarted(states, inputs, outs, i - 1);
        } else {
            lemma_watching_entered_by_restart(states[i - 1], inputs[i - 1], states[i], outs[i - 1]);
            assert(emits_restart(outs[i - 1]));
        }
    }
}

/// Law: in any run that starts with nothing listed, the watcher emits a
/// `Restarted` snapshot before it ever passes an `Applied` or `Deleted`
/// through.
pub proof fn lemma_restart_before_touch<K>(
    states: Seq<WatcherState<K>>,
    inputs: Seq<WatcherInput<K>>,
    outs: Seq<Emit<K>>,
)
    requires
        states.len() == inputs.len() + 1,
        outs.len() == inputs.len(),
        states[0] is Empty,
        forall|t: int|
            0 <= t < inputs.len() ==> #[trigger] step_rel(states[t], inputs[t], states[t + 1], outs[t]),
    ensures
        forall|i: int|
            0 <= i < outs.len() && emits_touch(#[trigger] outs[i]) ==> exists|j: int|
                0 <= j < i && emits_restart(#[trigger] outs[j]),
{
    assert forall|i: int|
        0 <= i < outs.len() && emits_touch(#[trigger] outs[i]) implies exists|j: int|
        0 <= j < i && emits_restart(#[trigger] outs[j]) by {
        lemma_touch_needs_watching(states[i], inputs[i], states[i + 1], outs[i]);
        lemma_watching_has_restarted(states, inputs, outs, i);
    }
}

} // verus!
