//! Flattening a watcher stream into a stream of plain objects: `Applied`
//! passes through, `Deleted` passes through only when touches are wanted,
//! and a `Restarted` snapshot is drained object by object.

use vstd::prelude::*;

verus! {

use crate::watcher::{Error, Event};

/// What one flattening step yields: an object or error to emit, or the need
/// for the next upstream item.
#[derive(Debug, PartialEq)]
pub enum FlattenPoll<K> {
    /// Emit this downstream.
    Emit(Result<K, Error>),
    /// Nothing buffered: feed the next upstream item with
    /// [`EventFlatten::push`].
    NeedInput,
}

/// The flattening state machine behind `watch_applies` and `watch_touches`:
/// it buffers at most one upstream item and drains it one object at a time.
pub struct EventFlatten<K> {
    delete: bool,
    state: Option<Result<Event<K>, Error>>,
}

impl<K> EventFlatten<K> {
    /// Whether `Deleted` events pass through (touches) or are dropped
    /// (applies).
    pub closed spec fn spec_delete(&self) -> bool {
        self.delete
    }

    /// The buffered upstream item, if any.
    pub closed spec fn spec_state(&self) -> Option<Result<Event<K>, Error>> {
        self.state
    }

    /// A flattener with nothing buffered. With `delete` set, `Deleted`
    /// events pass through; without it they are dropped.
    pub fn new(delete: bool) -> (r: EventFlatten<K>)
        ensures
            r.spec_delete() == delete,
            r.spec_state() is None,
    {
        EventFlatten { delete, state: None }
    }

    /// Buffers the next upstream item.
    pub fn push(&mut self, item: Result<Event<K>, Error>)
        requires
            old(self).spec_state() is None,
        ensures
            final(self).spec_state() == Some(item),
            final(self).spec_delete() == old(self).spec_delete(),
    {
        self.state = Some(item);
    }

    /// Drains one step: an `Applied` object is emitted, a `Deleted` object
    /// is emitted only when touches are wanted, a `Restarted` snapshot is
    /// emitted from its end one object per step with the rest kept buffered,
    /// and an error is passed through.
    pub fn poll_step(&mut self) -> (r: FlattenPoll<K>)
        ensures
            final(self).spec_delete() == old(self).spec_delete(),
            match old(self).spec_state() {
                None => r is NeedInput && final(self).spec_state() is None,
                Some(item) => match item {
                    Ok(Event::Applied(o)) => r == FlattenPoll::Emit(Ok::<K, Error>(o))
                        && final(self).spec_state() is None,
                    Ok(Event::Deleted(o)) => if old(self).spec_delete() {
                        r == FlattenPoll::Emit(Ok::<K, Error>(o)) && final(self).spec_state()
                            is None
                    } else {
                        r is NeedInput && final(self).spec_state() is None
                    },
                    Ok(Event::Restarted(list)) => if list@.len() > 0 {
                        &&& r == FlattenPoll::Emit(Ok::<K, Error>(list@.last()))
                        &&& final(self).spec_state() matches Some(Ok(Event::Restarted(rest)))
                            && rest@ == list@.drop_last()
                    } else {
                        r is NeedInput && final(self).spec_state() is None
                    },
                    Err(e) => r == FlattenPoll::Emit(Err::<K, Error>(e))
                        && final(self).spec_state() is None,
                },
            },
    {
        let mut taken: Option<Result<Event<K>, Error>> = None;
        core::mem::swap(&mut self.state, &mut taken);
        match taken {
            None => FlattenPoll::NeedInput,
            Some(item) => match item {
                Ok(event) => match event {
                    Event::Applied(obj) => FlattenPoll::Emit(Ok(obj)),
                    Event::Deleted(obj) => {
                        if self.delete {
                            FlattenPoll::Emit(Ok(obj))
                        } else {
                            FlattenPoll::NeedInput
                        }
                    },
                    Event::Restarted(mut list) => match list.pop() {
                        Some(last) => {
                            self.state = Some(Ok(Event::Restarted(list)));
                            FlattenPoll::Emit(Ok(last))
                        },
                        None => FlattenPoll::NeedInput,
                    },
                },
                Err(e) => FlattenPoll::Emit(Err(e)),
            },
        }
    }
}

} // verus!
