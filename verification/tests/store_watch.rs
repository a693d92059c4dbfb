use kubecore::boundary::ErrorBoundary;
use kubecore::flatten::{EventFlatten, FlattenPoll};
use kubecore::meta::ObjectMeta;
use kubecore::meta::Status;
use kubecore::object::PartialObject;
use kubecore::store::{ObjectRef, Reflector, Store};
use kubecore::wait::{first_match_index, is_deleted, Condition, ConditionWait};
use kubecore::watcher::{
    Error, Event, ListOutcome, WatchOutcome, Watcher, WatcherRequest, WireEvent,
};

fn cm(name: &str) -> PartialObject {
    PartialObject::named("ns", name)
}

fn key(name: &str) -> ObjectRef {
    ObjectRef { namespace: "ns".to_owned(), name: name.to_owned() }
}

fn page(names: &[&str], cont: Option<&str>, rv: Option<&str>) -> ListOutcome<PartialObject> {
    ListOutcome::Page {
        items: names.iter().map(|n| cm(n)).collect(),
        continue_token: cont.map(|c| c.to_owned()),
        resource_version: rv.map(|r| r.to_owned()),
    }
}

fn stored_names(store: &Store<PartialObject>) -> Vec<String> {
    let mut names: Vec<String> = store
        .state()
        .iter()
        .map(|o| o.metadata.name.clone().unwrap_or_default())
        .collect();
    names.sort();
    names
}

#[test]
fn reflector_cold_start() {
    let mut watcher: Watcher<PartialObject> = Watcher::new();
    let mut reflector: Reflector<PartialObject> = Reflector::new();
    assert_eq!(
        watcher.desired_request(),
        WatcherRequest::List { continue_token: None }
    );
    let emitted = watcher.step_list(page(&["cm-a", "cm-b"], None, Some("5")));
    let event = emitted.expect("a snapshot is emitted").expect("no error");
    assert!(matches!(event, Event::Restarted(ref l) if l.len() == 2));
    let forwarded = reflector.step(event);
    assert!(matches!(forwarded, Event::Restarted(_)));
    assert!(reflector.store().is_ready());
    assert_eq!(stored_names(reflector.store()), vec!["cm-a", "cm-b"]);
    assert_eq!(
        watcher.desired_request(),
        WatcherRequest::Watch { resource_version: "5".to_owned() }
    );
}

#[test]
fn add_then_delete() {
    let mut watcher: Watcher<PartialObject> = Watcher::new();
    let mut reflector: Reflector<PartialObject> = Reflector::new();
    let event = watcher
        .step_list(page(&["cm-a", "cm-b"], None, Some("5")))
        .unwrap()
        .unwrap();
    reflector.step(event);

    let applied = watcher
        .step_watch(WatchOutcome::Received(WireEvent::Added(cm("cm-c"))))
        .unwrap()
        .unwrap();
    assert!(matches!(applied, Event::Applied(ref o)
        if o.metadata.name.as_deref() == Some("cm-c")));
    reflector.step(applied);
    assert_eq!(stored_names(reflector.store()), vec!["cm-a", "cm-b", "cm-c"]);

    let deleted = watcher
        .step_watch(WatchOutcome::Received(WireEvent::Deleted(cm("cm-a"))))
        .unwrap()
        .unwrap();
    assert!(matches!(deleted, Event::Deleted(_)));
    reflector.step(deleted);
    assert_eq!(stored_names(reflector.store()), vec!["cm-b", "cm-c"]);
    assert!(reflector.store().get(&key("cm-a")).is_none());
    assert!(reflector.store().get(&key("cm-b")).is_some());
}

#[test]
fn gone_410_relists() {
    let mut watcher: Watcher<PartialObject> = Watcher::new();
    let mut reflector: Reflector<PartialObject> = Reflector::new();
    let event = watcher
        .step_list(page(&["cm-a", "cm-b"], None, Some("5")))
        .unwrap()
        .unwrap();
    reflector.step(event);

    let gone = Status {
        status: Some("Failure".to_owned()),
        code: 410,
        message: "too old".to_owned(),
        reason: "Gone".to_owned(),
    };
    let emitted = watcher.step_watch(WatchOutcome::Received(WireEvent::ErrorStatus(gone)));
    assert!(emitted.is_none(), "a Gone error relists silently");
    assert_eq!(
        watcher.desired_request(),
        WatcherRequest::List { continue_token: None },
        "the resourceVersion is discarded"
    );

    let event = watcher
        .step_list(page(&["cm-b", "cm-d"], None, Some("9")))
        .unwrap()
        .unwrap();
    assert!(matches!(event, Event::Restarted(ref l) if l.len() == 2));
    reflector.step(event);
    assert_eq!(stored_names(reflector.store()), vec!["cm-b", "cm-d"]);
    assert!(reflector.store().get(&key("cm-a")).is_none());
}

#[test]
fn clean_close_keeps_resource_version() {
    let mut watcher: Watcher<PartialObject> = Watcher::new();
    watcher
        .step_list(page(&["cm-a"], None, Some("7")))
        .unwrap()
        .unwrap();
    let emitted = watcher.step_watch(WatchOutcome::Closed);
    assert!(emitted.is_none());
    assert_eq!(
        watcher.desired_request(),
        WatcherRequest::Watch { resource_version: "7".to_owned() }
    );
}

#[test]
fn pagination_fetches_all_pages_before_restart() {
    let mut watcher: Watcher<PartialObject> = Watcher::new();
    let emitted = watcher.step_list(page(&["cm-a"], Some("tok"), None));
    assert!(emitted.is_none(), "no snapshot until every page arrived");
    assert_eq!(
        watcher.desired_request(),
        WatcherRequest::List { continue_token: Some("tok".to_owned()) }
    );
    let event = watcher
        .step_list(page(&["cm-b"], None, Some("8")))
        .unwrap()
        .unwrap();
    match event {
        Event::Restarted(list) => {
            let names: Vec<_> = list
                .iter()
                .map(|o| o.metadata.name.clone().unwrap())
                .collect();
            assert_eq!(names, vec!["cm-a", "cm-b"]);
        }
        _ => panic!("expected a snapshot"),
    }
}

#[test]
fn list_without_resource_version_fails() {
    let mut watcher: Watcher<PartialObject> = Watcher::new();
    let emitted = watcher.step_list(page(&["cm-a"], None, None));
    assert!(matches!(emitted, Some(Err(Error::NoResourceVersion))));
    assert_eq!(
        watcher.desired_request(),
        WatcherRequest::List { continue_token: None }
    );
}

#[test]
fn other_watch_error_surfaces_and_relists() {
    let mut watcher: Watcher<PartialObject> = Watcher::new();
    watcher
        .step_list(page(&[], None, Some("3")))
        .unwrap()
        .unwrap();
    let boom = Status {
        status: Some("Failure".to_owned()),
        code: 500,
        message: "broken".to_owned(),
        reason: "InternalError".to_owned(),
    };
    let emitted = watcher.step_watch(WatchOutcome::Received(WireEvent::ErrorStatus(boom)));
    assert!(matches!(emitted, Some(Err(Error::WatchError(ref s))) if s.code == 500));
    assert_eq!(
        watcher.desired_request(),
        WatcherRequest::List { continue_token: None }
    );
}

#[test]
fn bookmark_moves_version_silently() {
    let mut watcher: Watcher<PartialObject> = Watcher::new();
    watcher
        .step_list(page(&[], None, Some("3")))
        .unwrap()
        .unwrap();
    let emitted = watcher.step_watch(WatchOutcome::Received(WireEvent::Bookmark {
        resource_version: "12".to_owned(),
    }));
    assert!(emitted.is_none());
    assert_eq!(
        watcher.desired_request(),
        WatcherRequest::Watch { resource_version: "12".to_owned() }
    );
}

#[test]
fn restart_replaces_whole_keyset() {
    let mut store: Store<PartialObject> = Store::new();
    store.apply_watcher_event(&Event::Applied(cm("old-1")));
    store.apply_watcher_event(&Event::Applied(cm("old-2")));
    assert_eq!(store.version(), 2);
    store.apply_watcher_event(&Event::Restarted(vec![cm("new-1")]));
    assert_eq!(stored_names(&store), vec!["new-1"]);
    assert!(store.get(&key("old-1")).is_none());
    assert!(store.get(&key("old-2")).is_none());
    assert_eq!(store.version(), 3);
}

#[test]
fn applied_overwrites_same_key() {
    let mut store: Store<PartialObject> = Store::new();
    store.apply_watcher_event(&Event::Applied(cm("cm-a")));
    store.apply_watcher_event(&Event::Applied(cm("cm-a")));
    assert_eq!(store.state().len(), 1);
    store.apply_watcher_event(&Event::Deleted(cm("cm-a")));
    assert_eq!(store.state().len(), 0);
}

#[test]
fn watches_applies_uses_correct_eventflattened_stream() {
    let data: Vec<Result<Event<i32>, Error>> = vec![
        Ok(Event::Applied(0)),
        Ok(Event::Applied(1)),
        Ok(Event::Deleted(0)),
        Ok(Event::Applied(2)),
        Ok(Event::Restarted(vec![1, 2])),
        Err(Error::TooManyObjects),
        Ok(Event::Applied(2)),
    ];
    let mut rx: EventFlatten<i32> = EventFlatten::new(false);
    let mut upstream = data.into_iter();
    let mut emitted: Vec<Result<i32, Error>> = Vec::new();
    loop {
        match rx.poll_step() {
            FlattenPoll::Emit(item) => emitted.push(item),
            FlattenPoll::NeedInput => match upstream.next() {
                Some(item) => rx.push(item),
                None => break,
            },
        }
    }
    assert!(matches!(emitted[0], Ok(0)));
    assert!(matches!(emitted[1], Ok(1)));
    // NB: no Deleted events here
    assert!(matches!(emitted[2], Ok(2)));
    // Restart comes through, currently in reverse order
    // (normally on restart they just come in alphabetical order by name)
    // this is fine though, alphabetical event order has no functional meaning in watchers
    assert!(matches!(emitted[3], Ok(2)));
    assert!(matches!(emitted[4], Ok(1)));
    // Error passed through
    assert!(matches!(emitted[5], Err(Error::TooManyObjects)));
    assert!(matches!(emitted[6], Ok(2)));
    assert_eq!(emitted.len(), 7);
}

#[test]
fn watch_touches_passes_deletes() {
    let mut rx: EventFlatten<i32> = EventFlatten::new(true);
    rx.push(Ok(Event::Deleted(7)));
    assert!(matches!(rx.poll_step(), FlattenPoll::Emit(Ok(7))));
    assert!(matches!(rx.poll_step(), FlattenPoll::NeedInput));
}

#[test]
fn condition_resolves_at_first_match() {
    let mut obj = cm("watched");
    obj.metadata.uid = Some("uid-1".to_owned());
    let cond = is_deleted("uid-1");
    assert!(!cond.matches_object(&Some(obj.clone())));
    assert!(cond.matches_object(&None));

    let mut replacement = cm("watched");
    replacement.metadata.uid = Some("uid-2".to_owned());
    assert!(
        cond.matches_object(&Some(replacement.clone())),
        "a different uid means the old object is gone"
    );

    let observations = vec![Some(obj.clone()), Some(obj.clone()), None, Some(replacement)];
    assert_eq!(first_match_index(&cond, &observations), Some(2));

    let mut wait = ConditionWait::new(is_deleted("uid-1"));
    assert!(!wait.observe(&Some(obj.clone())));
    assert!(wait.observe(&Option::<PartialObject>::None));
    assert!(wait.is_resolved());
    assert!(wait.observe(&Some(obj)), "a resolved wait stays resolved");
}

#[test]
fn first_match_none_when_never_true() {
    let cond = is_deleted("uid-1");
    let mut obj = cm("watched");
    obj.metadata.uid = Some("uid-1".to_owned());
    let observations = vec![Some(obj.clone()), Some(obj)];
    assert_eq!(first_match_index(&cond, &observations), None);
}

#[test]
fn boundary_objects_stay_addressable() {
    let good: ErrorBoundary<PartialObject> = ErrorBoundary::valid(cm("cm-a"));
    let mut meta = ObjectMeta::empty();
    meta.namespace = Some("ns".to_owned());
    meta.name = Some("cm-bad".to_owned());
    let bad: ErrorBoundary<PartialObject> =
        ErrorBoundary::invalid("unexpected field".to_owned(), meta);
    assert!(good.is_valid());
    assert!(!bad.is_valid());
    match &bad.0 {
        Err(inv) => assert_eq!(inv.message(), "unexpected field"),
        Ok(_) => panic!("expected the invalid variant"),
    }

    let mut store: Store<ErrorBoundary<PartialObject>> = Store::new();
    store.apply_watcher_event(&Event::Restarted(vec![good, bad]));
    assert!(store.get(&key("cm-a")).is_some());
    let found = store.get(&key("cm-bad")).expect("invalid object stays addressable");
    assert!(!found.is_valid());
    assert_eq!(store.state().len(), 2);
}
