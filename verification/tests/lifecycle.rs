use brane::lifecycle::{handle, Callback, CallbackKind, EventKind};

fn callback(kind: CallbackKind, order: i32) -> Callback {
    Callback {
        kind,
        job: String::from("job-1"),
        application: String::from("app-7"),
        location: String::from("site-a"),
        order,
        payload: vec![1, 2, 3],
    }
}

#[test]
fn ready_callback_fires_one_event() {
    let events = handle(callback(CallbackKind::Ready, 3)).unwrap();
    assert_eq!(events.len(), 1);
    let (key, event) = &events[0];
    assert_eq!(key, "job-1#3");
    assert_eq!(event.kind, EventKind::Ready);
    assert_eq!(event.identifier, "job-1");
    assert_eq!(event.application, "app-7");
    assert_eq!(event.location, "site-a");
    assert_eq!(event.category, "job");
    assert_eq!(event.order, 3);
    assert_eq!(event.payload, Some(vec![1, 2, 3]));
    assert_eq!(event.timestamp, None);
}

#[test]
fn each_lifecycle_kind_maps_to_its_event_kind() {
    let pairs = [
        (CallbackKind::Ready, EventKind::Ready),
        (CallbackKind::Initialized, EventKind::Initialized),
        (CallbackKind::Started, EventKind::Started),
        (CallbackKind::Finished, EventKind::Finished),
        (CallbackKind::Stopped, EventKind::Stopped),
        (CallbackKind::Failed, EventKind::Failed),
    ];
    for (callback_kind, event_kind) in pairs {
        let events = handle(callback(callback_kind, 0)).unwrap();
        assert_eq!(events.len(), 1);
        assert_eq!(events[0].0, "job-1#0");
        assert_eq!(events[0].1.kind, event_kind);
    }
}

#[test]
fn unknown_callback_fires_nothing() {
    let events = handle(callback(CallbackKind::Unknown, 5)).unwrap();
    assert!(events.is_empty());
}

#[test]
fn negative_order_is_written_with_a_sign() {
    let events = handle(callback(CallbackKind::Started, -42)).unwrap();
    assert_eq!(events[0].0, "job-1#-42");
    assert_eq!(events[0].1.order, (-42i32) as u32);
}

#[test]
fn extreme_orders_are_written_in_full() {
    let events = handle(callback(CallbackKind::Finished, i32::MIN)).unwrap();
    assert_eq!(events[0].0, "job-1#-2147483648");
    assert_eq!(events[0].1.order, 2147483648u32);
    let events = handle(callback(CallbackKind::Finished, i32::MAX)).unwrap();
    assert_eq!(events[0].0, "job-1#2147483647");
    let events = handle(callback(CallbackKind::Finished, 10)).unwrap();
    assert_eq!(events[0].0, "job-1#10");
}
