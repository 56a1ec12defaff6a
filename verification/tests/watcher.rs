use display_switch::hotplug::{Attribute, DeviceEvent, Event, EventType};
use display_switch::watcher::{
    Signal, SocketWatcher, UsbChangeDetector, WatchAction, RETRY_PAUSE_MILLIS,
};

fn names(names: &[&str]) -> Vec<String> {
    names.iter().map(|name| name.to_string()).collect()
}

fn added(event: Option<Event>) -> Option<Vec<String>> {
    match event {
        None => None,
        Some(Event::DevicesAdded(mut devices)) => {
            devices.sort();
            Some(devices)
        }
        Some(Event::Device(_)) => panic!("a change detector yields sets only"),
    }
}

fn bind_event() -> DeviceEvent {
    DeviceEvent {
        event_type: EventType::Bind,
        subsystem: "usb".to_string(),
        attributes: vec![Attribute { name: "product".to_string(), value: "0731:2901".to_string() }],
    }
}

#[test]
fn a_new_device_is_yielded_as_added() {
    let mut detector = UsbChangeDetector::new(names(&["A", "B"]));
    let event = detector.detect_added_devices(Some(names(&["A", "B", "C"])));
    assert_eq!(added(event), Some(names(&["C"])));
}

#[test]
fn a_removed_device_yields_no_event() {
    let mut detector = UsbChangeDetector::new(names(&["A", "B"]));
    let event = detector.detect_added_devices(Some(names(&["A", "B", "C"])));
    assert_eq!(added(event), Some(names(&["C"])));
    let event = detector.detect_added_devices(Some(names(&["A", "B"])));
    assert_eq!(added(event), None);
}

#[test]
fn the_snapshot_is_replaced_on_every_query() {
    let mut detector = UsbChangeDetector::new(names(&["A", "B"]));
    assert_eq!(added(detector.detect_added_devices(Some(names(&["A"])))), None);
    // B left and comes back: it is new against the snapshot {A}.
    assert_eq!(
        added(detector.detect_added_devices(Some(names(&["A", "B"])))),
        Some(names(&["B"]))
    );
    assert_eq!(added(detector.detect_added_devices(Some(names(&["B", "A"])))), None);
}

#[test]
fn several_new_devices_are_yielded_together() {
    let mut detector = UsbChangeDetector::new(Vec::new());
    assert_eq!(
        added(detector.detect_added_devices(Some(names(&["C", "A", "B"])))),
        Some(names(&["A", "B", "C"]))
    );
    assert_eq!(
        added(detector.detect_added_devices(Some(names(&["D", "A", "E"])))),
        Some(names(&["D", "E"]))
    );
}

#[test]
fn a_failed_query_yields_nothing_and_keeps_the_snapshot() {
    let mut detector = UsbChangeDetector::new(names(&["A", "B"]));
    assert_eq!(added(detector.detect_added_devices(None)), None);
    // Had the snapshot been emptied, A and B would now count as added.
    assert_eq!(
        added(detector.detect_added_devices(Some(names(&["A", "B", "C"])))),
        Some(names(&["C"]))
    );
}

#[test]
fn an_empty_world_yields_nothing() {
    let mut detector = UsbChangeDetector::new(Vec::new());
    assert_eq!(added(detector.detect_added_devices(Some(Vec::new()))), None);
}

#[test]
fn the_added_set_matches_the_device_of_interest() {
    let mut detector = UsbChangeDetector::new(names(&["1111:2222"]));
    let event = detector
        .detect_added_devices(Some(names(&["1111:2222", "0731:2901"])))
        .expect("one device was added");
    assert!(display_switch::hotplug::matches(&event, &"0731:2901".to_string()));
    assert!(!display_switch::hotplug::matches(&event, &"1111:2222".to_string()));
}

#[test]
fn socket_watcher_waits_reads_and_delivers() {
    let mut watcher = SocketWatcher::new();
    assert_eq!(watcher.pending(), Some(WatchAction::Wait));
    assert!(watcher.advance(Signal::Woken { status: 1 }).is_none());
    assert_eq!(watcher.pending(), Some(WatchAction::Receive));
    let event = watcher.advance(Signal::Message(Some(bind_event())));
    let event = event.expect("the event that was read is handed over");
    assert_eq!(event.event_type, EventType::Bind);
    assert_eq!(event.attributes[0].value, "0731:2901");
    assert_eq!(watcher.pending(), Some(WatchAction::Wait));
    assert!(!watcher.has_failed());
}

#[test]
fn socket_watcher_pauses_after_an_empty_wake_up() {
    let mut watcher = SocketWatcher::new();
    assert!(watcher.advance(Signal::Woken { status: 0 }).is_none());
    assert_eq!(watcher.pending(), Some(WatchAction::Receive));
    assert!(watcher.advance(Signal::Message(None)).is_none());
    assert_eq!(watcher.pending(), Some(WatchAction::Pause { millis: 10 }));
    assert_eq!(RETRY_PAUSE_MILLIS, 10);
    assert!(watcher.advance(Signal::Resumed).is_none());
    assert_eq!(watcher.pending(), Some(WatchAction::Wait));
}

#[test]
fn socket_watcher_fails_on_a_failed_wait_only() {
    let mut watcher = SocketWatcher::new();
    assert!(watcher.advance(Signal::Woken { status: -1 }).is_none());
    assert!(watcher.has_failed());
    assert_eq!(watcher.pending(), None);
    // Nothing revives it.
    assert!(watcher.advance(Signal::Woken { status: 1 }).is_none());
    assert!(watcher.advance(Signal::Message(Some(bind_event()))).is_none());
    assert!(watcher.has_failed());
    assert_eq!(watcher.pending(), None);
}

#[test]
fn socket_watcher_delivers_only_what_it_asked_to_read() {
    let mut watcher = SocketWatcher::new();
    // An event that arrives while the watcher asked to wait is not taken.
    assert!(watcher.advance(Signal::Message(Some(bind_event()))).is_none());
    assert_eq!(watcher.pending(), Some(WatchAction::Wait));
    assert!(watcher.advance(Signal::Resumed).is_none());
    assert_eq!(watcher.pending(), Some(WatchAction::Wait));
    // A reading answered by something else counts as no event.
    assert!(watcher.advance(Signal::Woken { status: 1 }).is_none());
    assert!(watcher.advance(Signal::Woken { status: 1 }).is_none());
    assert_eq!(watcher.pending(), Some(WatchAction::Pause { millis: 10 }));
}
