use hap_core::event::{Event, EventEmitter, EventListenerGuard};

fn paired(n: u128) -> Event {
    Event::ControllerPaired { id: uuid::Uuid::from_u128(n) }
}

#[test]
fn emit_with_no_listeners_resolves_immediately() {
    let bus = EventEmitter::new();
    let e = Event::CharacteristicValueChanged {
        aid: 1,
        iid: 2,
        value: serde_json::Value::Bool(true),
    };
    let snapshot = bus.emit(&e);
    assert!(snapshot.is_empty());
}

#[test]
fn single_listener_records_exactly_one_event() {
    let mut bus = EventEmitter::new();
    let _t1 = bus.add_listener(1);
    let x = uuid::Uuid::from_u128(0x1234_5678);
    let e = Event::ControllerPaired { id: x };
    let snapshot = bus.emit(&e);

    // the runtime delivers the borrowed event once per snapshotted listener
    let mut recorded: Vec<Event> = Vec::new();
    for (_token, id) in &snapshot {
        if *id == 1 {
            recorded.push(e.clone());
        }
    }
    assert_eq!(recorded.len(), 1);
    assert_eq!(recorded[0], Event::ControllerPaired { id: x });
}

#[test]
fn released_listener_is_not_invoked() {
    let mut bus = EventEmitter::new();
    let t1 = bus.add_listener(1);
    let _t2 = bus.add_listener(2);
    let mut g1 = EventListenerGuard::new(t1);
    g1.release(&mut bus);
    let snapshot = bus.emit(&paired(7));
    assert_eq!(snapshot.len(), 1);
    assert_eq!(snapshot[0].1, 2);
}

#[test]
fn emit_snapshots_every_registered_listener() {
    let mut bus = EventEmitter::new();
    let t1 = bus.add_listener(11);
    let t2 = bus.add_listener(22);
    let t3 = bus.add_listener(33);
    let mut snapshot = bus.emit(&paired(1));
    snapshot.sort();
    let mut expected = vec![(t1, 11), (t2, 22), (t3, 33)];
    expected.sort();
    assert_eq!(snapshot, expected);
}

#[test]
fn late_subscriber_is_excluded_from_snapshot() {
    let mut bus = EventEmitter::new();
    let _t1 = bus.add_listener(1);
    let snapshot = bus.emit(&paired(2));
    let t2 = bus.add_listener(2);
    assert!(snapshot.iter().all(|(token, id)| *token != t2 && *id != 2));
    // the next emission sees both
    assert_eq!(bus.emit(&paired(2)).len(), 2);
}

#[test]
fn guard_release_is_exactly_once() {
    let mut bus = EventEmitter::new();
    let t1 = bus.add_listener(1);
    let t2 = bus.add_listener(2);
    let mut g1 = EventListenerGuard::new(t1);
    g1.release(&mut bus);
    // a second release is a no-op, not a double removal or a crash
    g1.release(&mut bus);
    let snapshot = bus.emit(&paired(3));
    assert_eq!(snapshot, vec![(t2, 2)]);
}

#[test]
fn release_of_foreign_token_does_not_corrupt_registry() {
    let mut bus = EventEmitter::new();
    let t1 = bus.add_listener(1);
    let mut g = EventListenerGuard::new(t1 + 100);
    g.release(&mut bus);
    let snapshot = bus.emit(&paired(4));
    assert_eq!(snapshot, vec![(t1, 1)]);
}

#[test]
fn reissued_token_invokes_only_the_new_listener() {
    let mut bus = EventEmitter::new();
    let t1 = bus.add_listener(1);
    let mut g1 = EventListenerGuard::new(t1);
    g1.release(&mut bus);
    let t2 = bus.add_listener(2);
    // the slot-reuse table hands the released slot out again
    assert_eq!(t2, t1);
    let snapshot = bus.emit(&paired(5));
    assert_eq!(snapshot, vec![(t2, 2)]);
    assert!(snapshot.iter().all(|(_, id)| *id != 1));
}

#[test]
fn remove_returns_the_listener_it_removes() {
    let mut bus = EventEmitter::new();
    let t1 = bus.add_listener(42);
    assert_eq!(bus.remove(t1), Some(42));
    assert_eq!(bus.remove(t1), None);
    assert!(bus.emit(&paired(6)).is_empty());
}
