use iap::listeners::EventBridge;

fn handles(ds: &[iap::listeners::Delivery]) -> Vec<u64> {
    ds.iter().map(|d| d.handle).collect()
}

#[test]
fn bridge_delivers_to_each_listener_once() {
    let mut bridge = EventBridge::new();
    bridge.init();
    let a = bridge.register_listener("x".to_string()).unwrap();
    let b = bridge.register_listener("x".to_string()).unwrap();
    let other = bridge.register_listener("y".to_string()).unwrap();
    assert!(a != b && b != other && a != other);

    let ds = iap::listeners::trigger(&bridge, "x", "P".to_string());
    assert_eq!(handles(&ds), vec![a, b]);
    assert!(ds.iter().all(|d| d.payload == "P"));

    bridge.remove_listener(a);
    let ds = iap::listeners::trigger(&bridge, "x", "Q".to_string());
    assert_eq!(handles(&ds), vec![b]);
    assert_eq!(ds[0].payload, "Q");
}

#[test]
fn bridge_trigger_without_listeners_is_empty() {
    let mut bridge = EventBridge::new();
    bridge.init();
    bridge.register_listener("x".to_string()).unwrap();
    assert!(iap::listeners::trigger(&bridge, "nobody", "P".to_string()).is_empty());
}

#[test]
fn bridge_removing_an_unknown_handle_changes_nothing() {
    let mut bridge = EventBridge::new();
    bridge.init();
    let a = bridge.register_listener("x".to_string()).unwrap();
    bridge.remove_listener(a + 100);
    bridge.remove_listener(a);
    bridge.remove_listener(a);
    assert!(iap::listeners::trigger(&bridge, "x", "P".to_string()).is_empty());
}

#[test]
fn bridge_works_before_initialization() {
    let mut bridge = EventBridge::new();
    assert!(iap::listeners::trigger(&bridge, "x", "P".to_string()).is_empty());
    bridge.remove_listener(7);
    assert!(iap::listeners::trigger(&bridge, "x", "P".to_string()).is_empty());
    let a = bridge.register_listener("x".to_string()).unwrap();
    bridge.init();
    bridge.init();
    assert_eq!(handles(&iap::listeners::trigger(&bridge, "x", "P".to_string())), vec![a]);
}
