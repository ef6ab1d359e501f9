use iap::listeners::EventBridge;
use iap::macos::{
    bridge_error, bridge_error_from_members, bundle_layout, parse_ffi_response, require_bundle,
    FFIResult,
};
use iap::ErrorKind;

#[test]
fn guard_accepts_executables_inside_a_bundle() {
    assert!(require_bundle("/Applications/Shop.app/Contents/MacOS/Shop").is_ok());
    assert!(require_bundle("/Users/me/Other Name.app/Contents/MacOS/bin").is_ok());
    assert!(require_bundle("Shop.app/Contents/MacOS/Shop").is_ok());
}

#[test]
fn guard_rejects_loose_binaries() {
    for path in [
        "/Users/me/project/target/debug/shop",
        "/Applications/Shop/Contents/MacOS/Shop",
        "/Applications/Shop.app/Contents/Resources/Shop",
        "/Applications/Shop.app/MacOS/Shop",
        "/Contents/MacOS/Shop",
        "shop",
        "",
    ] {
        let err = require_bundle(path).unwrap_err();
        assert_eq!(err.kind, ErrorKind::EnvironmentInvalid);
        assert_eq!(err.code, None);
        assert_eq!(
            err.message.as_deref(),
            Some("IAP requires the app to run from a .app bundle.")
        );
    }
}

#[test]
fn bundle_layout_reads_components() {
    let cs = |v: &[&str]| v.iter().map(|s| s.to_string()).collect::<Vec<String>>();
    assert!(bundle_layout(&cs(&["/", "A.app", "Contents", "MacOS", "a"])));
    assert!(!bundle_layout(&cs(&["A.app", "Contents", "MacOS"])));
    assert!(!bundle_layout(&cs(&["A.apps", "Contents", "MacOS", "a"])));
}

#[test]
fn bridge_failures_in_json_are_parsed() {
    let e = bridge_error(r#"{"code":"E42","message":"store unavailable"}"#.to_string());
    assert_eq!(e.kind, ErrorKind::InvocationRejected);
    assert_eq!(e.code.as_deref(), Some("E42"));
    assert_eq!(e.message.as_deref(), Some("store unavailable"));

    let e = bridge_error(r#"{"message":"only text"}"#.to_string());
    assert_eq!(e.code, None);
    assert_eq!(e.message.as_deref(), Some("only text"));
}

#[test]
fn bridge_failures_in_plain_text_are_wrapped() {
    let e = bridge_error("Product request failed".to_string());
    assert_eq!(e.kind, ErrorKind::InvocationRejected);
    assert_eq!(e.code, None);
    assert_eq!(e.message.as_deref(), Some("Product request failed"));

    let e = bridge_error(r#"{"other":1}"#.to_string());
    assert_eq!(e.message.as_deref(), Some(r#"{"other":1}"#));

    let e = bridge_error_from_members("raw".to_string(), Some("c".to_string()), None);
    assert_eq!(e.code.as_deref(), Some("c"));
    assert_eq!(e.message, None);
}

#[test]
fn bridge_answers_pass_json_on() {
    let ok = parse_ffi_response(Ok(r#"{"products":[]}"#.to_string())).unwrap();
    assert_eq!(ok, r#"{"products":[]}"#);
    let err = parse_ffi_response(Err(FFIResult::Failure("boom".to_string()))).unwrap_err();
    assert_eq!(err.message.as_deref(), Some("boom"));
}

#[test]
fn native_trigger_succeeds_at_any_time() {
    let mut bridge = EventBridge::new();
    let ds = iap::macos::trigger(&bridge, "purchaseUpdated".to_string(), "{}".to_string());
    assert!(ds.is_empty());
    let h = bridge.register_listener("purchaseUpdated".to_string()).unwrap();
    let ds = iap::macos::trigger(&bridge, "purchaseUpdated".to_string(), "{}".to_string());
    assert_eq!(ds.len(), 1);
    assert_eq!(ds[0].handle, h);
    assert_eq!(ds[0].payload, "{}");
}
