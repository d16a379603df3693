use cacao::BridgeError;
use cacao::registry::{ClassRegistry, WidgetFamily};

#[test]
fn registration_idempotent() {
    let mut reg = ClassRegistry::new();
    let h1 = reg
        .register(WidgetFamily::WindowController, 1, true)
        .unwrap();
    // Repeated registrations return the identical class handle and never
    // touch the host runtime again (the host verdict is not even consulted).
    for _ in 0..4 {
        let h = reg
            .register(WidgetFamily::WindowController, 1, false)
            .unwrap();
        assert_eq!(h, h1);
    }
    assert_eq!(reg.lookup(WidgetFamily::WindowController, 1), Some(h1));
}

#[test]
fn registration_rejected_leaves_registry_unchanged() {
    let mut reg = ClassRegistry::new();
    let r = reg.register(WidgetFamily::ListView, 2, false);
    assert!(matches!(r, Err(BridgeError::HostRuntimeRejected)));
    assert_eq!(reg.lookup(WidgetFamily::ListView, 2), None);
    // After the host accepts, registration succeeds.
    let h = reg.register(WidgetFamily::ListView, 2, true).unwrap();
    assert_eq!(reg.lookup(WidgetFamily::ListView, 2), Some(h));
}

#[test]
fn distinct_pairs_get_distinct_handles() {
    let mut reg = ClassRegistry::new();
    let a = reg
        .register(WidgetFamily::WindowController, 1, true)
        .unwrap();
    let b = reg.register(WidgetFamily::ViewController, 1, true).unwrap();
    let c = reg
        .register(WidgetFamily::WindowController, 2, true)
        .unwrap();
    assert_ne!(a, b);
    assert_ne!(a, c);
    assert_ne!(b, c);
    assert_ne!(a, 0);
    assert_ne!(b, 0);
    assert_ne!(c, 0);
}

#[test]
fn lookup_misses_unregistered_family() {
    let mut reg = ClassRegistry::new();
    reg.register(WidgetFamily::TextField, 7, true).unwrap();
    assert_eq!(reg.lookup(WidgetFamily::ListRow, 7), None);
    assert_eq!(reg.lookup(WidgetFamily::TextField, 8), None);
}
