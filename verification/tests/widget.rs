use cacao::registry::WidgetFamily;
use cacao::widget::{Anchors, CallbackMethod, LifecycleEvent, WidgetHandle};
use cacao::{BridgeError, ensure_main_thread};

fn anchors() -> Anchors {
    Anchors {
        top: 1,
        leading: 2,
        trailing: 3,
        bottom: 4,
        width: 5,
        height: 6,
        center_x: 7,
        center_y: 8,
    }
}

#[test]
fn window_lifecycle_records_did_load_then_will_close() {
    // A window controller whose callback records events in order: show the
    // window, close it, and drop the handle. The recorded order is did_load,
    // will_close, and the callback is destroyed exactly once.
    let mut w = WidgetHandle::with(WidgetFamily::WindowController, 0x10, anchors(), 0xA1);
    assert_eq!(*w.dispatched(), vec![CallbackMethod::DidLoad]);
    let addr = w.dispatch(LifecycleEvent::WindowWillClose);
    assert_eq!(addr, 0xA1);
    assert_eq!(
        *w.dispatched(),
        vec![CallbackMethod::DidLoad, CallbackMethod::WillClose]
    );
    assert_eq!(w.delegate_destroy_count(), 0);
    w.drop_handle();
    assert_eq!(w.delegate_destroy_count(), 1);
}

#[test]
fn view_controller_appearance_order() {
    // Present and dismiss a view controller: did_load, will_appear,
    // did_appear, will_disappear, did_disappear, each exactly once.
    let mut v = WidgetHandle::with(WidgetFamily::ViewController, 0x20, anchors(), 0xB2);
    v.dispatch(LifecycleEvent::ViewWillAppear);
    v.dispatch(LifecycleEvent::ViewDidAppear);
    v.dispatch(LifecycleEvent::ViewWillDisappear);
    v.dispatch(LifecycleEvent::ViewDidDisappear);
    let expected = vec![
        CallbackMethod::DidLoad,
        CallbackMethod::WillAppear,
        CallbackMethod::DidAppear,
        CallbackMethod::WillDisappear,
        CallbackMethod::DidDisappear,
    ];
    assert_eq!(*v.dispatched(), expected);
    for m in expected {
        let count = v.dispatched().iter().filter(|&&c| c == m).count();
        assert_eq!(count, 1);
    }
    v.drop_handle();
    assert_eq!(v.delegate_destroy_count(), 1);
}

#[test]
fn detach_on_drop_when_parented_with() {
    let mut w = WidgetHandle::with(WidgetFamily::TextField, 0x30, anchors(), 0xC3);
    w.attach_to(0x99);
    assert_eq!(w.superview(), 0x99);
    let detached = w.drop_handle();
    assert!(detached);
    assert_eq!(w.superview(), 0);
    assert!(!w.has_delegate());
}

#[test]
fn no_detach_without_delegate() {
    // A delegate-less handle leaves the host object in the host's reference
    // graph: dropping it does not detach.
    let mut w = WidgetHandle::new(WidgetFamily::TextField, 0x40, anchors());
    w.attach_to(0x99);
    let detached = w.drop_handle();
    assert!(!detached);
    assert_eq!(w.superview(), 0x99);
    assert_eq!(w.delegate_destroy_count(), 0);
}

#[test]
fn no_detach_when_unparented() {
    let mut w = WidgetHandle::with(WidgetFamily::TextField, 0x50, anchors(), 0xD4);
    let detached = w.drop_handle();
    assert!(!detached);
    assert_eq!(w.delegate_destroy_count(), 1);
}

#[test]
fn off_main_thread_is_refused() {
    assert!(ensure_main_thread(true).is_ok());
    assert!(matches!(
        ensure_main_thread(false),
        Err(BridgeError::MainThreadViolation)
    ));
}

#[test]
fn clone_as_handle_shares_host_and_anchors() {
    let w = WidgetHandle::with(WidgetFamily::WindowController, 0x60, anchors(), 0xE5);
    let clone = w.clone_as_handle();
    assert_eq!(clone.host, w.host());
    assert_eq!(clone.anchors, w.anchors());
}
