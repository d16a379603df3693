//! Widget handles.
//!
//! A widget handle is the owning value a user holds for one host object: a
//! window controller, a view controller or a text field. It bundles the host
//! object, the per-instance delegate slot, optional ownership of the user's
//! callback object, and the fixed set of layout anchors. The handle also keeps
//! the record of which callback methods the bridge has dispatched, so the
//! dispatch order — `did_load` first, lifecycle events as the host sends them
//! — is part of its verified state.
//!
//! Dropping a handle that owns a callback detaches the host object from its
//! parent view if it is still parented, then unbinds the delegate slot, which
//! reclaims the callback exactly once. A handle without a callback leaves the
//! host object to the host's own reference graph, as the host toolkit expects.

use vstd::prelude::*;

use crate::bridge::{DelegateSlot, SlotModel};
use crate::registry::WidgetFamily;

verus! {

/// The layout-anchor bundle of one host view: one opaque host handle per
/// anchor, all taken from the same view.
#[derive(Clone, Copy, Debug, PartialEq, Eq, Structural)]
pub struct Anchors {
    pub top: u64,
    pub leading: u64,
    pub trailing: u64,
    pub bottom: u64,
    pub width: u64,
    pub height: u64,
    pub center_x: u64,
    pub center_y: u64,
}

/// A callback-owner method the bridge can dispatch into user code.
#[derive(Clone, Copy, Debug, PartialEq, Eq, Structural)]
pub enum CallbackMethod {
    DidLoad,
    WillClose,
    WillAppear,
    DidAppear,
    WillDisappear,
    DidDisappear,
}

/// A lifecycle event arriving from the host toolkit.
#[derive(Clone, Copy, Debug, PartialEq, Eq, Structural)]
pub enum LifecycleEvent {
    WindowWillClose,
    ViewWillAppear,
    ViewDidAppear,
    ViewWillDisappear,
    ViewDidDisappear,
}

/// The callback-owner method that a host event dispatches to.
pub open spec fn method_for(e: LifecycleEvent) -> CallbackMethod {
    match e {
        LifecycleEvent::WindowWillClose => CallbackMethod::WillClose,
        LifecycleEvent::ViewWillAppear => CallbackMethod::WillAppear,
        LifecycleEvent::ViewDidAppear => CallbackMethod::DidAppear,
        LifecycleEvent::ViewWillDisappear => CallbackMethod::WillDisappear,
        LifecycleEvent::ViewDidDisappear => CallbackMethod::DidDisappear,
    }
}

/// Whether a widget family's overridden selector table carries the event.
/// The window-controller family overrides only `windowWillClose:`; the
/// view-controller family overrides the four appearance selectors.
pub open spec fn family_handles(f: WidgetFamily, e: LifecycleEvent) -> bool {
    match e {
        LifecycleEvent::WindowWillClose => f == WidgetFamily::WindowController,
        _ => f == WidgetFamily::ViewController,
    }
}

/// A handle clone: a shallow, non-owning copy sharing the host object and the
/// layout anchors, carrying neither callback ownership nor any other exclusive
/// resource. This is what a callback receives during `did_load`.
#[derive(Clone, Copy, Debug, PartialEq, Eq, Structural)]
pub struct WidgetRef {
    pub host: u64,
    pub anchors: Anchors,
}

/// An owning handle over one host object.
pub struct WidgetHandle {
    family: WidgetFamily,
    host: u64,
    anchors: Anchors,
    slot: DelegateSlot,
    owns_delegate: bool,
    superview: u64,
    calls: Vec<CallbackMethod>,
}

impl WidgetHandle {
    /// The family whose synthesized subclass the host object instantiates.
    pub closed spec fn spec_family(&self) -> WidgetFamily {
        self.family
    }

    /// The host object this handle shares with the host toolkit.
    pub closed spec fn spec_host(&self) -> u64 {
        self.host
    }

    /// The layout anchors of the host object.
    pub closed spec fn spec_anchors(&self) -> Anchors {
        self.anchors
    }

    /// The state of the host instance's delegate slot.
    pub closed spec fn slot(&self) -> SlotModel {
        self.slot@
    }

    /// Whether this handle owns the user's callback object.
    pub closed spec fn owns_delegate(&self) -> bool {
        self.owns_delegate
    }

    /// The host parent view, or `0` while unparented.
    pub closed spec fn spec_superview(&self) -> u64 {
        self.superview
    }

    /// The callback methods dispatched so far, in dispatch order.
    pub closed spec fn calls(&self) -> Seq<CallbackMethod> {
        self.calls@
    }

    /// A live handle: a nonzero host object; the slot is set exactly when the
    /// handle owns a callback, and is idle between callbacks.
    pub open spec fn wf(&self) -> bool {
        &&& self.spec_host() != 0
        &&& self.slot().wf()
        &&& self.slot().is_set() <==> self.owns_delegate()
        &&& self.slot().borrows == 0
    }

    /// The family of this widget.
    pub fn family(&self) -> (f: WidgetFamily)
        ensures
            f == self.spec_family(),
    {
        self.family
    }

    /// The host object.
    pub fn host(&self) -> (h: u64)
        ensures
            h == self.spec_host(),
    {
        self.host
    }

    /// The layout anchors.
    pub fn anchors(&self) -> (a: Anchors)
        ensures
            a == self.spec_anchors(),
    {
        self.anchors
    }

    /// Whether this handle owns the user's callback object.
    pub fn has_delegate(&self) -> (b: bool)
        ensures
            b == self.owns_delegate(),
    {
        self.owns_delegate
    }

    /// The host parent view, or `0` while unparented.
    pub fn superview(&self) -> (s: u64)
        ensures
            s == self.spec_superview(),
    {
        self.superview
    }

    /// How many times the owned callback's container has been reclaimed.
    pub fn delegate_destroy_count(&self) -> (n: u64)
        ensures
            n == self.slot().destroyed,
    {
        self.slot.destroy_count()
    }

    /// The callback methods dispatched so far, in dispatch order.
    pub fn dispatched(&self) -> (c: &Vec<CallbackMethod>)
        ensures
            c@ == self.calls(),
    {
        &self.calls
    }

    /// A delegate-less widget of the family's default subclass: the slot stays
    /// unset and no callback is ever dispatched.
    pub fn new(family: WidgetFamily, host: u64, anchors: Anchors) -> (w: Self)
        requires
            host != 0,
        ensures
            w.wf(),
            w.spec_family() == family,
            w.spec_host() == host,
            w.spec_anchors() == anchors,
            !w.owns_delegate(),
            w.spec_superview() == 0,
            w.slot() == (SlotModel { addr: 0, borrows: 0, destroyed: 0 }),
            w.calls() == Seq::<CallbackMethod>::empty(),
    {
        WidgetHandle {
            family,
            host,
            anchors,
            slot: DelegateSlot::new(),
            owns_delegate: false,
            superview: 0,
            calls: Vec::new(),
        }
    }

    /// A widget of the callback-aware subclass, owning the callback boxed at
    /// `delegate_addr`. The address is stored in the delegate slot first, and
    /// only then is the callback's `did_load` dispatched with a handle clone —
    /// so by the time user code runs, the slot already reaches the callback.
    pub fn with(family: WidgetFamily, host: u64, anchors: Anchors, delegate_addr: u64)
        -> (w: Self)
        requires
            host != 0,
            delegate_addr != 0,
        ensures
            w.wf(),
            w.spec_family() == family,
            w.spec_host() == host,
            w.spec_anchors() == anchors,
            w.owns_delegate(),
            w.spec_superview() == 0,
            w.slot() == (SlotModel { addr: delegate_addr, borrows: 0, destroyed: 0 }),
            w.calls() == seq![CallbackMethod::DidLoad],
    {
        let mut slot = DelegateSlot::new();
        slot.store(delegate_addr);
        let mut w = WidgetHandle {
            family,
            host,
            anchors,
            slot,
            owns_delegate: true,
            superview: 0,
            calls: Vec::new(),
        };
        let _addr = w.slot.begin_callback();
        w.calls.push(CallbackMethod::DidLoad);
        w.slot.end_callback();
        proof {
            assert(w.calls@ =~= seq![CallbackMethod::DidLoad]);
        }
        w
    }

    /// The handle clone passed to callbacks: same host object, same anchors,
    /// no ownership.
    pub fn clone_as_handle(&self) -> (r: WidgetRef)
        ensures
            r.host == self.spec_host(),
            r.anchors == self.spec_anchors(),
    {
        WidgetRef { host: self.host, anchors: self.anchors }
    }

    /// Dispatch one host lifecycle event into the owned callback: borrow the
    /// stored address for the duration of the call, record the dispatched
    /// method, and re-publish the slot unchanged.
    pub fn dispatch(&mut self, e: LifecycleEvent) -> (a: u64)
        requires
            old(self).wf(),
            old(self).owns_delegate(),
            family_handles(old(self).spec_family(), e),
        ensures
            final(self).wf(),
            a == old(self).slot().addr,
            final(self).slot() == old(self).slot(),
            final(self).calls() == old(self).calls().push(method_for(e)),
            final(self).spec_family() == old(self).spec_family(),
            final(self).spec_host() == old(self).spec_host(),
            final(self).spec_anchors() == old(self).spec_anchors(),
            final(self).owns_delegate() == old(self).owns_delegate(),
            final(self).spec_superview() == old(self).spec_superview(),
    {
        let a = self.slot.begin_callback();
        let m = match e {
            LifecycleEvent::WindowWillClose => CallbackMethod::WillClose,
            LifecycleEvent::ViewWillAppear => CallbackMethod::WillAppear,
            LifecycleEvent::ViewDidAppear => CallbackMethod::DidAppear,
            LifecycleEvent::ViewWillDisappear => CallbackMethod::WillDisappear,
            LifecycleEvent::ViewDidDisappear => CallbackMethod::DidDisappear,
        };
        self.calls.push(m);
        self.slot.end_callback();
        a
    }

    /// Attach the host object to a parent view.
    pub fn attach_to(&mut self, parent: u64)
        requires
            old(self).wf(),
            parent != 0,
        ensures
            final(self).wf(),
            final(self).spec_superview() == parent,
            final(self).slot() == old(self).slot(),
            final(self).calls() == old(self).calls(),
            final(self).spec_family() == old(self).spec_family(),
            final(self).spec_host() == old(self).spec_host(),
            final(self).spec_anchors() == old(self).spec_anchors(),
            final(self).owns_delegate() == old(self).owns_delegate(),
    {
        self.superview = parent;
    }

    /// Drop the handle. If it owns a callback and the host object is still
    /// parented, the object is detached from its parent; then the delegate
    /// slot is unbound, reclaiming the callback container exactly once. A
    /// delegate-less handle changes nothing: the host's reference graph keeps
    /// the object, matching the host toolkit's own expectations.
    ///
    /// Returns whether the host object was detached from a parent.
    pub fn drop_handle(&mut self) -> (detached: bool)
        requires
            old(self).wf(),
            old(self).slot().destroyed < u64::MAX,
        ensures
            final(self).wf(),
            !final(self).owns_delegate(),
            detached == (old(self).owns_delegate() && old(self).spec_superview() != 0),
            old(self).owns_delegate() ==> final(self).spec_superview() == 0,
            !old(self).owns_delegate() ==> final(self).spec_superview() == old(
                self,
            ).spec_superview(),
            old(self).owns_delegate() ==> final(self).slot() == (SlotModel {
                addr: 0,
                borrows: 0,
                destroyed: (old(self).slot().destroyed + 1) as u64,
            }),
            !old(self).owns_delegate() ==> final(self).slot() == old(self).slot(),
            final(self).calls() == old(self).calls(),
            final(self).spec_host() == old(self).spec_host(),
    {
        let mut detached = false;
        if self.owns_delegate {
            if self.superview != 0 {
                self.superview = 0;
                detached = true;
            }
            self.slot.unbind();
            self.owns_delegate = false;
        }
        detached
    }
}

} // verus!
