//! The delegate pointer bridge.
//!
//! A host instance carries one pointer-sized instance variable (the *slot*).
//! The slot is either `0` (unset) or the stable address of a heap-owned
//! callback object. Three primitives manipulate it:
//!
//! - `store` writes the address of a freshly boxed callback into an empty slot;
//! - `begin_callback` / `end_callback` bracket one host callback: the stored
//!   address is handed out as a transient borrow and re-published on return,
//!   with no net change to the slot;
//! - `unbind` clears the slot and reclaims the heap container, exactly once.
//!
//! [`DelegateSlot`] is the verified state of one such slot. The unverified
//! layer that owns the real instance variable mirrors every host-side write
//! through these methods, so the contracts here govern the whole protocol:
//! a stored callback is never dropped while the slot is set, a callback borrow
//! always returns the stored address and leaves the slot unchanged, and the
//! heap container is reclaimed exactly once per store.

use vstd::prelude::*;

verus! {

/// The abstract state of one delegate slot: the stored address (`0` when
/// unset), the number of callback borrows currently outstanding, and how many
/// times a stored callback container has been reclaimed so far.
pub ghost struct SlotModel {
    pub addr: u64,
    pub borrows: u64,
    pub destroyed: u64,
}

impl SlotModel {
    /// The slot holds the address of a live callback container.
    pub open spec fn is_set(self) -> bool {
        self.addr != 0
    }

    /// A borrow is outstanding only while the slot is set.
    pub open spec fn wf(self) -> bool {
        self.borrows > 0 ==> self.addr != 0
    }
}

/// One step of the slot protocol, as seen at the bridge boundary.
pub enum SlotEvent {
    /// A callback container was boxed and its address written to the slot.
    Store { addr: u64 },
    /// A host callback began; the stored address was borrowed.
    BeginCallback,
    /// The host callback returned; the borrow was given back.
    EndCallback,
    /// The slot was cleared and the container reclaimed.
    Unbind,
}

/// Whether `e` may fire in state `s`: the guard each exec method requires.
pub open spec fn event_enabled(s: SlotModel, e: SlotEvent) -> bool {
    match e {
        SlotEvent::Store { addr } => addr != 0 && s.addr == 0 && s.borrows == 0,
        SlotEvent::BeginCallback => s.addr != 0 && s.borrows < u64::MAX,
        SlotEvent::EndCallback => s.borrows > 0,
        SlotEvent::Unbind => s.addr != 0 && s.borrows == 0 && s.destroyed < u64::MAX,
    }
}

/// The state after `e` fires in state `s`.
pub open spec fn event_step(s: SlotModel, e: SlotEvent) -> SlotModel {
    match e {
        SlotEvent::Store { addr } => SlotModel { addr, ..s },
        SlotEvent::BeginCallback => SlotModel { borrows: (s.borrows + 1) as u64, ..s },
        SlotEvent::EndCallback => SlotModel { borrows: (s.borrows - 1) as u64, ..s },
        SlotEvent::Unbind => SlotModel {
            addr: 0,
            borrows: s.borrows,
            destroyed: (s.destroyed + 1) as u64,
        },
    }
}

/// A verified delegate slot. The exec state mirrors the model exactly; the
/// counters let tests observe borrows and reclamations.
pub struct DelegateSlot {
    addr: u64,
    borrows: u64,
    destroyed: u64,
}

impl View for DelegateSlot {
    type V = SlotModel;

    closed spec fn view(&self) -> SlotModel {
        SlotModel { addr: self.addr, borrows: self.borrows, destroyed: self.destroyed }
    }
}

impl DelegateSlot {
    /// A fresh, unset slot: the instance variable starts at `0`.
    pub fn new() -> (s: Self)
        ensures
            s@ == (SlotModel { addr: 0, borrows: 0, destroyed: 0 }),
    {
        DelegateSlot { addr: 0, borrows: 0, destroyed: 0 }
    }

    /// The stored address; `0` means unset.
    pub fn addr(&self) -> (a: u64)
        ensures
            a == self@.addr,
    {
        self.addr
    }

    /// Whether a callback is currently attached.
    pub fn is_set(&self) -> (b: bool)
        ensures
            b == self@.is_set(),
    {
        self.addr != 0
    }

    /// How many callback borrows are outstanding.
    pub fn borrow_count(&self) -> (n: u64)
        ensures
            n == self@.borrows,
    {
        self.borrows
    }

    /// How many times a stored callback container has been reclaimed.
    pub fn destroy_count(&self) -> (n: u64)
        ensures
            n == self@.destroyed,
    {
        self.destroyed
    }

    /// Attach a callback: write the address of its heap container into the
    /// empty slot. The container stays live for as long as the slot is set.
    pub fn store(&mut self, addr: u64)
        requires
            event_enabled(old(self)@, SlotEvent::Store { addr }),
        ensures
            final(self)@ == event_step(old(self)@, SlotEvent::Store { addr }),
    {
        self.addr = addr;
    }

    /// Begin one host callback: hand out the stored address as a transient
    /// borrow. The returned address is exactly what `store` put there.
    pub fn begin_callback(&mut self) -> (a: u64)
        requires
            event_enabled(old(self)@, SlotEvent::BeginCallback),
        ensures
            final(self)@ == event_step(old(self)@, SlotEvent::BeginCallback),
            a == old(self)@.addr,
    {
        self.borrows = self.borrows + 1;
        self.addr
    }

    /// End the callback: re-publish the container so the stored address stays
    /// valid. The slot value is untouched — no net change in ownership.
    pub fn end_callback(&mut self)
        requires
            event_enabled(old(self)@, SlotEvent::EndCallback),
        ensures
            final(self)@ == event_step(old(self)@, SlotEvent::EndCallback),
    {
        self.borrows = self.borrows - 1;
    }

    /// Read the slot without a borrow: the stored address, unchanged.
    pub fn load(&self) -> (a: u64)
        requires
            self@.is_set(),
        ensures
            a == self@.addr,
            a != 0,
    {
        self.addr
    }

    /// Clear the slot and reclaim the heap container. Requires that no
    /// callback borrow is outstanding (the non-reentrancy contract) and
    /// reclaims exactly once: the slot is unset afterwards, so a second
    /// `unbind` is impossible without a new `store`.
    pub fn unbind(&mut self)
        requires
            event_enabled(old(self)@, SlotEvent::Unbind),
        ensures
            final(self)@ == event_step(old(self)@, SlotEvent::Unbind),
            final(self)@.destroyed == old(self)@.destroyed + 1,
            !final(self)@.is_set(),
    {
        self.addr = 0;
        self.destroyed = self.destroyed + 1;
    }
}

/// A protocol trace is valid when every event is enabled in the state it
/// fires from.
pub open spec fn trace_valid(s: SlotModel, t: Seq<SlotEvent>) -> bool
    decreases t.len(),
{
    t.len() == 0 || (event_enabled(s, t[0]) && trace_valid(event_step(s, t[0]), t.skip(1)))
}

/// The state after running a whole trace from `s`.
pub open spec fn trace_run(s: SlotModel, t: Seq<SlotEvent>) -> SlotModel
    decreases t.len(),
{
    if t.len() == 0 {
        s
    } else {
        trace_run(event_step(s, t[0]), t.skip(1))
    }
}

/// The number of `Store` events in a trace.
pub open spec fn count_stores(t: Seq<SlotEvent>) -> nat
    decreases t.len(),
{
    if t.len() == 0 {
        0
    } else {
        (if t[0] is Store {
            1nat
        } else {
            0nat
        }) + count_stores(t.skip(1))
    }
}

/// The number of `Unbind` events in a trace.
pub open spec fn count_unbinds(t: Seq<SlotEvent>) -> nat
    decreases t.len(),
{
    if t.len() == 0 {
        0
    } else {
        (if t[0] is Unbind {
            1nat
        } else {
            0nat
        }) + count_unbinds(t.skip(1))
    }
}

/// Reclamations are counted exactly: running a valid trace raises the
/// destruction counter by precisely the number of `Unbind` events in it.
pub proof fn lemma_destroyed_counts_unbinds(s: SlotModel, t: Seq<SlotEvent>)
    requires
        trace_valid(s, t),
    ensures
        trace_run(s, t).destroyed == s.destroyed + count_unbinds(t),
    decreases t.len(),
{
    if t.len() > 0 {
        lemma_destroyed_counts_unbinds(event_step(s, t[0]), t.skip(1));
    }
}

/// Drop-once: in any valid protocol trace, the callback container is
/// reclaimed at most once per attachment — the number of `Unbind` events
/// never exceeds the number of `Store` events, plus one if a callback was
/// already attached when the trace began.
pub proof fn lemma_drop_at_most_once(s: SlotModel, t: Seq<SlotEvent>)
    requires
        trace_valid(s, t),
    ensures
        count_unbinds(t) <= count_stores(t) + if s.is_set() {
            1int
        } else {
            0int
        },
    decreases t.len(),
{
    if t.len() > 0 {
        lemma_drop_at_most_once(event_step(s, t[0]), t.skip(1));
    }
}

/// Drop-once, exactly: over the combined lifetime of a widget handle and any
/// host-toolkit references — any valid trace from an empty slot in which the
/// callback is attached once — the destruction counter rises by exactly the
/// number of `Unbind` events, and there can be at most one of those. The
/// handle's drop performs that one `Unbind`, so exactly one destruction of the
/// callback is ever observable.
pub proof fn lemma_drop_exactly_once(s: SlotModel, t: Seq<SlotEvent>)
    requires
        s.wf(),
        !s.is_set(),
        trace_valid(s, t),
        count_stores(t) == 1,
    ensures
        trace_run(s, t).destroyed == s.destroyed + count_unbinds(t),
        count_unbinds(t) <= 1,
{
    lemma_destroyed_counts_unbinds(s, t);
    lemma_drop_at_most_once(s, t);
}

/// Slot round-trip: bracketing one host callback with `begin_callback` and
/// `end_callback` hands the callback the stored address and returns the slot
/// to exactly the state it had before the callback ran.
pub proof fn lemma_callback_round_trip(s: SlotModel)
    requires
        s.wf(),
        s.is_set(),
        s.borrows < u64::MAX,
    ensures
        event_step(event_step(s, SlotEvent::BeginCallback), SlotEvent::EndCallback) == s,
        event_enabled(s, SlotEvent::BeginCallback),
        event_enabled(event_step(s, SlotEvent::BeginCallback), SlotEvent::EndCallback),
{
}

} // verus!
