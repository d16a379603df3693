//! The list view and its reusable row vendor.
//!
//! The list-view handle owns an identifier-keyed map of row factories (the
//! [`CellFactory`]), a delegate slot and a vendor slot on the host table, and
//! — on the desktop toolkit — a companion scroll view that the table is
//! embedded in as the document view. Layout anchors refer to the scroll view,
//! so user layout governs the scrollable region.
//!
//! Two protocols are verified here:
//!
//! - **Dequeue.** A dequeue first asks the host's reuse pool for a row with
//!   the given identifier; only if the pool comes back empty may the factory
//!   run and a new host row be allocated. An unregistered identifier fails
//!   fast with no factory call and no allocation; a factory whose produced
//!   type does not match the caller's expectation is a reported type
//!   mismatch.
//! - **Batch updates.** Row insertions, removals and reloads issued between
//!   "begin updates" and "end updates" are buffered by the host and applied
//!   atomically: the committed row count is untouched until "end updates",
//!   which is invoked on the normal return and on the failure path alike.

use vstd::prelude::*;

use crate::BridgeError;
use crate::bridge::{DelegateSlot, SlotModel};
use crate::widget::{Anchors, CallbackMethod};

verus! {

/// A registered row factory, as the bridge sees it: the token of the concrete
/// row-callback type it produces, and an opaque identity for the factory
/// function itself.
#[derive(Clone, Copy, Debug, PartialEq, Eq, Structural)]
pub struct CellVendor {
    pub type_token: u64,
    pub vendor: u64,
}

/// The vendor registered under `id`, if any; the latest registration wins.
pub open spec fn vendor_lookup(m: Seq<(Seq<char>, CellVendor)>, id: Seq<char>) -> Option<
    CellVendor,
>
    decreases m.len(),
{
    if m.len() == 0 {
        None
    } else if m.last().0 == id {
        Some(m.last().1)
    } else {
        vendor_lookup(m.drop_last(), id)
    }
}

/// The identifier-keyed map of row factories owned by one list view.
pub struct CellFactory {
    entries: Vec<(String, CellVendor)>,
}

impl View for CellFactory {
    type V = Seq<(Seq<char>, CellVendor)>;

    closed spec fn view(&self) -> Seq<(Seq<char>, CellVendor)> {
        self.entries@.map_values(|p: (String, CellVendor)| (p.0@, p.1))
    }
}

impl CellFactory {
    /// An empty factory map.
    pub fn new() -> (r: Self)
        ensures
            r@ == Seq::<(Seq<char>, CellVendor)>::empty(),
    {
        let r = CellFactory { entries: Vec::new() };
        proof {
            assert(r@ =~= Seq::<(Seq<char>, CellVendor)>::empty());
        }
        r
    }

    /// Register `vendor` under `identifier`. A later registration for the
    /// same identifier shadows the earlier one; every other identifier keeps
    /// its vendor.
    pub fn insert(&mut self, identifier: String, vendor: CellVendor)
        ensures
            final(self)@ == old(self)@.push((identifier@, vendor)),
            vendor_lookup(final(self)@, identifier@) == Some(vendor),
            forall|id: Seq<char>|
                id != identifier@ ==> #[trigger] vendor_lookup(final(self)@, id) == vendor_lookup(
                    old(self)@,
                    id,
                ),
    {
        let ghost old_view = self@;
        self.entries.push((identifier, vendor));
        proof {
            assert(self@ =~= old_view.push((identifier@, vendor)));
            assert(self@.drop_last() =~= old_view);
            assert forall|id: Seq<char>| id != identifier@ implies #[trigger] vendor_lookup(
                self@,
                id,
            ) == vendor_lookup(old_view, id) by {
                assert(self@.last().0 == identifier@);
            }
        }
    }

    /// Look up the vendor registered under `identifier`. Fails with
    /// [`BridgeError::UnknownRowIdentifier`] exactly when no registration for
    /// the identifier exists.
    pub fn get(&self, identifier: &str) -> (r: Result<CellVendor, BridgeError>)
        ensures
            match vendor_lookup(self@, identifier@) {
                Some(v) => r == Ok::<CellVendor, BridgeError>(v),
                None => r == Err::<CellVendor, BridgeError>(BridgeError::UnknownRowIdentifier),
            },
    {
        let key: String = identifier.to_owned();
        let n = self.entries.len();
        proof {
            assert(self@.len() == n);
            assert(self@.take(n as int) =~= self@);
        }
        let mut i: usize = n;
        while i > 0
            invariant
                i <= n,
                n == self.entries.len(),
                key@ == identifier@,
                vendor_lookup(self@, identifier@) == vendor_lookup(
                    self@.take(i as int),
                    identifier@,
                ),
            decreases i,
        {
            proof {
                assert(self@.take(i as int).last() == self@[i - 1]);
                assert(self@.take(i as int).drop_last() =~= self@.take(i as int - 1));
            }
            if self.entries[i - 1].0 == key {
                return Ok(self.entries[i - 1].1);
            }
            i = i - 1;
        }
        proof {
            assert(self@.take(0) =~= Seq::<(Seq<char>, CellVendor)>::empty());
        }
        Err(BridgeError::UnknownRowIdentifier)
    }
}

/// A host row-animation option, passed through to the host's batch calls.
#[derive(Clone, Copy, Debug, PartialEq, Eq, Structural)]
pub enum RowAnimation {
    NoEffect,
    Fade,
    Gap,
    SlideUp,
    SlideDown,
    SlideLeft,
    SlideRight,
}

/// One buffered row update, as issued inside a batch.
#[derive(Debug)]
pub enum BatchOp {
    Insert { indexes: Vec<usize>, animation: RowAnimation },
    Remove { indexes: Vec<usize>, animation: RowAnimation },
    Reload { indexes: Vec<usize> },
}

/// The row count after one update. Index sets are deduplicated by the host,
/// so an update counts each distinct index once.
pub open spec fn op_result(rows: int, op: BatchOp) -> int {
    match op {
        BatchOp::Insert { indexes, .. } => rows + indexes@.to_set().len(),
        BatchOp::Remove { indexes, .. } => rows - indexes@.to_set().len(),
        BatchOp::Reload { .. } => rows,
    }
}

/// Whether the host accepts the update at the given row count: insertion
/// indexes must name rows of the grown table and the grown table must fit;
/// removal and reload indexes must name existing rows.
pub open spec fn op_valid(rows: int, op: BatchOp) -> bool {
    match op {
        BatchOp::Insert { indexes, .. } => {
            &&& forall|i: int|
                0 <= i < indexes@.len() ==> (#[trigger] indexes@[i]) < rows
                    + indexes@.to_set().len()
            &&& rows + indexes@.to_set().len() <= usize::MAX
        },
        BatchOp::Remove { indexes, .. } => {
            &&& forall|i: int| 0 <= i < indexes@.len() ==> (#[trigger] indexes@[i]) < rows
            &&& indexes@.to_set().len() <= rows
        },
        BatchOp::Reload { indexes } => forall|i: int|
            0 <= i < indexes@.len() ==> (#[trigger] indexes@[i]) < rows,
    }
}

/// Whether a whole update sequence is accepted, each op at the row count the
/// previous ops produce.
pub open spec fn ops_valid(rows: int, ops: Seq<BatchOp>) -> bool
    decreases ops.len(),
{
    ops.len() == 0 || (op_valid(rows, ops[0]) && ops_valid(op_result(rows, ops[0]), ops.skip(1)))
}

/// The row count after a whole update sequence.
pub open spec fn ops_result(rows: int, ops: Seq<BatchOp>) -> int
    decreases ops.len(),
{
    if ops.len() == 0 {
        rows
    } else {
        ops_result(op_result(rows, ops[0]), ops.skip(1))
    }
}

/// The number of distinct indexes in `indexes`: the size of the index set the
/// host builds from them.
pub fn distinct_count(indexes: &Vec<usize>) -> (n: usize)
    ensures
        n == indexes@.to_set().len(),
{
    let mut seen: Vec<usize> = Vec::new();
    let mut i: usize = 0;
    proof {
        assert(indexes@.take(0) =~= Seq::<usize>::empty());
        assert(seen@.to_set() =~= indexes@.take(0).to_set());
    }
    while i < indexes.len()
        invariant
            i <= indexes@.len(),
            seen@.no_duplicates(),
            seen@.to_set() == indexes@.take(i as int).to_set(),
            seen@.len() <= i,
        decreases indexes@.len() - i,
    {
        let x = indexes[i];
        let mut found = false;
        let mut j: usize = 0;
        while j < seen.len()
            invariant
                j <= seen@.len(),
                found == seen@.take(j as int).contains(x),
            decreases seen@.len() - j,
        {
            proof {
                assert(seen@.take(j as int + 1).drop_last() =~= seen@.take(j as int));
                assert(seen@.take(j as int + 1).last() == seen@[j as int]);
            }
            if seen[j] == x {
                found = true;
            }
            j = j + 1;
        }
        proof {
            assert(seen@.take(seen@.len() as int) =~= seen@);
        }
        let ghost prev_seen = seen@;
        if !found {
            seen.push(x);
        }
        proof {
            assert(indexes@.take(i as int + 1) =~= indexes@.take(i as int).push(x));
            indexes@.take(i as int).lemma_push_to_set_commute(x);
            if found {
                assert(prev_seen.contains(x));
                assert(indexes@.take(i as int).to_set().contains(x));
                assert(indexes@.take(i as int).to_set().insert(x) =~= indexes@.take(
                    i as int,
                ).to_set());
            } else {
                assert(seen@ == prev_seen.push(x));
                prev_seen.lemma_push_to_set_commute(x);
                assert forall|p: int, q: int|
                    0 <= p < seen@.len() && 0 <= q < seen@.len() && p != q implies seen@[p]
                    != seen@[q] by {
                    if q == seen@.len() - 1 && p < q {
                        if seen@[p] == x {
                            assert(prev_seen[p] == x);
                            assert(prev_seen.contains(x));
                        }
                    }
                    if p == seen@.len() - 1 && q < p {
                        if seen@[q] == x {
                            assert(prev_seen[q] == x);
                            assert(prev_seen.contains(x));
                        }
                    }
                }
            }
            assert(seen@.to_set() =~= indexes@.take(i as int + 1).to_set());
        }
        i = i + 1;
    }
    proof {
        assert(indexes@.take(indexes@.len() as int) =~= indexes@);
        seen@.unique_seq_to_set();
    }
    seen.len()
}

/// A handle to one list row: the host row object, whether it came from the
/// host's reuse pool, and — for newly vended rows — the identifier under
/// which the pool may later return it.
pub struct RowHandle {
    host: u64,
    from_cache: bool,
    identifier: Option<String>,
    slot: DelegateSlot,
}

impl RowHandle {
    /// The host row object.
    pub closed spec fn spec_host(&self) -> u64 {
        self.host
    }

    /// Whether the row was drawn from the host's reuse pool.
    pub closed spec fn spec_from_cache(&self) -> bool {
        self.from_cache
    }

    /// The reuse identifier set on a newly vended row.
    pub closed spec fn spec_identifier(&self) -> Option<Seq<char>> {
        match self.identifier {
            Some(s) => Some(s@),
            None => None,
        }
    }

    /// The row's delegate slot.
    pub closed spec fn slot(&self) -> SlotModel {
        self.slot@
    }

    /// Whether this handle came from the reuse pool.
    pub fn is_from_cache(&self) -> (b: bool)
        ensures
            b == self.spec_from_cache(),
    {
        self.from_cache
    }

    /// The host row object.
    pub fn host(&self) -> (h: u64)
        ensures
            h == self.spec_host(),
    {
        self.host
    }

    /// The reuse identifier set on a newly vended row, if any.
    pub fn reuse_identifier(&self) -> (r: &Option<String>)
        ensures
            match r {
                Some(s) => self.spec_identifier() == Some(s@),
                None => self.spec_identifier() is None,
            },
    {
        &self.identifier
    }

    /// The address of the boxed row callback stored in the row's slot, or `0`.
    pub fn delegate_addr(&self) -> (a: u64)
        ensures
            a == self.slot().addr,
    {
        self.slot.addr()
    }

    /// Drop the row handle. A vended row owns its callback and reclaims it
    /// here, exactly once; a pooled row's callback stayed in place and is
    /// untouched.
    pub fn drop_handle(&mut self)
        requires
            old(self).slot().wf(),
            old(self).slot().borrows == 0,
            old(self).slot().destroyed < u64::MAX,
        ensures
            !final(self).slot().is_set(),
            old(self).slot().is_set() ==> final(self).slot().destroyed == old(
                self,
            ).slot().destroyed + 1,
            !old(self).slot().is_set() ==> final(self).slot() == old(self).slot(),
            final(self).spec_host() == old(self).spec_host(),
            final(self).spec_from_cache() == old(self).spec_from_cache(),
            final(self).spec_identifier() == old(self).spec_identifier(),
    {
        if self.slot.is_set() {
            self.slot.unbind();
        }
    }
}

/// The decision a dequeue reaches before any host allocation happens.
#[derive(Clone, Copy, Debug, PartialEq, Eq, Structural)]
pub enum DequeuePlan {
    /// The host's reuse pool supplied a row: wrap it, attach nothing.
    Reuse { host: u64 },
    /// The pool was empty: run the named factory and allocate a fresh row.
    Vend { vendor: u64 },
}

/// The abstract state of one list-view handle.
pub ghost struct ListViewModel {
    /// The registered row factories, in registration order.
    pub vendors: Seq<(Seq<char>, CellVendor)>,
    /// The host table object.
    pub table_host: u64,
    /// The companion scroll view the table is embedded in.
    pub scroll_host: u64,
    /// The layout anchors — taken from the scroll view.
    pub anchors: Anchors,
    /// The table's delegate slot.
    pub delegate: SlotModel,
    /// The table's vendor slot (the back pointer to the factory map).
    pub vendor_slot: SlotModel,
    /// Whether this handle owns the user's callback object.
    pub owns_delegate: bool,
    /// The host parent view of the scroll view, or `0`.
    pub superview: u64,
    /// The row count the host has committed — what observers of the table see.
    pub committed_rows: usize,
    /// The row count including updates buffered in the open batch.
    pub projected_rows: usize,
    /// Whether a batch is open ("begin updates" without its "end updates").
    pub in_batch: bool,
    /// How many times a row factory has been invoked.
    pub factory_calls: u64,
    /// How many host row objects have been allocated by dequeues.
    pub rows_allocated: u64,
    /// The callback methods dispatched so far.
    pub calls: Seq<CallbackMethod>,
}

impl ListViewModel {
    /// A live list view: nonzero hosts, slots idle and set exactly when the
    /// handle owns a callback, and no buffered updates outside a batch.
    pub open spec fn wf(self) -> bool {
        &&& self.table_host != 0
        &&& self.scroll_host != 0
        &&& self.delegate.wf()
        &&& self.vendor_slot.wf()
        &&& (self.delegate.is_set() <==> self.owns_delegate)
        &&& (self.vendor_slot.is_set() <==> self.owns_delegate)
        &&& self.delegate.borrows == 0
        &&& self.vendor_slot.borrows == 0
        &&& (!self.in_batch ==> self.projected_rows == self.committed_rows)
    }
}

/// An owning handle over one host table widget and its scroll view.
pub struct ListView {
    factory: CellFactory,
    table_host: u64,
    scroll_host: u64,
    anchors: Anchors,
    delegate: DelegateSlot,
    vendor_slot: DelegateSlot,
    owns_delegate: bool,
    superview: u64,
    committed_rows: usize,
    projected_rows: usize,
    in_batch: bool,
    factory_calls: u64,
    rows_allocated: u64,
    calls: Vec<CallbackMethod>,
}

impl View for ListView {
    type V = ListViewModel;

    closed spec fn view(&self) -> ListViewModel {
        ListViewModel {
            vendors: self.factory@,
            table_host: self.table_host,
            scroll_host: self.scroll_host,
            anchors: self.anchors,
            delegate: self.delegate@,
            vendor_slot: self.vendor_slot@,
            owns_delegate: self.owns_delegate,
            superview: self.superview,
            committed_rows: self.committed_rows,
            projected_rows: self.projected_rows,
            in_batch: self.in_batch,
            factory_calls: self.factory_calls,
            rows_allocated: self.rows_allocated,
            calls: self.calls@,
        }
    }
}

/// A non-owning list-view clone, as handed to callbacks: it shares the host
/// objects and anchors and carries neither the callback nor the factory map.
#[derive(Clone, Copy, Debug, PartialEq, Eq, Structural)]
pub struct ListViewRef {
    pub table_host: u64,
    pub scroll_host: u64,
    pub anchors: Anchors,
}

impl ListView {
    /// A delegate-less list view over a freshly allocated host table embedded
    /// in `scroll_host`: empty factory map, no rows, no batch open.
    pub fn new(table_host: u64, scroll_host: u64, anchors: Anchors) -> (r: Self)
        requires
            table_host != 0,
            scroll_host != 0,
        ensures
            r@.wf(),
            r@ == (ListViewModel {
                vendors: Seq::<(Seq<char>, CellVendor)>::empty(),
                table_host,
                scroll_host,
                anchors,
                delegate: SlotModel { addr: 0, borrows: 0, destroyed: 0 },
                vendor_slot: SlotModel { addr: 0, borrows: 0, destroyed: 0 },
                owns_delegate: false,
                superview: 0,
                committed_rows: 0,
                projected_rows: 0,
                in_batch: false,
                factory_calls: 0,
                rows_allocated: 0,
                calls: Seq::<CallbackMethod>::empty(),
            }),
    {
        let r = ListView {
            factory: CellFactory::new(),
            table_host,
            scroll_host,
            anchors,
            delegate: DelegateSlot::new(),
            vendor_slot: DelegateSlot::new(),
            owns_delegate: false,
            superview: 0,
            committed_rows: 0,
            projected_rows: 0,
            in_batch: false,
            factory_calls: 0,
            rows_allocated: 0,
            calls: Vec::new(),
        };
        proof {
            assert(r@.vendors =~= Seq::<(Seq<char>, CellVendor)>::empty());
            assert(r@.calls =~= Seq::<CallbackMethod>::empty());
        }
        r
    }

    /// A list view owning the callback boxed at `delegate_addr`, with the
    /// factory map published at `vendor_addr`. Both addresses are stored in
    /// the host instance's slots before the callback's `did_load` is
    /// dispatched with a handle clone.
    pub fn with(
        table_host: u64,
        scroll_host: u64,
        anchors: Anchors,
        delegate_addr: u64,
        vendor_addr: u64,
    ) -> (r: Self)
        requires
            table_host != 0,
            scroll_host != 0,
            delegate_addr != 0,
            vendor_addr != 0,
        ensures
            r@.wf(),
            r@ == (ListViewModel {
                vendors: Seq::<(Seq<char>, CellVendor)>::empty(),
                table_host,
                scroll_host,
                anchors,
                delegate: SlotModel { addr: delegate_addr, borrows: 0, destroyed: 0 },
                vendor_slot: SlotModel { addr: vendor_addr, borrows: 0, destroyed: 0 },
                owns_delegate: true,
                superview: 0,
                committed_rows: 0,
                projected_rows: 0,
                in_batch: false,
                factory_calls: 0,
                rows_allocated: 0,
                calls: seq![CallbackMethod::DidLoad],
            }),
    {
        let mut delegate = DelegateSlot::new();
        delegate.store(delegate_addr);
        let mut vendor_slot = DelegateSlot::new();
        vendor_slot.store(vendor_addr);
        let mut r = ListView {
            factory: CellFactory::new(),
            table_host,
            scroll_host,
            anchors,
            delegate,
            vendor_slot,
            owns_delegate: true,
            superview: 0,
            committed_rows: 0,
            projected_rows: 0,
            in_batch: false,
            factory_calls: 0,
            rows_allocated: 0,
            calls: Vec::new(),
        };
        let _addr = r.delegate.begin_callback();
        r.calls.push(CallbackMethod::DidLoad);
        r.delegate.end_callback();
        proof {
            assert(r@.vendors =~= Seq::<(Seq<char>, CellVendor)>::empty());
            assert(r@.calls =~= seq![CallbackMethod::DidLoad]);
        }
        r
    }

    /// The row count the host has committed: what observers of the table see.
    pub fn committed_rows(&self) -> (n: usize)
        ensures
            n == self@.committed_rows,
    {
        self.committed_rows
    }

    /// The row count including updates buffered in the open batch.
    pub fn projected_rows(&self) -> (n: usize)
        ensures
            n == self@.projected_rows,
    {
        self.projected_rows
    }

    /// Whether a batch is open.
    pub fn in_batch(&self) -> (b: bool)
        ensures
            b == self@.in_batch,
    {
        self.in_batch
    }

    /// How many times a row factory has been invoked.
    pub fn factory_calls(&self) -> (n: u64)
        ensures
            n == self@.factory_calls,
    {
        self.factory_calls
    }

    /// How many host row objects dequeues have allocated.
    pub fn rows_allocated(&self) -> (n: u64)
        ensures
            n == self@.rows_allocated,
    {
        self.rows_allocated
    }

    /// Whether this handle owns the user's callback object.
    pub fn has_delegate(&self) -> (b: bool)
        ensures
            b == self@.owns_delegate,
    {
        self.owns_delegate
    }

    /// The callback methods dispatched so far, in dispatch order.
    pub fn dispatched(&self) -> (c: &Vec<CallbackMethod>)
        ensures
            c@ == self@.calls,
    {
        &self.calls
    }

    /// The handle clone passed to callbacks.
    pub fn clone_as_handle(&self) -> (r: ListViewRef)
        ensures
            r.table_host == self@.table_host,
            r.scroll_host == self@.scroll_host,
            r.anchors == self@.anchors,
    {
        ListViewRef {
            table_host: self.table_host,
            scroll_host: self.scroll_host,
            anchors: self.anchors,
        }
    }

    /// The host object suitable for embedding this widget: the scroll view,
    /// not the table.
    pub fn get_backing_node(&self) -> (h: u64)
        ensures
            h == self@.scroll_host,
    {
        self.scroll_host
    }

    /// Register a row factory under `identifier` for later dequeues.
    pub fn register(&mut self, identifier: String, vendor: CellVendor)
        ensures
            final(self)@ == (ListViewModel {
                vendors: old(self)@.vendors.push((identifier@, vendor)),
                ..old(self)@
            }),
            vendor_lookup(final(self)@.vendors, identifier@) == Some(vendor),
    {
        self.factory.insert(identifier, vendor);
    }

    /// Decide one dequeue for `identifier`, given the host reuse pool's
    /// answer (`reuse`, `None` when the pool is empty) and the token of the
    /// row-callback type the caller expects.
    ///
    /// A pooled row is always used as it is: no factory call, no allocation.
    /// Only an empty pool consults the factory map; an unregistered
    /// identifier fails with no factory call, and a factory that produces the
    /// wrong type is reported after its one invocation.
    pub fn dequeue(&mut self, identifier: &str, reuse: Option<u64>, expected_type: u64) -> (r:
        Result<DequeuePlan, BridgeError>)
        requires
            old(self)@.wf(),
            old(self)@.factory_calls < u64::MAX,
            reuse matches Some(h) ==> h != 0,
        ensures
            final(self)@.wf(),
            reuse matches Some(h) ==> r == Ok::<DequeuePlan, BridgeError>(
                DequeuePlan::Reuse { host: h },
            ) && final(self)@ == old(self)@,
            reuse is None ==> match vendor_lookup(old(self)@.vendors, identifier@) {
                None => r == Err::<DequeuePlan, BridgeError>(BridgeError::UnknownRowIdentifier)
                    && final(self)@ == old(self)@,
                Some(v) => {
                    &&& final(self)@ == (ListViewModel {
                        factory_calls: (old(self)@.factory_calls + 1) as u64,
                        ..old(self)@
                    })
                    &&& if v.type_token == expected_type {
                        r == Ok::<DequeuePlan, BridgeError>(DequeuePlan::Vend { vendor: v.vendor })
                    } else {
                        r == Err::<DequeuePlan, BridgeError>(BridgeError::RowTypeMismatch)
                    }
                },
            },
    {
        match reuse {
            Some(host) => Ok(DequeuePlan::Reuse { host }),
            None => {
                match self.factory.get(identifier) {
                    Err(e) => Err(e),
                    Ok(v) => {
                        self.factory_calls = self.factory_calls + 1;
                        if v.type_token == expected_type {
                            Ok(DequeuePlan::Vend { vendor: v.vendor })
                        } else {
                            Err(BridgeError::RowTypeMismatch)
                        }
                    },
                }
            },
        }
    }

    /// Wrap a row the reuse pool supplied: marked "from cache", with the
    /// previous callback left in place and nothing allocated.
    pub fn adopt_reused(&self, host: u64) -> (row: RowHandle)
        requires
            host != 0,
        ensures
            row.spec_host() == host,
            row.spec_from_cache(),
            row.spec_identifier() is None,
            row.slot() == (SlotModel { addr: 0, borrows: 0, destroyed: 0 }),
    {
        RowHandle { host, from_cache: true, identifier: None, slot: DelegateSlot::new() }
    }

    /// Complete a `Vend` plan: take the freshly allocated host row, store the
    /// boxed row callback in its slot, and set the reuse identifier so the
    /// host pool can return the row later.
    pub fn allocate_row(&mut self, identifier: &str, new_host: u64, delegate_addr: u64) -> (row:
        RowHandle)
        requires
            old(self)@.wf(),
            new_host != 0,
            delegate_addr != 0,
            old(self)@.rows_allocated < u64::MAX,
        ensures
            final(self)@.wf(),
            final(self)@ == (ListViewModel {
                rows_allocated: (old(self)@.rows_allocated + 1) as u64,
                ..old(self)@
            }),
            row.spec_host() == new_host,
            !row.spec_from_cache(),
            row.spec_identifier() == Some(identifier@),
            row.slot() == (SlotModel { addr: delegate_addr, borrows: 0, destroyed: 0 }),
    {
        self.rows_allocated = self.rows_allocated + 1;
        let mut slot = DelegateSlot::new();
        slot.store(delegate_addr);
        RowHandle { host: new_host, from_cache: false, identifier: Some(identifier.to_owned()), slot }
    }

    /// Attach the scroll view to a parent view.
    pub fn attach_to(&mut self, parent: u64)
        requires
            old(self)@.wf(),
            parent != 0,
        ensures
            final(self)@.wf(),
            final(self)@ == (ListViewModel { superview: parent, ..old(self)@ }),
    {
        self.superview = parent;
    }

    /// The host parent view of the scroll view, or `0` while unparented.
    pub fn superview(&self) -> (s: u64)
        ensures
            s == self@.superview,
    {
        self.superview
    }

    /// Drop the handle. If it owns a callback and is still parented, the
    /// widget is detached from its parent; then both slots are unbound,
    /// reclaiming the callback container and the published factory map
    /// exactly once each. A delegate-less handle changes nothing.
    ///
    /// Returns whether the widget was detached from a parent.
    pub fn drop_handle(&mut self) -> (detached: bool)
        requires
            old(self)@.wf(),
            old(self)@.delegate.destroyed < u64::MAX,
            old(self)@.vendor_slot.destroyed < u64::MAX,
        ensures
            final(self)@.wf(),
            !final(self)@.owns_delegate,
            detached == (old(self)@.owns_delegate && old(self)@.superview != 0),
            old(self)@.owns_delegate ==> final(self)@ == (ListViewModel {
                owns_delegate: false,
                superview: 0,
                delegate: SlotModel {
                    addr: 0,
                    borrows: 0,
                    destroyed: (old(self)@.delegate.destroyed + 1) as u64,
                },
                vendor_slot: SlotModel {
                    addr: 0,
                    borrows: 0,
                    destroyed: (old(self)@.vendor_slot.destroyed + 1) as u64,
                },
                ..old(self)@
            }),
            !old(self)@.owns_delegate ==> final(self)@ == old(self)@,
    {
        let mut detached = false;
        if self.owns_delegate {
            if self.superview != 0 {
                self.superview = 0;
                detached = true;
            }
            self.delegate.unbind();
            self.vendor_slot.unbind();
            self.owns_delegate = false;
        }
        detached
    }

    /// Open a batch: the host buffers row updates until `end_updates`.
    pub fn begin_updates(&mut self)
        requires
            old(self)@.wf(),
            !old(self)@.in_batch,
        ensures
            final(self)@.wf(),
            final(self)@ == (ListViewModel { in_batch: true, ..old(self)@ }),
    {
        self.in_batch = true;
    }

    /// Close the batch: the buffered updates become visible at once — the
    /// committed row count changes here and nowhere else inside a batch.
    pub fn end_updates(&mut self)
        requires
            old(self)@.wf(),
            old(self)@.in_batch,
        ensures
            final(self)@.wf(),
            final(self)@ == (ListViewModel {
                in_batch: false,
                committed_rows: old(self)@.projected_rows,
                ..old(self)@
            }),
    {
        self.in_batch = false;
        self.committed_rows = self.projected_rows;
    }

    /// Insert rows at the given (deduplicated) indexes. Inside a batch the
    /// insertion is buffered: the committed count is untouched until
    /// `end_updates`. Outside a batch it commits immediately.
    pub fn insert_rows(&mut self, indexes: &Vec<usize>, animation: RowAnimation)
        requires
            old(self)@.wf(),
            forall|i: int|
                0 <= i < indexes@.len() ==> (#[trigger] indexes@[i]) < old(self)@.projected_rows
                    + indexes@.to_set().len(),
            old(self)@.projected_rows + indexes@.to_set().len() <= usize::MAX,
        ensures
            final(self)@.wf(),
            final(self)@ == (ListViewModel {
                projected_rows: (old(self)@.projected_rows + indexes@.to_set().len()) as usize,
                committed_rows: if old(self)@.in_batch {
                    old(self)@.committed_rows
                } else {
                    (old(self)@.projected_rows + indexes@.to_set().len()) as usize
                },
                ..old(self)@
            }),
    {
        let k = distinct_count(indexes);
        self.projected_rows = self.projected_rows + k;
        if !self.in_batch {
            self.committed_rows = self.projected_rows;
        }
    }

    /// Remove the rows at the given (deduplicated) indexes; buffered inside a
    /// batch, immediate outside.
    pub fn remove_rows(&mut self, indexes: &Vec<usize>, animation: RowAnimation)
        requires
            old(self)@.wf(),
            forall|i: int|
                0 <= i < indexes@.len() ==> (#[trigger] indexes@[i]) < old(self)@.projected_rows,
            indexes@.to_set().len() <= old(self)@.projected_rows,
        ensures
            final(self)@.wf(),
            final(self)@ == (ListViewModel {
                projected_rows: (old(self)@.projected_rows - indexes@.to_set().len()) as usize,
                committed_rows: if old(self)@.in_batch {
                    old(self)@.committed_rows
                } else {
                    (old(self)@.projected_rows - indexes@.to_set().len()) as usize
                },
                ..old(self)@
            }),
    {
        let k = distinct_count(indexes);
        self.projected_rows = self.projected_rows - k;
        if !self.in_batch {
            self.committed_rows = self.projected_rows;
        }
    }

    /// Ask the host to redraw the rows at the given indexes. The row count is
    /// untouched.
    pub fn reload_rows(&mut self, indexes: &Vec<usize>)
        requires
            old(self)@.wf(),
            forall|i: int|
                0 <= i < indexes@.len() ==> (#[trigger] indexes@[i]) < old(self)@.projected_rows,
        ensures
            final(self)@.wf(),
            final(self)@ == old(self)@,
    {
    }

    /// Reload the whole table: the host re-queries the data source, whose
    /// answer is `row_count`.
    pub fn reload(&mut self, row_count: usize)
        requires
            old(self)@.wf(),
            !old(self)@.in_batch,
        ensures
            final(self)@.wf(),
            final(self)@ == (ListViewModel {
                committed_rows: row_count,
                projected_rows: row_count,
                ..old(self)@
            }),
    {
        self.committed_rows = row_count;
        self.projected_rows = row_count;
    }

    /// Run a whole update sequence as one batch: bracket the updates between
    /// `begin_updates` and `end_updates`, applying each op to the buffered
    /// count only. The committed count changes exactly once, at the closing
    /// `end_updates` — which runs on the normal return and on the failure
    /// path alike. `fail_after: Some(k)` models a user function that issues
    /// `k` updates and then returns through its failure channel; the result
    /// says whether the function completed.
    pub fn perform_batch_updates(&mut self, ops: &Vec<BatchOp>, fail_after: Option<usize>) -> (
        completed: bool)
        requires
            old(self)@.wf(),
            !old(self)@.in_batch,
            ops_valid(old(self)@.committed_rows as int, ops@),
            ops_result_fits(old(self)@.committed_rows as int, ops@),
            fail_after matches Some(k) ==> k <= ops@.len(),
        ensures
            final(self)@.wf(),
            !final(self)@.in_batch,
            completed == (fail_after is None),
            final(self)@ == (ListViewModel {
                committed_rows: ops_result(
                    old(self)@.committed_rows as int,
                    ops@.take(applied_count(ops@.len() as int, fail_after) as int),
                ) as usize,
                projected_rows: ops_result(
                    old(self)@.committed_rows as int,
                    ops@.take(applied_count(ops@.len() as int, fail_after) as int),
                ) as usize,
                ..old(self)@
            }),
    {
        let ghost m0 = self@;
        let ghost rows0 = self@.committed_rows as int;
        let limit = match fail_after {
            Some(k) => k,
            None => ops.len(),
        };
        self.begin_updates();
        let mut i: usize = 0;
        proof {
            assert(ops@.take(0) =~= Seq::<BatchOp>::empty());
        }
        while i < limit
            invariant
                self@.wf(),
                self@.in_batch,
                i <= limit <= ops@.len(),
                rows0 == m0.committed_rows as int,
                self@ == (ListViewModel {
                    in_batch: true,
                    projected_rows: ops_result(rows0, ops@.take(i as int)) as usize,
                    ..m0
                }),
                ops_valid(rows0, ops@),
                ops_result_fits(rows0, ops@),
            decreases limit - i,
        {
            proof {
                lemma_ops_valid_prefix(rows0, ops@, i as int);
                lemma_ops_result_take(rows0, ops@, i as int);
                assert(self@.projected_rows as int == ops_result(rows0, ops@.take(i as int)));
            }
            match &ops[i] {
                BatchOp::Insert { indexes, animation } => {
                    self.insert_rows(indexes, *animation);
                },
                BatchOp::Remove { indexes, animation } => {
                    self.remove_rows(indexes, *animation);
                },
                BatchOp::Reload { indexes } => {
                    self.reload_rows(indexes);
                },
            }
            i = i + 1;
        }
        self.end_updates();
        match fail_after {
            Some(_) => false,
            None => true,
        }
    }
}

/// How many updates the user function issues before returning: all of them on
/// the normal path, `k` on the failure path.
pub open spec fn applied_count(len: int, fail_after: Option<usize>) -> int {
    match fail_after {
        Some(k) => k as int,
        None => len,
    }
}

/// Every intermediate row count of a valid update sequence fits the machine.
pub open spec fn ops_result_fits(rows: int, ops: Seq<BatchOp>) -> bool
    decreases ops.len(),
{
    ops.len() == 0 || (0 <= op_result(rows, ops[0]) <= usize::MAX && ops_result_fits(
        op_result(rows, ops[0]),
        ops.skip(1),
    ))
}

/// Validity of a sequence gives validity of the op after any applied prefix,
/// and keeps every intermediate row count within the machine's range.
pub proof fn lemma_ops_valid_prefix(rows: int, ops: Seq<BatchOp>, i: int)
    requires
        ops_valid(rows, ops),
        ops_result_fits(rows, ops),
        0 <= rows <= usize::MAX,
        0 <= i < ops.len(),
    ensures
        op_valid(ops_result(rows, ops.take(i)), ops[i]),
        0 <= ops_result(rows, ops.take(i)) <= usize::MAX,
        0 <= op_result(ops_result(rows, ops.take(i)), ops[i]) <= usize::MAX,
    decreases i,
{
    if i == 0 {
        assert(ops.take(0) =~= Seq::<BatchOp>::empty());
    } else {
        lemma_ops_valid_prefix(op_result(rows, ops[0]), ops.skip(1), i - 1);
        assert(ops.skip(1).take(i - 1) =~= ops.take(i).skip(1));
        assert(ops.take(i)[0] == ops[0]);
        assert(ops.skip(1)[i - 1] == ops[i]);
    }
}

/// Appending one op applies it after the rest of the sequence.
pub proof fn lemma_ops_result_push(rows: int, s: Seq<BatchOp>, e: BatchOp)
    ensures
        ops_result(rows, s.push(e)) == op_result(ops_result(rows, s), e),
    decreases s.len(),
{
    if s.len() == 0 {
        assert(s.push(e)[0] == e);
        assert(s.push(e).skip(1) =~= Seq::<BatchOp>::empty());
        assert(ops_result(rows, s.push(e)) == ops_result(
            op_result(rows, e),
            s.push(e).skip(1),
        ));
        assert(ops_result(op_result(rows, e), Seq::<BatchOp>::empty()) == op_result(rows, e));
        assert(ops_result(rows, s) == rows);
    } else {
        assert(s.push(e)[0] == s[0]);
        assert(s.push(e).skip(1) =~= s.skip(1).push(e));
        assert(ops_result(rows, s.push(e)) == ops_result(
            op_result(rows, s[0]),
            s.skip(1).push(e),
        ));
        lemma_ops_result_push(op_result(rows, s[0]), s.skip(1), e);
        assert(ops_result(rows, s) == ops_result(op_result(rows, s[0]), s.skip(1)));
    }
}

/// Applying one more op extends the result of the applied prefix.
pub proof fn lemma_ops_result_take(rows: int, ops: Seq<BatchOp>, i: int)
    requires
        0 <= i < ops.len(),
    ensures
        ops_result(rows, ops.take(i + 1)) == op_result(ops_result(rows, ops.take(i)), ops[i]),
{
    assert(ops.take(i + 1) =~= ops.take(i).push(ops[i]));
    lemma_ops_result_push(rows, ops.take(i), ops[i]);
}

} // verus!
