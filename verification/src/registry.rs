//! The dynamic subclass registry.
//!
//! For each (widget family, callback type) pair the wrapper synthesizes at
//! most one host subclass: a fresh class with one added pointer-sized
//! instance variable and the family's lifecycle overrides. [`ClassRegistry`]
//! is the verified once-guard around that work. It decides whether a pair
//! already has a class (and then hands back the same handle without touching
//! the host runtime again) or whether the host must be asked to register a
//! new one; the host's verdict is passed in, and on rejection the registry is
//! left exactly as it was — no partial recovery.
//!
//! Class handles are opaque nonzero words, unique across the registry for its
//! whole lifetime, standing for the host runtime's class pointers.

use vstd::prelude::*;

use crate::BridgeError;

verus! {

/// The widget families that get their own synthesized host subclass.
#[derive(Clone, Copy, Debug, PartialEq, Eq, Structural)]
pub enum WidgetFamily {
    WindowController,
    ViewController,
    TextField,
    ListView,
    ListRow,
}

/// One registered subclass: the family and callback-type token it was
/// registered for, and the class handle the host runtime produced.
#[derive(Clone, Copy, Debug, PartialEq, Eq, Structural)]
pub struct RegEntry {
    pub family: WidgetFamily,
    pub token: u64,
    pub handle: u64,
}

/// The class handle registered for `(family, token)`, if any. Later entries
/// win, though a well-formed registry never holds two entries for one pair.
pub open spec fn spec_lookup(entries: Seq<RegEntry>, family: WidgetFamily, token: u64) -> Option<
    u64,
>
    decreases entries.len(),
{
    if entries.len() == 0 {
        None
    } else if entries.last().family == family && entries.last().token == token {
        Some(entries.last().handle)
    } else {
        spec_lookup(entries.drop_last(), family, token)
    }
}

/// How many entries a registry holds for `(family, token)`.
pub open spec fn count_registered(
    entries: Seq<RegEntry>,
    family: WidgetFamily,
    token: u64,
) -> nat
    decreases entries.len(),
{
    if entries.len() == 0 {
        0
    } else {
        count_registered(entries.drop_last(), family, token) + if entries.last().family == family
            && entries.last().token == token {
            1nat
        } else {
            0nat
        }
    }
}

/// The abstract registry state: the registered entries in registration order,
/// and the next fresh class handle.
pub ghost struct RegistryModel {
    pub entries: Seq<RegEntry>,
    pub next_handle: u64,
}

impl RegistryModel {
    /// Every pair is registered at most once, and handles are nonzero,
    /// pairwise distinct, and below the freshness bound.
    pub open spec fn wf(self) -> bool {
        &&& self.next_handle >= 1
        &&& forall|i: int|
            0 <= i < self.entries.len() ==> 0 < #[trigger] self.entries[i].handle
                < self.next_handle
        &&& forall|i: int, j: int|
            0 <= i < j < self.entries.len() ==> (#[trigger] self.entries[i]).handle != (
            #[trigger] self.entries[j]).handle
        &&& forall|i: int, j: int|
            0 <= i < j < self.entries.len() ==> !((#[trigger] self.entries[i]).family
                == (#[trigger] self.entries[j]).family && self.entries[i].token
                == self.entries[j].token)
    }

    /// The class handle registered for a pair, if any.
    pub open spec fn lookup(self, family: WidgetFamily, token: u64) -> Option<u64> {
        spec_lookup(self.entries, family, token)
    }
}

/// The outcome of one registration under an accepting host: the new registry
/// state and the class handle returned to the caller. Registering an
/// already-known pair changes nothing and returns the existing handle.
pub open spec fn spec_register(m: RegistryModel, family: WidgetFamily, token: u64) -> (
    RegistryModel,
    u64,
) {
    match m.lookup(family, token) {
        Some(h) => (m, h),
        None => (
            RegistryModel {
                entries: m.entries.push(
                    RegEntry { family, token, handle: m.next_handle },
                ),
                next_handle: (m.next_handle + 1) as u64,
            },
            m.next_handle,
        ),
    }
}

/// The process-wide registry of synthesized host subclasses.
pub struct ClassRegistry {
    entries: Vec<RegEntry>,
    next_handle: u64,
}

impl View for ClassRegistry {
    type V = RegistryModel;

    closed spec fn view(&self) -> RegistryModel {
        RegistryModel { entries: self.entries@, next_handle: self.next_handle }
    }
}

impl ClassRegistry {
    /// An empty registry: nothing registered, handles start at 1.
    pub fn new() -> (r: Self)
        ensures
            r@ == (RegistryModel { entries: Seq::<RegEntry>::empty(), next_handle: 1u64 }),
            r@.wf(),
    {
        let r = ClassRegistry { entries: Vec::new(), next_handle: 1 };
        proof {
            assert(r@.entries =~= Seq::<RegEntry>::empty());
        }
        r
    }

    /// The class handle already registered for `(family, token)`, if any.
    pub fn lookup(&self, family: WidgetFamily, token: u64) -> (r: Option<u64>)
        ensures
            r == self@.lookup(family, token),
    {
        let n = self.entries.len();
        proof {
            assert(self@.entries.take(n as int) =~= self@.entries);
        }
        let mut i: usize = n;
        while i > 0
            invariant
                i <= n,
                n == self.entries.len(),
                spec_lookup(self@.entries, family, token) == spec_lookup(
                    self@.entries.take(i as int),
                    family,
                    token,
                ),
            decreases i,
        {
            let e = self.entries[i - 1];
            proof {
                assert(self@.entries.take(i as int).last() == e);
                assert(self@.entries.take(i as int).drop_last() =~= self@.entries.take(
                    i as int - 1,
                ));
            }
            if e.family == family && e.token == token {
                return Some(e.handle);
            }
            i = i - 1;
        }
        proof {
            assert(self@.entries.take(0) =~= Seq::<RegEntry>::empty());
        }
        None
    }

    /// Register the subclass for `(family, token)`, at most once.
    ///
    /// If the pair already has a class, its handle is returned and nothing —
    /// including the host runtime — is touched. Otherwise the host is asked to
    /// register the new subclass; `host_accepted` carries its verdict. On
    /// acceptance a fresh handle is recorded and returned; on rejection
    /// (a name collision with a class the wrapper does not own) the call fails
    /// with [`BridgeError::HostRuntimeRejected`] and the registry is unchanged.
    pub fn register(&mut self, family: WidgetFamily, token: u64, host_accepted: bool) -> (r: Result<
        u64,
        BridgeError,
    >)
        requires
            old(self)@.wf(),
            old(self)@.next_handle < u64::MAX,
        ensures
            final(self)@.wf(),
            old(self)@.lookup(family, token) matches Some(h) ==> r == Ok::<u64, BridgeError>(h)
                && final(self)@ == old(self)@,
            old(self)@.lookup(family, token) is None && host_accepted ==> (final(self)@, {
                let h = r->Ok_0;
                h
            }) == spec_register(old(self)@, family, token) && r is Ok,
            old(self)@.lookup(family, token) is None && !host_accepted ==> r == Err::<
                u64,
                BridgeError,
            >(BridgeError::HostRuntimeRejected) && final(self)@ == old(self)@,
            r matches Ok(h) ==> final(self)@.lookup(family, token) == Some(h),
    {
        proof {
            lemma_lookup_finds_entry(self@.entries, family, token);
        }
        match self.lookup(family, token) {
            Some(h) => Ok(h),
            None => {
                if host_accepted {
                    let h = self.next_handle;
                    self.entries.push(RegEntry { family, token, handle: h });
                    self.next_handle = self.next_handle + 1;
                    proof {
                        assert(self@.entries.last() == (RegEntry { family, token, handle: h }));
                        assert(self@.lookup(family, token) == Some(h));
                        assert forall|i: int, j: int|
                            0 <= i < j < self@.entries.len() implies !((
                        #[trigger] self@.entries[i]).family == (#[trigger] self@.entries[j]).family
                            && self@.entries[i].token == self@.entries[j].token) by {
                            if j == self@.entries.len() - 1 {
                                lemma_no_pair_means_no_entry(
                                    old(self)@.entries,
                                    family,
                                    token,
                                    i,
                                );
                            }
                        }
                    }
                    Ok(h)
                } else {
                    Err(BridgeError::HostRuntimeRejected)
                }
            },
        }
    }
}

/// A `None` lookup means no entry at all carries the pair.
pub proof fn lemma_no_pair_means_no_entry(
    entries: Seq<RegEntry>,
    family: WidgetFamily,
    token: u64,
    i: int,
)
    requires
        spec_lookup(entries, family, token) is None,
        0 <= i < entries.len(),
    ensures
        !(entries[i].family == family && entries[i].token == token),
    decreases entries.len(),
{
    if i < entries.len() - 1 {
        lemma_no_pair_means_no_entry(entries.drop_last(), family, token, i);
    }
}

/// A `Some` lookup names the handle of an entry that carries the pair.
pub proof fn lemma_lookup_finds_entry(entries: Seq<RegEntry>, family: WidgetFamily, token: u64)
    ensures
        spec_lookup(entries, family, token) matches Some(h) ==> exists|i: int|
            0 <= i < entries.len() && #[trigger] entries[i] == (RegEntry { family, token, handle: h }),
    decreases entries.len(),
{
    if entries.len() > 0 {
        lemma_lookup_finds_entry(entries.drop_last(), family, token);
        if !(entries.last().family == family && entries.last().token == token) {
            match spec_lookup(entries, family, token) {
                Some(h) => {
                    let i = choose|i: int|
                        0 <= i < entries.drop_last().len() && #[trigger] entries.drop_last()[i]
                            == (RegEntry { family, token, handle: h });
                    assert(entries[i] == (RegEntry { family, token, handle: h }));
                },
                None => {},
            }
        }
    }
}

/// Registration idempotence: once a pair has been registered, every further
/// registration returns the identical class handle and leaves the registry —
/// and therefore the host runtime — untouched, and the registry holds exactly
/// one class for the pair.
pub proof fn lemma_register_idempotent(m: RegistryModel, family: WidgetFamily, token: u64)
    requires
        m.wf(),
    ensures
        ({
            let (m1, h1) = spec_register(m, family, token);
            let (m2, h2) = spec_register(m1, family, token);
            &&& m2 == m1
            &&& h2 == h1
            &&& count_registered(m1.entries, family, token) == 1
        }),
{
    let (m1, h1) = spec_register(m, family, token);
    lemma_lookup_count(m.entries, family, token);
    if m.lookup(family, token) is None {
        assert(m1.entries.drop_last() =~= m.entries);
        assert(m1.lookup(family, token) == Some(h1));
        assert forall|i: int, j: int| 0 <= i < j < m1.entries.len() implies !((
        #[trigger] m1.entries[i]).family == (#[trigger] m1.entries[j]).family
            && m1.entries[i].token == m1.entries[j].token) by {
            if j == m1.entries.len() - 1 {
                lemma_no_pair_means_no_entry(m.entries, family, token, i);
            }
        }
    }
    lemma_lookup_count(m1.entries, family, token);
    lemma_count_at_most_one(m1.entries, family, token);
}

/// A pair is found exactly when at least one entry carries it.
proof fn lemma_lookup_count(entries: Seq<RegEntry>, family: WidgetFamily, token: u64)
    ensures
        spec_lookup(entries, family, token) is Some <==> count_registered(entries, family, token)
            >= 1,
    decreases entries.len(),
{
    if entries.len() > 0 {
        lemma_lookup_count(entries.drop_last(), family, token);
    }
}

/// In a registry where no two entries share a pair, no pair is counted twice.
proof fn lemma_count_at_most_one(entries: Seq<RegEntry>, family: WidgetFamily, token: u64)
    requires
        forall|i: int, j: int|
            0 <= i < j < entries.len() ==> !((#[trigger] entries[i]).family == (
            #[trigger] entries[j]).family && entries[i].token == entries[j].token),
    ensures
        count_registered(entries, family, token) <= 1,
    decreases entries.len(),
{
    if entries.len() > 0 {
        lemma_count_at_most_one(entries.drop_last(), family, token);
        if entries.last().family == family && entries.last().token == token {
            if count_registered(entries.drop_last(), family, token) >= 1 {
                lemma_lookup_count(entries.drop_last(), family, token);
                lemma_count_entry_exists(entries.drop_last(), family, token);
            }
        }
    }
}

/// A counted pair is carried by some entry.
proof fn lemma_count_entry_exists(entries: Seq<RegEntry>, family: WidgetFamily, token: u64)
    requires
        count_registered(entries, family, token) >= 1,
    ensures
        exists|i: int|
            0 <= i < entries.len() && (#[trigger] entries[i]).family == family && entries[i].token
                == token,
    decreases entries.len(),
{
    if entries.len() > 0 {
        if entries.last().family == family && entries.last().token == token {
            assert(entries[entries.len() - 1].family == family);
        } else {
            lemma_count_entry_exists(entries.drop_last(), family, token);
            let i = choose|i: int|
                0 <= i < entries.drop_last().len() && (#[trigger] entries.drop_last()[i]).family
                    == family && entries.drop_last()[i].token == token;
            assert(entries[i].family == family && entries[i].token == token);
        }
    }
}

} // verus!
