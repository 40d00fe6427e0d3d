//! Capability discovery: from an identifier string to a typed interface.
//!
//! A host that knows nothing about a component's concrete type asks for a
//! capability by its identifier — a stable URI string compared by exact
//! equality.  The registry answers with the matching extension interface
//! table, or with an explicit "not supported", which is a normal result
//! and not an error.  Lookup is a pure function of the registry's
//! contents: it performs no I/O and the same question always gets the
//! same answer.

use vstd::prelude::*;

verus! {

/// A process-lifetime table of entry-point descriptors for one capability
/// of one component type.  The descriptors stand in for the C table's
/// function pointers; equal descriptors mean the same entry point.
#[derive(Clone, Copy, Debug, PartialEq, Eq)]
pub struct InterfaceTable {
    /// Entry point executing one unit of work in the work domain.
    pub work_fn: u64,
    /// Entry point delivering one response item on the real-time path.
    pub work_response_fn: u64,
    /// Optional entry point for the end-of-cycle notification.
    pub end_run_fn: Option<u64>,
}

/// One registered (component type, capability) pair and its table.
#[derive(Debug)]
pub struct CapabilityEntry {
    /// Identifies the concrete component type the table dispatches to.
    pub component: u64,
    /// The capability's identifier string.
    pub capability: String,
    /// The interface returned for this pair.
    pub table: InterfaceTable,
}

impl CapabilityEntry {
    /// Whether this entry answers a lookup for the given key.
    pub open spec fn spec_matches(&self, component: u64, id: Seq<char>) -> bool {
        self.component == component && self.capability@ == id
    }
}

/// First entry matching the key, if any.
pub open spec fn spec_find(
    entries: Seq<CapabilityEntry>,
    component: u64,
    id: Seq<char>,
) -> Option<InterfaceTable>
    decreases entries.len(),
{
    if entries.len() == 0 {
        None
    } else if entries.first().spec_matches(component, id) {
        Some(entries.first().table)
    } else {
        spec_find(entries.drop_first(), component, id)
    }
}

/// An explicit registry of extension interfaces, keyed by component type
/// and capability identifier, built once at startup.
pub struct Registry {
    entries: Vec<CapabilityEntry>,
}

impl Registry {
    /// The registered entries, in registration order.
    pub closed spec fn spec_entries(&self) -> Seq<CapabilityEntry> {
        self.entries@
    }

    /// Exactly one table exists per (component type, capability) pair.
    pub open spec fn wf(&self) -> bool {
        forall|i: int, j: int|
            0 <= i < j < self.spec_entries().len() ==> !(
            #[trigger] self.spec_entries()[i].spec_matches(
                self.spec_entries()[j].component,
                self.spec_entries()[j].capability@,
            ))
    }

    /// An empty registry.
    pub fn new() -> (r: Registry)
        ensures
            r.spec_entries() == Seq::<CapabilityEntry>::empty(),
            r.wf(),
    {
        Registry { entries: Vec::new() }
    }

    /// Look a capability up for a component type: the matching table, or
    /// `None` — "not supported" — when the pair was never registered.
    pub fn lookup(&self, component: u64, capability: &String) -> (r: Option<InterfaceTable>)
        ensures
            r == spec_find(self.spec_entries(), component, capability@),
    {
        let n = self.entries.len();
        let mut i: usize = 0;
        proof {
            assert(self.spec_entries().skip(0) =~= self.spec_entries());
        }
        while i < n
            invariant
                0 <= i <= n,
                n == self.spec_entries().len(),
                spec_find(self.spec_entries(), component, capability@) == spec_find(
                    self.spec_entries().skip(i as int),
                    component,
                    capability@,
                ),
            decreases n - i,
        {
            let e = &self.entries[i];
            proof {
                assert(self.spec_entries().skip(i as int).first() == self.spec_entries()[i as int]);
                assert(self.spec_entries().skip(i as int).drop_first() =~= self.spec_entries().skip(
                    i as int + 1,
                ));
            }
            if e.component == component && e.capability == *capability {
                return Some(e.table);
            }
            i = i + 1;
        }
        proof {
            assert(self.spec_entries().skip(n as int).len() == 0);
        }
        None
    }

    /// Register a table for a (component type, capability) pair.  A pair
    /// already registered is refused unchanged, which keeps lookup
    /// answers unique for the process lifetime.
    pub fn register(&mut self, component: u64, capability: String, table: InterfaceTable) -> (added:
        bool)
        requires
            old(self).wf(),
        ensures
            final(self).wf(),
            added == (spec_find(old(self).spec_entries(), component, capability@) is None),
            added ==> final(self).spec_entries() == old(self).spec_entries().push(
                CapabilityEntry { component, capability, table },
            ),
            !added ==> final(self).spec_entries() == old(self).spec_entries(),
    {
        let existing = self.lookup(component, &capability);
        match existing {
            Some(_) => false,
            None => {
                proof {
                    lemma_find_none(self.spec_entries(), component, capability@);
                }
                let ghost pre = self.spec_entries();
                self.entries.push(CapabilityEntry { component, capability, table });
                proof {
                    let post = self.spec_entries();
                    assert forall|i: int, j: int| 0 <= i < j < post.len() implies !(
                    #[trigger] post[i].spec_matches(post[j].component, post[j].capability@)) by {
                        if j < pre.len() {
                            assert(post[i] == pre[i] && post[j] == pre[j]);
                        } else {
                            assert(post[j] == post.last());
                            assert(post[i] == pre[i]);
                        }
                    }
                }
                true
            },
        }
    }
}

/// "Not supported" is exactly the absence of a matching entry: lookup
/// answers `None` if and only if no registered pair matches the key.
pub proof fn lemma_find_none(entries: Seq<CapabilityEntry>, component: u64, id: Seq<char>)
    ensures
        (spec_find(entries, component, id) is None) <==> (forall|i: int|
            0 <= i < entries.len() ==> !(#[trigger] entries[i].spec_matches(component, id))),
    decreases entries.len(),
{
    if entries.len() > 0 {
        lemma_find_none(entries.drop_first(), component, id);
        assert forall|i: int|
            1 <= i < entries.len() implies entries[i] == entries.drop_first()[i - 1] by {}
    }
}

/// Lookup is idempotent: under the registry's uniqueness invariant, any
/// entry matching the key carries the one table every lookup with that
/// identifier returns, so repeated lookups always see identical
/// entry-point descriptors.
pub proof fn lemma_lookup_deterministic(
    entries: Seq<CapabilityEntry>,
    component: u64,
    id: Seq<char>,
    i: int,
)
    requires
        forall|a: int, b: int|
            0 <= a < b < entries.len() ==> !(#[trigger] entries[a].spec_matches(
                entries[b].component,
                entries[b].capability@,
            )),
        0 <= i < entries.len(),
        entries[i].spec_matches(component, id),
    ensures
        spec_find(entries, component, id) == Some(entries[i].table),
    decreases entries.len(),
{
    if entries.first().spec_matches(component, id) {
        if i > 0 {
            assert(entries[0].spec_matches(entries[i].component, entries[i].capability@));
            assert(false);
        }
    } else {
        assert(i > 0);
        let tail = entries.drop_first();
        assert forall|a: int, b: int|
            0 <= a < b < tail.len() implies !(#[trigger] tail[a].spec_matches(
            tail[b].component,
            tail[b].capability@,
        )) by {
            assert(tail[a] == entries[a + 1] && tail[b] == entries[b + 1]);
        }
        assert(tail[i - 1] == entries[i]);
        lemma_lookup_deterministic(tail, component, id, i - 1);
    }
}

} // verus!
