//! The in-memory cache from worker identifier to last known process id.
//!
//! The configuration store stays authoritative; this cache only saves a
//! lookup. Callers that share it between tasks guard it with a lock.
use vstd::prelude::*;
use crate::table::KeyedTable;

verus! {

/// The process-id cache.
pub struct Registry {
    table: KeyedTable<u32>,
}

impl View for Registry {
    type V = Map<Seq<char>, u32>;

    closed spec fn view(&self) -> Map<Seq<char>, u32> {
        self.table@
    }
}

impl Registry {
    pub closed spec fn wf(&self) -> bool {
        self.table.wf()
    }

    /// An empty cache.
    pub fn new() -> (r: Registry)
        ensures
            r.wf(),
            r@ == Map::<Seq<char>, u32>::empty(),
    {
        Registry { table: KeyedTable::new() }
    }

    /// The cached process id of `id`.
    pub fn pid_of(&self, id: &String) -> (r: Option<u32>)
        requires
            self.wf(),
        ensures
            r == (if self@.contains_key(id@) {
                Some(self@[id@])
            } else {
                None::<u32>
            }),
    {
        match self.table.get(id) {
            Some(p) => Some(*p),
            None => None,
        }
    }

    /// Caches `pid` as the process of `id`.
    pub fn record(&mut self, id: String, pid: u32)
        requires
            old(self).wf(),
        ensures
            final(self).wf(),
            final(self)@ == old(self)@.insert(id@, pid),
    {
        self.table.insert(id, pid);
    }

    /// Forgets `id`; its cached process id, if any, comes back.
    pub fn forget(&mut self, id: &String) -> (r: Option<u32>)
        requires
            old(self).wf(),
        ensures
            final(self).wf(),
            final(self)@ == old(self)@.remove(id@),
            r == (if old(self)@.contains_key(id@) {
                Some(old(self)@[id@])
            } else {
                None::<u32>
            }),
    {
        self.table.remove(id)
    }

    /// Number of cached identifiers.
    pub fn len(&self) -> (r: usize)
        requires
            self.wf(),
        ensures
            r as nat == self@.len(),
    {
        self.table.len()
    }
}

} // verus!
