//! An in-memory configuration store: the records of the workers, keyed by
//! identifier.
//!
//! Its operations are the ones the supervisor consumes from any store (get,
//! save, delete, list), and their contracts are the meaning that the start
//! and stop protocols give to the store actions they ask for.
use vstd::prelude::*;
use crate::record::ProxyConfig;
use crate::table::{id_views, KeyedTable};

verus! {

/// The records, each under its own identifier.
pub struct ConfigStore {
    table: KeyedTable<ProxyConfig>,
}

impl View for ConfigStore {
    type V = Map<Seq<char>, ProxyConfig>;

    closed spec fn view(&self) -> Map<Seq<char>, ProxyConfig> {
        self.table@
    }
}

/// Each record is filed under its own identifier.
pub open spec fn filed_by_id(m: Map<Seq<char>, ProxyConfig>) -> bool {
    forall|k: Seq<char>| #[trigger] m.contains_key(k) ==> m[k].id@ == k
}

impl ConfigStore {
    pub open spec fn wf(&self) -> bool {
        &&& self.table_wf()
        &&& filed_by_id(self@)
    }

    pub closed spec fn table_wf(&self) -> bool {
        self.table.wf()
    }

    /// An empty store.
    pub fn new() -> (r: ConfigStore)
        ensures
            r.wf(),
            r@ == Map::<Seq<char>, ProxyConfig>::empty(),
    {
        ConfigStore { table: KeyedTable::new() }
    }

    /// A copy of the record of `id`, if there is one.
    pub fn get(&self, id: &String) -> (r: Option<ProxyConfig>)
        requires
            self.wf(),
        ensures
            r == self@.get(id@),
    {
        match self.table.get(id) {
            Some(c) => Some(c.duplicate()),
            None => None,
        }
    }

    /// Stores `record` under its identifier, replacing an earlier record.
    pub fn save(&mut self, record: ProxyConfig)
        requires
            old(self).wf(),
        ensures
            final(self).wf(),
            final(self)@ == old(self)@.insert(record.id@, record),
    {
        let id = record.id.clone();
        self.table.insert(id, record);
    }

    /// Deletes the record of `id`; whether there was one comes back.
    pub fn delete(&mut self, id: &String) -> (r: bool)
        requires
            old(self).wf(),
        ensures
            final(self).wf(),
            final(self)@ == old(self)@.remove(id@),
            r == old(self)@.contains_key(id@),
    {
        self.table.remove(id).is_some()
    }

    /// The identifiers of all records, each once.
    pub fn list_ids(&self) -> (r: Vec<String>)
        requires
            self.wf(),
        ensures
            id_views(r@).no_duplicates(),
            id_views(r@).to_set() == self@.dom(),
    {
        self.table.ids()
    }

    /// Number of records.
    pub fn len(&self) -> (r: usize)
        requires
            self.wf(),
        ensures
            r as nat == self@.len(),
    {
        self.table.len()
    }
}

} // verus!
