use std::collections::HashMap;
use vstd::prelude::*;

use crate::config::{ConfigModel, WorkspaceConfig};

verus! {

broadcast use vstd::std_specs::hash::group_hash_axioms;

/// A single-row write to the configuration table.
pub enum StoreOp {
    /// Insert the row unless one exists for its guild (insert-or-ignore).
    InsertOrIgnore(WorkspaceConfig),
    /// Set the prefix of the row's guild; where the guild has no row yet,
    /// insert this one.
    SetPrefix(WorkspaceConfig),
    /// Delete the row of a guild.
    Delete(u64),
}

/// The mathematical value of a `StoreOp`.
pub ghost enum StoreOpModel {
    InsertOrIgnore(ConfigModel),
    SetPrefix(ConfigModel),
    Delete(u64),
}

impl View for StoreOp {
    type V = StoreOpModel;

    open spec fn view(&self) -> StoreOpModel {
        match self {
            StoreOp::InsertOrIgnore(r) => StoreOpModel::InsertOrIgnore(r@),
            StoreOp::SetPrefix(r) => StoreOpModel::SetPrefix(r@),
            StoreOp::Delete(id) => StoreOpModel::Delete(*id),
        }
    }
}

/// The table after an insert-or-ignore of `row`.
pub open spec fn store_insert_or_ignore(
    t: Map<u64, ConfigModel>,
    row: ConfigModel,
) -> Map<u64, ConfigModel> {
    if t.contains_key(row.workspace_id) {
        t
    } else {
        t.insert(row.workspace_id, row)
    }
}

/// The table after the prefix of `row`'s guild is set to `row.prefix`.
pub open spec fn store_set_prefix(t: Map<u64, ConfigModel>, row: ConfigModel) -> Map<
    u64,
    ConfigModel,
> {
    if t.contains_key(row.workspace_id) {
        t.insert(row.workspace_id, ConfigModel { prefix: row.prefix, ..t[row.workspace_id] })
    } else {
        t.insert(row.workspace_id, row)
    }
}

/// The table after the row of guild `id` is deleted.
pub open spec fn store_delete(t: Map<u64, ConfigModel>, id: u64) -> Map<u64, ConfigModel> {
    t.remove(id)
}

/// The table after `op` has been carried out.
pub open spec fn store_applied(t: Map<u64, ConfigModel>, op: StoreOpModel) -> Map<u64, ConfigModel> {
    match op {
        StoreOpModel::InsertOrIgnore(row) => store_insert_or_ignore(t, row),
        StoreOpModel::SetPrefix(row) => store_set_prefix(t, row),
        StoreOpModel::Delete(id) => store_delete(t, id),
    }
}

/// A configuration table held in memory, following the rules of the
/// durable one.
pub struct MemoryStore {
    rows: HashMap<u64, WorkspaceConfig>,
}

impl View for MemoryStore {
    type V = Map<u64, ConfigModel>;

    closed spec fn view(&self) -> Map<u64, ConfigModel> {
        self.rows@.map_values(|c: WorkspaceConfig| c@)
    }
}

impl MemoryStore {
    /// An empty table.
    pub fn new() -> (r: MemoryStore)
        ensures
            r@ == Map::<u64, ConfigModel>::empty(),
    {
        let r = MemoryStore { rows: HashMap::new() };
        proof {
            assert(r@ =~= Map::<u64, ConfigModel>::empty());
        }
        r
    }

    /// The row of guild `id`, if there is one.
    pub fn row(&self, id: u64) -> (r: Option<&WorkspaceConfig>)
        ensures
            match r {
                Some(c) => self@.contains_key(id) && c@ == self@[id],
                None => !self@.contains_key(id),
            },
    {
        self.rows.get(&id)
    }

    /// Carries out `op`.
    pub fn apply(&mut self, op: &StoreOp)
        ensures
            final(self)@ == store_applied(old(self)@, op@),
    {
        match op {
            StoreOp::InsertOrIgnore(row) => {
                if !self.rows.contains_key(&row.workspace_id) {
                    self.rows.insert(row.workspace_id, row.duplicate());
                }
            },
            StoreOp::SetPrefix(row) => {
                let next = match self.rows.get(&row.workspace_id) {
                    Some(cur) => {
                        let mut c = cur.duplicate();
                        c.prefix = row.prefix.clone();
                        c
                    },
                    None => row.duplicate(),
                };
                self.rows.insert(row.workspace_id, next);
            },
            StoreOp::Delete(id) => {
                self.rows.remove(id);
            },
        }
        proof {
            assert(self@ =~= store_applied(old(self)@, op@));
        }
    }
}

} // verus!
