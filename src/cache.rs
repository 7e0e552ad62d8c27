use std::collections::HashMap;
use vstd::prelude::*;

use crate::config::{default_model, valid_prefix, ConfigModel, WorkspaceConfig};
use crate::error::CoreError;

verus! {

broadcast use vstd::std_specs::hash::group_hash_axioms;

/// A change that `ConfigCache::upsert` applies to an entry.
pub enum Mutation {
    /// Leave an existing entry as it is; create a default one if absent.
    KeepIfPresent,
    /// Set the entry's prefix.
    SetPrefix(String),
}

/// What `m` does to the configuration `c`.
pub open spec fn apply_mutation(c: ConfigModel, m: Mutation) -> ConfigModel {
    match m {
        Mutation::KeepIfPresent => c,
        Mutation::SetPrefix(p) => ConfigModel { prefix: p@, ..c },
    }
}

/// The entry that `upsert` starts from: the existing one, or the defaults.
pub open spec fn entry_or_default(
    m: Map<u64, ConfigModel>,
    id: u64,
    owner_if_new: u64,
) -> ConfigModel {
    if m.contains_key(id) {
        m[id]
    } else {
        default_model(id, owner_if_new)
    }
}

/// The cache's contents after `upsert(id, owner_if_new, mu)`.
pub open spec fn upserted(
    m: Map<u64, ConfigModel>,
    id: u64,
    owner_if_new: u64,
    mu: Mutation,
) -> Map<u64, ConfigModel> {
    m.insert(id, apply_mutation(entry_or_default(m, id, owner_if_new), mu))
}

/// A mutation keeps prefixes valid.
pub open spec fn mutation_ok(mu: Mutation) -> bool {
    match mu {
        Mutation::KeepIfPresent => true,
        Mutation::SetPrefix(p) => valid_prefix(p@),
    }
}

/// Each entry sits under its own guild id and has a valid prefix.
pub open spec fn entries_ok(m: Map<u64, ConfigModel>) -> bool {
    forall|k: u64| #[trigger]
        m.contains_key(k) ==> m[k].workspace_id == k && valid_prefix(m[k].prefix)
}

/// The in-memory mirror of the configuration table, keyed by guild id.
pub struct ConfigCache {
    map: HashMap<u64, WorkspaceConfig>,
}

impl View for ConfigCache {
    type V = Map<u64, ConfigModel>;

    closed spec fn view(&self) -> Map<u64, ConfigModel> {
        self.map@.map_values(|c: WorkspaceConfig| c@)
    }
}

impl ConfigCache {
    pub open spec fn wf(&self) -> bool {
        entries_ok(self@)
    }

    /// An empty cache.
    pub fn new() -> (r: ConfigCache)
        ensures
            r@ == Map::<u64, ConfigModel>::empty(),
            r.wf(),
    {
        let r = ConfigCache { map: HashMap::new() };
        proof {
            assert(r@ =~= Map::<u64, ConfigModel>::empty());
        }
        r
    }

    /// The entry of guild `id`, if there is one.
    pub fn get(&self, id: u64) -> (r: Option<&WorkspaceConfig>)
        ensures
            match r {
                Some(c) => self@.contains_key(id) && c@ == self@[id],
                None => !self@.contains_key(id),
            },
    {
        self.map.get(&id)
    }

    /// The prefix of guild `id`, if the guild is cached.
    pub fn prefix_of(&self, id: u64) -> (r: Option<String>)
        ensures
            match r {
                Some(p) => self@.contains_key(id) && p@ == self@[id].prefix,
                None => !self@.contains_key(id),
            },
    {
        match self.map.get(&id) {
            Some(c) => Some(c.prefix.clone()),
            None => None,
        }
    }

    /// The number of cached guilds.
    pub fn size(&self) -> (r: usize)
        ensures
            r == self@.len(),
    {
        proof {
            assert(self@.dom() =~= self.map@.dom());
        }
        self.map.len()
    }

    /// Applies `mu` to the entry of guild `id`, or to a default entry owned by
    /// `owner_if_new` where there is none, and returns the stored result.
    pub fn upsert(&mut self, id: u64, owner_if_new: u64, mu: Mutation) -> (r: WorkspaceConfig)
        requires
            old(self).wf(),
            mutation_ok(mu),
        ensures
            final(self).wf(),
            final(self)@ == upserted(old(self)@, id, owner_if_new, mu),
            r@ == final(self)@[id],
    {
        let ghost g_mu = mu;
        let mut cur = match self.map.get(&id) {
            Some(c) => c.duplicate(),
            None => WorkspaceConfig::defaults(id, owner_if_new),
        };
        match mu {
            Mutation::KeepIfPresent => {},
            Mutation::SetPrefix(p) => {
                cur.prefix = p;
            },
        }
        let out = cur.duplicate();
        self.map.insert(id, cur);
        proof {
            assert(self@ =~= upserted(old(self)@, id, owner_if_new, g_mu));
        }
        out
    }

    /// Removes the entry of guild `id` and returns it.
    pub fn remove(&mut self, id: u64) -> (r: Option<WorkspaceConfig>)
        requires
            old(self).wf(),
        ensures
            final(self).wf(),
            final(self)@ == old(self)@.remove(id),
            match r {
                Some(c) => old(self)@.contains_key(id) && c@ == old(self)@[id],
                None => !old(self)@.contains_key(id),
            },
    {
        let r = self.map.remove(&id);
        proof {
            assert(self@ =~= old(self)@.remove(id));
        }
        r
    }

    /// Puts a configuration read from durable storage into the cache,
    /// replacing what was cached for that guild; a row whose prefix is not
    /// valid is refused.
    pub fn load_row(&mut self, row: WorkspaceConfig) -> (r: Result<(), CoreError>)
        requires
            old(self).wf(),
        ensures
            final(self).wf(),
            valid_prefix(row.prefix@) ==> r is Ok && final(self)@ == old(self)@.insert(
                row.workspace_id,
                row@,
            ),
            !valid_prefix(row.prefix@) ==> r == Err::<(), CoreError>(CoreError::ValidationError)
                && final(self)@ == old(self)@,
    {
        if !crate::config::is_valid_prefix(row.prefix.as_str()) {
            return Err(CoreError::ValidationError);
        }
        let ghost g_row = row@;
        self.map.insert(row.workspace_id, row);
        proof {
            assert(self@ =~= old(self)@.insert(g_row.workspace_id, g_row));
        }
        Ok(())
    }
}

} // verus!
