use vstd::prelude::*;

use crate::cache::entries_ok;
use crate::config::{default_model, ConfigModel};
use crate::lifecycle::cache_joined;
use crate::prefix_command::prefix_set;
use crate::presence::starts_after;
use crate::store::{store_delete, store_insert_or_ignore, store_set_prefix};

verus! {

/// The cache and the table agree on guild `w`: both hold it with the same
/// prefix, or neither holds it.
pub open spec fn prefix_agrees(cache: Map<u64, ConfigModel>, table: Map<u64, ConfigModel>, w: u64) -> bool {
    &&& cache.contains_key(w) <==> table.contains_key(w)
    &&& cache.contains_key(w) ==> cache[w].prefix == table[w].prefix
}

/// A guild that neither the cache nor the table knows gets, once joined, the
/// default configuration with its owner in both.
pub proof fn law_join_fresh(cache: Map<u64, ConfigModel>, table: Map<u64, ConfigModel>, w: u64, o: u64)
    requires
        !cache.contains_key(w),
        !table.contains_key(w),
    ensures
        cache_joined(cache, w, o).contains_key(w),
        cache_joined(cache, w, o)[w] == default_model(w, o),
        store_insert_or_ignore(table, default_model(w, o)).contains_key(w),
        store_insert_or_ignore(table, default_model(w, o))[w] == default_model(w, o),
{
}

/// Handling the same join a second time changes neither the cache nor the
/// table, and a guild that either already held keeps its entry there, a
/// customised prefix included.
pub proof fn law_join_duplicate(
    cache: Map<u64, ConfigModel>,
    table: Map<u64, ConfigModel>,
    w: u64,
    o: u64,
)
    ensures
        cache_joined(cache_joined(cache, w, o), w, o) == cache_joined(cache, w, o),
        store_insert_or_ignore(store_insert_or_ignore(table, default_model(w, o)), default_model(w, o))
            == store_insert_or_ignore(table, default_model(w, o)),
        cache.contains_key(w) ==> cache_joined(cache, w, o) == cache,
        table.contains_key(w) ==> store_insert_or_ignore(table, default_model(w, o)) == table,
{
    if cache.contains_key(w) {
        assert(cache_joined(cache, w, o) =~= cache);
    }
    let c1 = cache_joined(cache, w, o);
    assert(cache_joined(c1, w, o) =~= c1);
}

/// After a leave, neither the cache nor the table holds the guild.
pub proof fn law_leave_forgets(cache: Map<u64, ConfigModel>, table: Map<u64, ConfigModel>, w: u64)
    ensures
        !cache.remove(w).contains_key(w),
        !store_delete(table, w).contains_key(w),
{
}

/// A guild that is left and then joined again starts over: whatever it held
/// before, it comes back with the defaults and its new owner in both the
/// cache and the table.
pub proof fn law_rejoin_restarts(
    cache: Map<u64, ConfigModel>,
    table: Map<u64, ConfigModel>,
    w: u64,
    o: u64,
)
    ensures
        cache_joined(cache.remove(w), w, o)[w] == default_model(w, o),
        store_insert_or_ignore(store_delete(table, w), default_model(w, o))[w] == default_model(w, o),
{
}

/// A join keeps the cache and the table in agreement on the guild.
pub proof fn law_join_keeps_agreement(
    cache: Map<u64, ConfigModel>,
    table: Map<u64, ConfigModel>,
    w: u64,
    o: u64,
)
    requires
        prefix_agrees(cache, table, w),
    ensures
        prefix_agrees(cache_joined(cache, w, o), store_insert_or_ignore(table, default_model(w, o)), w),
{
}

/// A leave keeps the cache and the table in agreement on the guild.
pub proof fn law_leave_keeps_agreement(cache: Map<u64, ConfigModel>, table: Map<u64, ConfigModel>, w: u64)
    ensures
        prefix_agrees(cache.remove(w), store_delete(table, w), w),
{
}

/// Once the prefix command's write has reached the table, the cache and the
/// table agree on the guild's prefix, whatever they held before.
pub proof fn law_prefix_write_agrees(
    cache: Map<u64, ConfigModel>,
    table: Map<u64, ConfigModel>,
    w: u64,
    invoker: u64,
    p: Seq<char>,
)
    requires
        entries_ok(cache),
    ensures
        prefix_agrees(
            prefix_set(cache, w, invoker, p),
            store_set_prefix(table, prefix_set(cache, w, invoker, p)[w]),
            w,
        ),
        prefix_set(cache, w, invoker, p)[w].prefix == p,
{
    if cache.contains_key(w) {
        assert(cache[w].workspace_id == w);
    }
}

/// However many cache-ready signals come, one presence loop is started: on
/// the first of them, and on no later one.
pub proof fn law_presence_started_once(n: nat)
    requires
        n >= 1,
    ensures
        starts_after(false, n) == 1,
{
    lemma_no_start_once_started(n);
    lemma_no_start_once_started((n - 1) as nat);
}

/// A guard that has started its loop starts no other.
pub proof fn lemma_no_start_once_started(n: nat)
    ensures
        starts_after(true, n) == 0,
    decreases n,
{
    if n > 0 {
        lemma_no_start_once_started((n - 1) as nat);
    }
}

} // verus!
