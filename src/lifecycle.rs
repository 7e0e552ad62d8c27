use vstd::prelude::*;

use crate::cache::{upserted, ConfigCache, Mutation};
use crate::config::{default_model, ConfigModel, WorkspaceConfig};
use crate::error::CoreError;
use crate::store::{StoreOp, StoreOpModel};

verus! {

/// The cache after guild `id`, owned by `owner_id`, has been joined: a
/// default entry where there was none.
pub open spec fn cache_joined(m: Map<u64, ConfigModel>, id: u64, owner_id: u64) -> Map<
    u64,
    ConfigModel,
> {
    upserted(m, id, owner_id, Mutation::KeepIfPresent)
}

/// The durable write that joining guild `id` calls for: an insert-or-ignore
/// of the default configuration.
pub fn workspace_joined(id: u64, owner_id: u64) -> (op: StoreOp)
    ensures
        op@ == StoreOpModel::InsertOrIgnore(default_model(id, owner_id)),
{
    StoreOp::InsertOrIgnore(WorkspaceConfig::defaults(id, owner_id))
}

/// Completes a join once the durable write has been tried. When it was
/// written, the cache gets a default entry for the guild where it had none;
/// when it failed, the cache is left alone and the event stays unprocessed.
pub fn join_completed(cache: &mut ConfigCache, id: u64, owner_id: u64, written: bool) -> (r: Result<
    (),
    CoreError,
>)
    requires
        old(cache).wf(),
    ensures
        final(cache).wf(),
        written ==> r is Ok && final(cache)@ == cache_joined(old(cache)@, id, owner_id),
        !written ==> r == Err::<(), CoreError>(CoreError::StoreWriteFailure) && final(cache)@
            == old(cache)@,
{
    if written {
        let _ = cache.upsert(id, owner_id, Mutation::KeepIfPresent);
        Ok(())
    } else {
        Err(CoreError::StoreWriteFailure)
    }
}

/// The durable write that leaving guild `id` calls for: deleting its row.
pub fn workspace_left(id: u64) -> (op: StoreOp)
    ensures
        op@ == StoreOpModel::Delete(id),
{
    StoreOp::Delete(id)
}

/// Completes a leave once the durable delete has been tried. When it was
/// carried out, the guild leaves the cache; when it failed, the cache is
/// left alone and the event stays unprocessed.
pub fn leave_completed(cache: &mut ConfigCache, id: u64, written: bool) -> (r: Result<
    (),
    CoreError,
>)
    requires
        old(cache).wf(),
    ensures
        final(cache).wf(),
        written ==> r is Ok && final(cache)@ == old(cache)@.remove(id),
        !written ==> r == Err::<(), CoreError>(CoreError::StoreWriteFailure) && final(cache)@
            == old(cache)@,
{
    if written {
        let _ = cache.remove(id);
        Ok(())
    } else {
        Err(CoreError::StoreWriteFailure)
    }
}

} // verus!
