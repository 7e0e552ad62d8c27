use vstd::prelude::*;

use crate::cache::{entry_or_default, ConfigCache, Mutation};
use crate::config::{contains_whitespace, has_whitespace, trim, trimmed, ConfigModel};
use crate::error::CoreError;
use crate::store::{StoreOp, StoreOpModel};

verus! {

/// What the prefix command decided, before any durable write.
pub enum PrefixOutcome {
    /// Used outside a guild: only the default prefix is shown.
    DirectMessageInfo,
    /// The invoker is not an administrator.
    Denied,
    /// No new prefix was given: the current one.
    Current(String),
    /// No new prefix was given and the guild is not cached: its row must be
    /// loaded first.
    NotCached(u64),
    /// The new prefix holds whitespace.
    Rejected,
    /// The cache holds the new prefix; this write brings the table in line.
    Write(StoreOp),
}

impl PrefixOutcome {
    /// The kind of error an outcome reports to the invoker, if any.
    pub fn error(&self) -> (r: Option<CoreError>)
        ensures
            r == match self {
                PrefixOutcome::DirectMessageInfo => Some(CoreError::MissingContext),
                PrefixOutcome::Denied => Some(CoreError::PermissionDenied),
                PrefixOutcome::NotCached(_) => Some(CoreError::NotFound),
                PrefixOutcome::Rejected => Some(CoreError::ValidationError),
                _ => None::<CoreError>,
            },
    {
        match self {
            PrefixOutcome::DirectMessageInfo => Some(CoreError::MissingContext),
            PrefixOutcome::Denied => Some(CoreError::PermissionDenied),
            PrefixOutcome::NotCached(_) => Some(CoreError::NotFound),
            PrefixOutcome::Rejected => Some(CoreError::ValidationError),
            _ => None,
        }
    }
}

/// The cache after guild `id`'s prefix is set to `p`, starting from a
/// default entry owned by `owner_if_new` where there was none.
pub open spec fn prefix_set(m: Map<u64, ConfigModel>, id: u64, owner_if_new: u64, p: Seq<char>) -> Map<
    u64,
    ConfigModel,
> {
    m.insert(id, ConfigModel { prefix: p, ..entry_or_default(m, id, owner_if_new) })
}

/// Runs the prefix command up to its durable write. `workspace` is the guild
/// it was used in (`None` in a direct message), `invoker` who used it,
/// `is_admin` whether they are an administrator of that guild, and `raw` the
/// argument as typed.
pub fn prefix_command(
    cache: &mut ConfigCache,
    workspace: Option<u64>,
    invoker: u64,
    is_admin: bool,
    raw: &str,
) -> (r: PrefixOutcome)
    requires
        old(cache).wf(),
    ensures
        final(cache).wf(),
        !(r is Write) ==> final(cache)@ == old(cache)@,
        workspace is None ==> r is DirectMessageInfo,
        workspace is Some && !is_admin ==> r is Denied,
        workspace is Some && is_admin && trim(raw@).len() == 0 ==> {
            let w = workspace->0;
            if old(cache)@.contains_key(w) {
                r is Current && r->Current_0@ == old(cache)@[w].prefix
            } else {
                r == PrefixOutcome::NotCached(w)
            }
        },
        workspace is Some && is_admin && trim(raw@).len() > 0 && contains_whitespace(trim(raw@))
            ==> r is Rejected,
        workspace is Some && is_admin && trim(raw@).len() > 0 && !contains_whitespace(trim(raw@))
            ==> {
            let w = workspace->0;
            &&& final(cache)@ == prefix_set(old(cache)@, w, invoker, trim(raw@))
            &&& r is Write
            &&& r->Write_0@ == StoreOpModel::SetPrefix(final(cache)@[w])
        },
{
    let w = match workspace {
        None => {
            return PrefixOutcome::DirectMessageInfo;
        },
        Some(w) => w,
    };
    if !is_admin {
        return PrefixOutcome::Denied;
    }
    let candidate = trimmed(raw);
    if candidate.unicode_len() == 0 {
        return match cache.prefix_of(w) {
            Some(p) => PrefixOutcome::Current(p),
            None => PrefixOutcome::NotCached(w),
        };
    }
    if has_whitespace(candidate) {
        return PrefixOutcome::Rejected;
    }
    let row = cache.upsert(w, invoker, Mutation::SetPrefix(String::from_str(candidate)));
    PrefixOutcome::Write(StoreOp::SetPrefix(row))
}

/// The command's result once the durable write has been tried: the new
/// prefix to confirm, or the failure to report.
pub fn prefix_stored(new_prefix: String, written: bool) -> (r: Result<String, CoreError>)
    ensures
        written ==> r is Ok && r->Ok_0@ == new_prefix@,
        !written ==> r == Err::<String, CoreError>(CoreError::StoreWriteFailure),
{
    if written {
        Ok(new_prefix)
    } else {
        Err(CoreError::StoreWriteFailure)
    }
}

} // verus!
