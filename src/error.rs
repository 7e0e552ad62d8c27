use vstd::prelude::*;

verus! {

/// What can go wrong while handling a command or a lifecycle event.
#[derive(Clone, Copy, Debug, PartialEq, Eq, Structural)]
pub enum CoreError {
    /// The command was used outside a guild.
    MissingContext,
    /// The invoker is not an administrator.
    PermissionDenied,
    /// A prefix holds whitespace or is empty.
    ValidationError,
    /// An expected cache entry is absent.
    NotFound,
    /// A durable write or delete failed.
    StoreWriteFailure,
    /// Loading from durable storage failed.
    StoreReadFailure,
}

} // verus!
