use vstd::prelude::*;

use crate::error::RainError;

verus! {

/// What to do to make a snapshot available locally.
#[derive(Debug, Clone, Copy, PartialEq, Eq, Structural)]
pub enum AcquireStep {
    /// The cached file is used as it is; nothing is fetched.
    UseCached,
    /// The snapshot is fetched from the remote source.
    Fetch,
}

/// A response status in the success class (200 to 299).
pub open spec fn is_success(status: u16) -> bool {
    200 <= status <= 299
}

/// Fetches made by one acquisition that starts with the cache in the given
/// state.
pub open spec fn fetches(cached: bool, revalidate: bool) -> nat {
    if cached && !revalidate {
        0
    } else {
        1
    }
}

/// Whether the snapshot is cached after one acquisition that started in the
/// given state and, where it fetched, got `status`.
pub open spec fn cached_after(cached: bool, revalidate: bool, status: u16) -> bool {
    if fetches(cached, revalidate) == 0 {
        cached
    } else {
        cached || is_success(status)
    }
}

/// The first decision of an acquisition: an existing cache file is trusted
/// unless `revalidate` asks for a fresh copy.
pub fn plan_acquire(cached: bool, revalidate: bool) -> (r: AcquireStep)
    ensures
        r == AcquireStep::Fetch <==> fetches(cached, revalidate) == 1,
{
    if cached && !revalidate {
        AcquireStep::UseCached
    } else {
        AcquireStep::Fetch
    }
}

/// The decision on a fetched response: the body is stored only after a
/// success status; any other status makes the frame unavailable.
pub fn accept_response(status: u16) -> (r: Result<(), RainError>)
    ensures
        is_success(status) ==> r == Ok::<(), RainError>(()),
        !is_success(status) ==> r == Err::<(), RainError>(RainError::Acquire { status }),
{
    if 200 <= status && status <= 299 {
        Ok(())
    } else {
        Err(RainError::Acquire { status })
    }
}

/// Two acquisitions of one snapshot, without revalidation, of which the
/// first succeeds, fetch at most once between them: the second is served
/// from the cache.
pub proof fn lemma_cache_idempotent(cached: bool, status: u16)
    requires
        cached_after(cached, false, status),
    ensures
        fetches(cached, false) + fetches(cached_after(cached, false, status), false) <= 1,
        fetches(cached_after(cached, false, status), false) == 0,
{
}

} // verus!
