//! The outcome of blocking work handed to a worker pool, as the task that
//! waits for it sees it.
use vstd::prelude::*;

use crate::error::TelescopeError;

verus! {

/// What the task that submitted blocking work learns of it: the work's
/// result, or that the wait was canceled. A canceled wait does not stop the
/// work: it may still run to its end, and its result is then dropped unseen.
/// Work that writes should be safe to have applied after a cancellation.
#[derive(Debug, Clone, PartialEq, Eq)]
pub enum BlockingOutcome<T, E> {
    /// The work finished and produced a value.
    Completed(T),
    /// The wait for the work was canceled.
    Cancelled,
    /// The work finished with an error.
    Failed(E),
}

impl<T, E> BlockingOutcome<T, E> {
    /// The outcome of work that ran to its end with the result `r`.
    pub fn from_result(r: Result<T, E>) -> (o: Self)
        ensures
            o == (match r {
                Ok(t) => BlockingOutcome::<T, E>::Completed(t),
                Err(e) => BlockingOutcome::<T, E>::Failed(e),
            }),
    {
        match r {
            Ok(t) => BlockingOutcome::Completed(t),
            Err(e) => BlockingOutcome::Failed(e),
        }
    }
}

/// The result that an outcome stands for: a cancellation is reported as
/// [`TelescopeError::FutureCanceled`], and an error of the work is passed on
/// as it is, not wrapped.
pub open spec fn settled<T>(o: BlockingOutcome<T, TelescopeError>) -> Result<T, TelescopeError> {
    match o {
        BlockingOutcome::Completed(t) => Ok(t),
        BlockingOutcome::Cancelled => Err(TelescopeError::FutureCanceled),
        BlockingOutcome::Failed(e) => Err(e),
    }
}

/// Turn the outcome of blocking work into the result of the request that
/// waited for it.
pub fn settle_blocking<T>(o: BlockingOutcome<T, TelescopeError>) -> (r: Result<T, TelescopeError>)
    ensures
        r == settled(o),
{
    match o {
        BlockingOutcome::Completed(t) => Ok(t),
        BlockingOutcome::Cancelled => Err(TelescopeError::FutureCanceled),
        BlockingOutcome::Failed(e) => Err(e),
    }
}

/// Work that runs to its end hands its own result to the waiting task,
/// unchanged; a canceled wait gives `FutureCanceled` whatever the work did.
pub proof fn blocking_result_passes_through<T>(r: Result<T, TelescopeError>)
    ensures
        settled(
            match r {
                Ok(t) => BlockingOutcome::<T, TelescopeError>::Completed(t),
                Err(e) => BlockingOutcome::<T, TelescopeError>::Failed(e),
            },
        ) == r,
        settled(BlockingOutcome::<T, TelescopeError>::Cancelled) == Err::<T, TelescopeError>(
            TelescopeError::FutureCanceled,
        ),
{
}

} // verus!
