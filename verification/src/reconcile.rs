//! Decisions of the reconciliation loop.

use vstd::prelude::*;

verus! {

/// Seconds after which a resource is requeued after an error, by default.
pub const REQUEUE_AFTER_ERROR_SECONDS: u64 = 60;

/// The default delay before a resource is requeued after an error: 60 seconds.
pub fn requeue_after_error_seconds() -> (r: Option<u64>)
    ensures
        r == Some(60u64),
{
    Some(REQUEUE_AFTER_ERROR_SECONDS)
}

/// What the controller does with a resource after a reconciliation.
#[derive(Debug, PartialEq, Eq, Structural)]
pub enum ErrorAction<D> {
    /// Reconcile the resource again after the delay.
    Requeue(D),
    /// Wait until the resource changes.
    AwaitChange,
}

/// The action after a failed reconciliation: requeue after `requeue` when a delay is
/// given, otherwise wait for a change.
pub fn error_action<D>(requeue: Option<D>) -> (a: ErrorAction<D>)
    ensures
        match requeue {
            Some(d) => a == ErrorAction::Requeue(d),
            None => a == ErrorAction::AwaitChange::<D>,
        },
{
    match requeue {
        Some(d) => ErrorAction::Requeue(d),
        None => ErrorAction::AwaitChange,
    }
}

} // verus!
