//! Helpers for status objects: the observed-generation pattern and status errors.
//!
//! The traits here are implemented by the library's users. A verified implementor may
//! describe its methods by defining the spec functions of a trait and setting its
//! `obeys_*` function to `true`; the contracts below then speak of them. Without that they
//! only promise what holds whatever the implementor's methods do.

use vstd::prelude::*;

use crate::resource::ObjectMeta;

verus! {

/// A status object that records the generation of the resource it was computed for.
///
/// Implementors provide `add`; `with_observed_gen` takes the generation from the
/// resource's metadata.
pub trait ObserveGeneration: Sized {
    /// Whether `add` records a generation as `observed` says.
    open spec fn obeys_observe_spec() -> bool {
        false
    }

    /// The status after recording `observed_generation`.
    open spec fn observed(self, observed_generation: i64) -> Self {
        self
    }

    /// Records the observed generation, e.g. in a field of the status object.
    fn add(&mut self, observed_generation: i64)
        ensures
            Self::obeys_observe_spec() ==> *final(self) == old(self).observed(
                observed_generation,
            ),
    ;

    /// Records the generation of `meta` when it has one, and leaves the status
    /// unchanged otherwise.
    fn with_observed_gen(&mut self, meta: &ObjectMeta)
        ensures
            match meta.generation {
                Some(g) => Self::obeys_observe_spec() ==> *final(self) == old(self).observed(g),
                None => *final(self) == *old(self),
            },
    {
        if let Some(observed_generation) = meta.generation {
            self.add(observed_generation);
        }
    }
}

/// Converts an error into the status error that is shown in a resource's status.
pub trait AsStatusError<E> {
    /// Whether `as_status_error` returns `status_error`.
    open spec fn obeys_status_error_spec() -> bool {
        false
    }

    /// The status error for this error.
    open spec fn status_error(&self) -> E {
        vstd::pervasive::arbitrary()
    }

    /// Converts `self` into a status error.
    fn as_status_error(&self) -> (e: E)
        ensures
            Self::obeys_status_error_spec() ==> e == self.status_error(),
    ;
}

/// A status object that can hold a status error.
///
/// Implementors provide `add`; `with_status_error` converts an error and adds it.
pub trait WithStatusError<A: AsStatusError<E>, E>: Sized {
    /// Whether `add` adds a status error as `with_error` says.
    open spec fn obeys_with_error_spec() -> bool {
        false
    }

    /// The status after adding `error`.
    open spec fn with_error(self, error: E) -> Self {
        self
    }

    /// Adds a status error to the status object.
    fn add(&mut self, error: E)
        ensures
            Self::obeys_with_error_spec() ==> *final(self) == old(self).with_error(error),
    ;

    /// Converts `error` into its status error and adds that to the status object.
    fn with_status_error(&mut self, error: &A)
        ensures
            A::obeys_status_error_spec() && Self::obeys_with_error_spec() ==> *final(self)
                == old(self).with_error(error.status_error()),
    {
        self.add(error.as_status_error());
    }
}

/// The status object written when a resource's status is updated: `status` with the
/// generation of the resource's metadata recorded, when it has one.
pub fn observed_status<S: ObserveGeneration>(status: S, meta: &ObjectMeta) -> (s: S)
    ensures
        match meta.generation {
            Some(g) => S::obeys_observe_spec() ==> s == status.observed(g),
            None => s == status,
        },
{
    let mut status = status;
    status.with_observed_gen(meta);
    status
}

/// The status object written when a resource's status is updated with an optional
/// error: the error's status error is added first, when there is an error, then the
/// generation of the resource's metadata is recorded, when it has one.
pub fn observed_status_with_error<S, A, E>(status: S, error: Option<&A>, meta: &ObjectMeta) -> (s: S) where
    S: ObserveGeneration + WithStatusError<A, E>,
    A: AsStatusError<E>,

    ensures
        error is None ==> match meta.generation {
            Some(g) => S::obeys_observe_spec() ==> s == status.observed(g),
            None => s == status,
        },
        A::obeys_status_error_spec() && <S as WithStatusError<A, E>>::obeys_with_error_spec()
            && S::obeys_observe_spec() ==> s == ({
            let with_error = match error {
                Some(a) => status.with_error(a.status_error()),
                None => status,
            };
            match meta.generation {
                Some(g) => with_error.observed(g),
                None => with_error,
            }
        }),
{
    let mut status = status;
    if let Some(error) = error {
        status.with_status_error(error);
    }
    observed_status(status, meta)
}

} // verus!
