//! The library's error type.

use vstd::prelude::*;
use vstd::string::StringExecFns;
use vstd::std_specs::convert::FromSpecImpl;
use vstd::string::to_string_from_display_ensures;
use anyhow::Error as AnyhowError;
use kube::Error as KubeClientError;
use std::sync::PoisonError;

verus! {

/// An error reported by the Kubernetes client.
#[verifier::external_type_specification]
#[verifier::external_body]
pub struct ExKubeError(KubeClientError);

/// An error of an implementor of the library, carried through unchanged.
#[verifier::external_type_specification]
#[verifier::external_body]
pub struct ExAnyhowError(AnyhowError);

/// The error of a lock that a panicking holder left poisoned.
#[verifier::external_type_specification]
#[verifier::external_body]
#[verifier::reject_recursive_types(T)]
pub struct ExPoisonError<T>(PoisonError<T>);

/// Errors of the library.
#[derive(Debug)]
pub enum Error {
    /// Any error originating from the Kubernetes client.
    Kube { source: KubeClientError },
    UserInput(String),
    UnnamedObject,
    Finalizer(FinalizerError),
    RwLockPoisoned(String),
    InvalidApiProviderConfig,
    EmitEventFailed(String),
    /// Can be used by implementors of the library to return their own errors.
    Anyhow(AnyhowError),
}

/// Errors raised while handling the finalizer of a resource.
#[derive(Debug)]
pub enum FinalizerError {
    ApplyFailed(String),
    CleanupFailed(String),
    AddRemove(KubeClientError),
    UnnamedObject,
    InvalidFinalizer,
}

/// A failure of the finalizer step of a reconciliation, split into its cases. The apply
/// and cleanup cases carry the text of the error that the reconcile step returned.
#[derive(Debug)]
pub enum FinalizerFailure {
    ApplyFailed(String),
    CleanupFailed(String),
    AddFinalizer(KubeClientError),
    RemoveFinalizer(KubeClientError),
    UnnamedObject,
    InvalidFinalizer,
}



impl FinalizerError {
    /// The message of this error, as the error is displayed.
    pub fn message(&self) -> (m: String)
        ensures
            match self {
                FinalizerError::ApplyFailed(s) => m@ == "Failed to apply object, error: "@ + s@,
                FinalizerError::CleanupFailed(s) => m@ == "Failed to clean up object: "@ + s@,
                FinalizerError::AddRemove(k) => to_string_from_display_ensures::<KubeClientError>(
                    k,
                    m,
                ),
                FinalizerError::UnnamedObject => m@ == "Object has no name"@,
                FinalizerError::InvalidFinalizer => m@ == "Invalid finalizer"@,
            },
    {
        match self {
            FinalizerError::ApplyFailed(s) => "Failed to apply object, error: ".to_owned().concat(
                s.as_str(),
            ),
            FinalizerError::CleanupFailed(s) => "Failed to clean up object: ".to_owned().concat(
                s.as_str(),
            ),
            FinalizerError::AddRemove(e) => e.to_string(),
            FinalizerError::UnnamedObject => "Object has no name".to_owned(),
            FinalizerError::InvalidFinalizer => "Invalid finalizer".to_owned(),
        }
    }
}

impl Error {
    /// The message of this error, as the error is displayed.
    pub fn message(&self) -> (m: String)
        ensures
            match self {
                Error::Kube { source } => exists|t: String|
                    to_string_from_display_ensures::<KubeClientError>(source, t) && m@
                        == "Kubernetes reported error: "@ + t@,
                Error::UserInput(s) => m@ == s@,
                Error::UnnamedObject => m@ == "Unnamed k8s object"@,
                Error::Finalizer(f) => match f {
                    FinalizerError::ApplyFailed(s) => m@ == "Failed to apply object, error: "@
                        + s@,
                    FinalizerError::CleanupFailed(s) => m@ == "Failed to clean up object: "@
                        + s@,
                    FinalizerError::AddRemove(k) => to_string_from_display_ensures::<
                        KubeClientError,
                    >(k, m),
                    FinalizerError::UnnamedObject => m@ == "Object has no name"@,
                    FinalizerError::InvalidFinalizer => m@ == "Invalid finalizer"@,
                },
                Error::RwLockPoisoned(s) => m@ == "RwLock poisoned: "@ + s@,
                Error::InvalidApiProviderConfig => m@ == "Invalid ApiProvider configuration"@,
                Error::EmitEventFailed(s) => m@ == "Failed to emit event: "@ + s@,
                Error::Anyhow(a) => to_string_from_display_ensures::<AnyhowError>(a, m),
            },
    {
        match self {
            Error::Kube { source } => {
                let text = source.to_string();
                "Kubernetes reported error: ".to_owned().concat(text.as_str())
            },
            Error::UserInput(s) => s.clone(),
            Error::UnnamedObject => "Unnamed k8s object".to_owned(),
            Error::Finalizer(f) => f.message(),
            Error::RwLockPoisoned(s) => "RwLock poisoned: ".to_owned().concat(s.as_str()),
            Error::InvalidApiProviderConfig => "Invalid ApiProvider configuration".to_owned(),
            Error::EmitEventFailed(s) => "Failed to emit event: ".to_owned().concat(s.as_str()),
            Error::Anyhow(e) => e.to_string(),
        }
    }

    /// Converts a failure of the finalizer step into the library's error: apply and
    /// cleanup failures carry a message naming the step, failures to add or remove the
    /// finalizer carry the client error.
    pub fn from_finalizer(failure: FinalizerFailure) -> (e: Error)
        ensures
            match failure {
                FinalizerFailure::ApplyFailed(t) => e matches Error::Finalizer(
                    FinalizerError::ApplyFailed(m),
                ) && m@ == "Failed to apply object: "@ + t@,
                FinalizerFailure::CleanupFailed(t) => e matches Error::Finalizer(
                    FinalizerError::CleanupFailed(m),
                ) && m@ == "Failed to clean up object: "@ + t@,
                FinalizerFailure::AddFinalizer(k) => e == Error::Finalizer(
                    FinalizerError::AddRemove(k),
                ),
                FinalizerFailure::RemoveFinalizer(k) => e == Error::Finalizer(
                    FinalizerError::AddRemove(k),
                ),
                FinalizerFailure::UnnamedObject => e == Error::Finalizer(
                    FinalizerError::UnnamedObject,
                ),
                FinalizerFailure::InvalidFinalizer => e == Error::Finalizer(
                    FinalizerError::InvalidFinalizer,
                ),
            },
    {
        match failure {
            FinalizerFailure::ApplyFailed(t) => Error::Finalizer(
                FinalizerError::ApplyFailed(
                    "Failed to apply object: ".to_owned().concat(t.as_str()),
                ),
            ),
            FinalizerFailure::CleanupFailed(t) => Error::Finalizer(
                FinalizerError::CleanupFailed(
                    "Failed to clean up object: ".to_owned().concat(t.as_str()),
                ),
            ),
            FinalizerFailure::AddFinalizer(k) => Error::Finalizer(FinalizerError::AddRemove(k)),
            FinalizerFailure::RemoveFinalizer(k) => Error::Finalizer(FinalizerError::AddRemove(k)),
            FinalizerFailure::UnnamedObject => Error::Finalizer(FinalizerError::UnnamedObject),
            FinalizerFailure::InvalidFinalizer => Error::Finalizer(
                FinalizerError::InvalidFinalizer,
            ),
        }
    }
}


impl From<KubeClientError> for Error {
    fn from(source: KubeClientError) -> (e: Error) {
        Error::Kube { source }
    }
}

impl FromSpecImpl<KubeClientError> for Error {
    open spec fn obeys_from_spec() -> bool {
        true
    }

    open spec fn from_spec(source: KubeClientError) -> Error {
        Error::Kube { source }
    }
}

impl From<AnyhowError> for Error {
    fn from(e: AnyhowError) -> (r: Error) {
        Error::Anyhow(e)
    }
}

impl FromSpecImpl<AnyhowError> for Error {
    open spec fn obeys_from_spec() -> bool {
        true
    }

    open spec fn from_spec(e: AnyhowError) -> Error {
        Error::Anyhow(e)
    }
}

impl From<FinalizerError> for Error {
    fn from(e: FinalizerError) -> (r: Error) {
        Error::Finalizer(e)
    }
}

impl FromSpecImpl<FinalizerError> for Error {
    open spec fn obeys_from_spec() -> bool {
        true
    }

    open spec fn from_spec(e: FinalizerError) -> Error {
        Error::Finalizer(e)
    }
}

impl From<KubeClientError> for FinalizerError {
    fn from(e: KubeClientError) -> (r: FinalizerError) {
        FinalizerError::AddRemove(e)
    }
}

impl FromSpecImpl<KubeClientError> for FinalizerError {
    open spec fn obeys_from_spec() -> bool {
        true
    }

    open spec fn from_spec(e: KubeClientError) -> FinalizerError {
        FinalizerError::AddRemove(e)
    }
}


impl<T> From<PoisonError<T>> for Error {
    /// A poisoned lock becomes `Error::RwLockPoisoned` with the lock error's displayed
    /// text.
    fn from(e: PoisonError<T>) -> (r: Error)
        ensures
            r matches Error::RwLockPoisoned(m) && to_string_from_display_ensures::<PoisonError<T>>(
                &e,
                m,
            ),
    {
        Error::RwLockPoisoned(e.to_string())
    }
}

/// The displayed text of a poisoned-lock error is related to the error only through
/// `to_string_from_display_ensures`, so the conversion is not stated as a spec function;
/// the `ensures` of `from` says what comes out.
impl<T> FromSpecImpl<PoisonError<T>> for Error {
    open spec fn obeys_from_spec() -> bool {
        false
    }

    open spec fn from_spec(e: PoisonError<T>) -> Error {
        vstd::pervasive::arbitrary()
    }
}

} // verus!
