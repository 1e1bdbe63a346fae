use kuberator::Error;
use kuberator::FinalizerError;
use kuberator::FinalizerFailure;

fn kube_failure(message: &str, reason: &str, code: u16) -> kube::Error {
    kube::Error::Api(kube::core::Status::failure(message, reason).with_code(code).boxed())
}

#[test]
fn test_kube_error_conversion() {
    let kube_err = kube_failure("test error", "BadRequest", 400);

    let error: Error = kube_err.into();

    assert!(matches!(error, Error::Kube { .. }));
    assert!(error.message().contains("Kubernetes reported error"));
}

#[test]
fn test_user_input_error() {
    let message = "Invalid configuration".to_string();

    let error = Error::UserInput(message.clone());

    assert_eq!(error.message(), message);
}

#[test]
fn test_unnamed_object_error() {
    let error = Error::UnnamedObject;

    let error_string = error.message();

    assert_eq!(error_string, "Unnamed k8s object");
}

#[test]
fn test_finalizer_error_apply_failed() {
    let inner_error = std::io::Error::other("network timeout");
    let failure = FinalizerFailure::ApplyFailed(inner_error.to_string());

    let error = Error::from_finalizer(failure);

    match error {
        Error::Finalizer(FinalizerError::ApplyFailed(msg)) => {
            assert!(msg.contains("Failed to apply object"));
            assert!(msg.contains("network timeout"));
        }
        _ => panic!("Expected Finalizer(ApplyFailed), got {:?}", error),
    }
}

#[test]
fn test_finalizer_error_cleanup_failed() {
    let inner_error = std::io::Error::other("cleanup error");
    let failure = FinalizerFailure::CleanupFailed(inner_error.to_string());

    let error = Error::from_finalizer(failure);

    match error {
        Error::Finalizer(FinalizerError::CleanupFailed(msg)) => {
            assert!(msg.contains("Failed to clean up object"));
            assert!(msg.contains("cleanup error"));
        }
        _ => panic!("Expected Finalizer(CleanupFailed), got {:?}", error),
    }
}

#[test]
fn test_finalizer_error_add_finalizer() {
    let kube_err = kube_failure("cannot add finalizer", "Conflict", 409);
    let failure = FinalizerFailure::AddFinalizer(kube_err);

    let error = Error::from_finalizer(failure);

    match error {
        Error::Finalizer(FinalizerError::AddRemove(_)) => {}
        _ => panic!("Expected Finalizer(AddRemove), got {:?}", error),
    }
}

#[test]
fn test_finalizer_error_remove_finalizer() {
    let kube_err = kube_failure("cannot remove finalizer", "Conflict", 409);
    let failure = FinalizerFailure::RemoveFinalizer(kube_err);

    let error = Error::from_finalizer(failure);

    match error {
        Error::Finalizer(FinalizerError::AddRemove(_)) => {}
        _ => panic!("Expected Finalizer(AddRemove), got {:?}", error),
    }
}

#[test]
fn test_finalizer_error_unnamed_object() {
    let error = Error::from_finalizer(FinalizerFailure::UnnamedObject);

    assert!(matches!(error, Error::Finalizer(FinalizerError::UnnamedObject)));
}

#[test]
fn test_finalizer_error_invalid_finalizer() {
    let error = Error::from_finalizer(FinalizerFailure::InvalidFinalizer);

    assert!(matches!(error, Error::Finalizer(FinalizerError::InvalidFinalizer)));
}

#[test]
fn test_anyhow_error_conversion() {
    let anyhow_err = anyhow::Error::msg("something went wrong");

    let error: Error = anyhow_err.into();

    assert!(matches!(error, Error::Anyhow(_)));
    assert!(error.message().contains("something went wrong"));
}

#[test]
fn test_rwlock_poisoned_error_display() {
    let error = Error::RwLockPoisoned("lock is poisoned".to_string());

    let error_string = error.message();

    assert!(error_string.contains("RwLock poisoned"));
    assert!(error_string.contains("lock is poisoned"));
}

#[test]
fn test_invalid_api_provider_config_error() {
    let error = Error::InvalidApiProviderConfig;

    let error_string = error.message();

    assert_eq!(error_string, "Invalid ApiProvider configuration");
}

#[test]
fn test_finalizer_error_display() {
    let apply_failed = FinalizerError::ApplyFailed("test".to_string());
    let cleanup_failed = FinalizerError::CleanupFailed("test".to_string());
    let unnamed = FinalizerError::UnnamedObject;
    let invalid = FinalizerError::InvalidFinalizer;

    assert!(apply_failed.message().contains("Failed to apply object"));
    assert!(cleanup_failed.message().contains("Failed to clean up object"));
    assert_eq!(unnamed.message(), "Object has no name");
    assert_eq!(invalid.message(), "Invalid finalizer");
}

#[test]
fn error_messages_exact() {
    assert_eq!(
        Error::from_finalizer(FinalizerFailure::ApplyFailed("boom".to_string())).message(),
        "Failed to apply object, error: Failed to apply object: boom"
    );
    assert_eq!(
        Error::from_finalizer(FinalizerFailure::CleanupFailed("boom".to_string())).message(),
        "Failed to clean up object: Failed to clean up object: boom"
    );
    assert_eq!(Error::EmitEventFailed("x".to_string()).message(), "Failed to emit event: x");
    assert_eq!(Error::from(FinalizerError::UnnamedObject).message(), "Object has no name");
    let e: FinalizerError = kube_failure("m", "Conflict", 409).into();
    assert!(matches!(e, FinalizerError::AddRemove(_)));
    let kube_message = Error::from(kube_failure("denied", "Forbidden", 403)).message();
    assert_eq!(
        kube_message,
        format!("Kubernetes reported error: {}", kube_failure("denied", "Forbidden", 403))
    );
    assert!(kube_message.contains("denied"));
    let add_remove = FinalizerError::AddRemove(kube_failure("gone", "NotFound", 404));
    assert_eq!(add_remove.message(), kube_failure("gone", "NotFound", 404).to_string());
    let anyhow_message = Error::Anyhow(anyhow::Error::msg("custom failure")).message();
    assert_eq!(anyhow_message, "custom failure");
}

#[test]
fn poisoned_lock_error_conversion() {
    let poison_err = std::sync::PoisonError::new(42);
    let expected = poison_err.to_string();

    let error: Error = poison_err.into();

    match error {
        Error::RwLockPoisoned(msg) => {
            assert!(msg.contains("poison"));
            assert_eq!(msg, expected);
        }
        _ => panic!("Expected RwLockPoisoned, got {:?}", error),
    }
}
