# kuberator

Building blocks for Kubernetes operators, verified with Verus.

- `src/` is the verified library:
  - `events/types.rs`: event types, the `Reason` trait and `EventData`.
  - `events/note.rs`: UTF-8 byte lengths and the truncation of event notes to the
    1024-byte limit of `events.k8s.io/v1`.
  - `events/recorder.rs`: `EventRecorder`, which deduplicates events (same object UID,
    type, reason and action within a time window), decides whether an Event is created
    or its series patched, and builds what is sent; with the laws of deduplication.
  - `reconcile.rs`: the default requeue delay and the action after a failed
    reconciliation.
  - `resource.rs`: the metadata the library reads and `TryResource`.
  - `status.rs`: the observed-generation pattern and status errors.
  - `error.rs`: the error type, its messages and conversions.
- `app/` runs the asynchronous parts against the Kubernetes API: the controller loop,
  the finalizer, status patches and the API calls that event emission needs.
- `tests/` exercises the library on concrete values.
