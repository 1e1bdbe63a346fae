use kuberator::events::recorder::event_name;
use kuberator::events::recorder::new_event_record;
use kuberator::events::recorder::DEFAULT_CACHE_TTL_NANOS;
use kuberator::EmitPlan;
use kuberator::Error;
use kuberator::EventData;
use kuberator::EventKey;
use kuberator::EventRecorder;
use kuberator::EventType;
use kuberator::ObjectMeta;
use kuberator::Reason;

#[derive(Debug, Clone, Copy, PartialEq, Eq)]
enum TestEventReason {
    ResourceCreated,
    ReconciliationFailed,
}

impl Reason for TestEventReason {
    fn as_str(&self) -> &str {
        match self {
            TestEventReason::ResourceCreated => "ResourceCreated",
            TestEventReason::ReconciliationFailed => "ReconciliationFailed",
        }
    }
}

fn resource(name: &str, uid: &str) -> ObjectMeta {
    ObjectMeta {
        name: Some(name.to_string()),
        namespace: Some("default".to_string()),
        uid: Some(uid.to_string()),
        resource_version: Some("42".to_string()),
        generation: Some(3),
    }
}

fn created(plan: Result<EmitPlan, Error>) -> (String, EventKey, kuberator::events::recorder::NewEvent) {
    match plan {
        Ok(EmitPlan::Create { namespace, key, event }) => (namespace, key, event),
        other => panic!("expected a create plan, got {:?}", other),
    }
}

fn patched(plan: Result<EmitPlan, Error>) -> (String, EventKey, String, i32) {
    match plan {
        Ok(EmitPlan::Patch { namespace, key, event_name, patch }) => {
            (namespace, key, event_name, patch.count)
        }
        other => panic!("expected a patch plan, got {:?}", other),
    }
}

#[test]
fn event_names_are_hexadecimal_timestamps() {
    assert_eq!(event_name("pod", 255), "pod.ff");
    assert_eq!(event_name("x", 0), "x.0");
    assert_eq!(event_name("x", 16), "x.10");
    assert_eq!(event_name("x", 1_700_000_000_123_456), format!("x.{:x}", 1_700_000_000_123_456u64));
    assert_eq!(event_name("x", -1), "x.ffffffffffffffff");
}

#[test]
fn new_recorder_defaults() {
    let recorder = EventRecorder::new("my-operator");
    assert_eq!(recorder.component(), "my-operator");
    assert_eq!(recorder.cache_ttl(), 6 * 60 * 1_000_000_000);
    assert_eq!(recorder.cache_ttl(), DEFAULT_CACHE_TTL_NANOS);
    assert_eq!(recorder.cached_len(), 0);
    let recorder = recorder.with_cache_ttl(10);
    assert_eq!(recorder.cache_ttl(), 10);
}

#[test]
fn first_emission_creates_event() {
    let mut recorder = EventRecorder::new("my-operator");
    let meta = resource("test-resource", "uid-1");

    let plan = recorder.plan_emit(
        "v1",
        "ConfigMap",
        &meta,
        EventData::normal(TestEventReason::ResourceCreated, "Resource was created"),
        1_000,
    );

    let (namespace, key, event) = created(plan);
    assert_eq!(namespace, "default");
    assert_eq!(key.object_uid, "uid-1");
    assert_eq!(key.reason, "ResourceCreated");
    assert_eq!(key.action, None);
    assert_eq!(
        event.name,
        format!("test-resource.{:x}", event.event_time_micros as u64)
    );
    assert_eq!(event.namespace, "default");
    assert_eq!(event.reporting_controller, "my-operator");
    assert_eq!(event.reporting_instance, "my-operator");
    assert_eq!(event.action, "ResourceCreated");
    assert_eq!(event.reason, "ResourceCreated");
    assert_eq!(event.note, "Resource was created");
    assert_eq!(event.type_, EventType::Normal);
    assert_eq!(event.regarding.api_version.as_deref(), Some("v1"));
    assert_eq!(event.regarding.kind.as_deref(), Some("ConfigMap"));
    assert_eq!(event.regarding.name.as_deref(), Some("test-resource"));
    assert_eq!(event.regarding.namespace.as_deref(), Some("default"));
    assert_eq!(event.regarding.uid.as_deref(), Some("uid-1"));
    assert_eq!(event.regarding.resource_version.as_deref(), Some("42"));
    // Nothing is cached until the creation is reported.
    assert_eq!(recorder.cached_len(), 0);
}

#[test]
fn repeated_emissions_patch_the_same_event() {
    let mut recorder = EventRecorder::new("my-operator");
    let meta = resource("test-resource", "uid-1");

    let (_, key, event) = created(recorder.plan_emit(
        "v1",
        "ConfigMap",
        &meta,
        EventData::normal(TestEventReason::ResourceCreated, "First message"),
        1_000,
    ));
    recorder.record_created(key, event.name.clone(), 1_000);
    assert_eq!(recorder.cached_len(), 1);

    let (namespace, key, name, count) = patched(recorder.plan_emit(
        "v1",
        "ConfigMap",
        &meta,
        EventData::normal(TestEventReason::ResourceCreated, "Second message"),
        2_000,
    ));
    assert_eq!(namespace, "default");
    assert_eq!(name, event.name);
    assert_eq!(count, 2);
    recorder.record_patched(&key, count, 2_000);

    let (_, _, name, count) = patched(recorder.plan_emit(
        "v1",
        "ConfigMap",
        &meta,
        EventData::normal(TestEventReason::ResourceCreated, "Third message"),
        3_000,
    ));
    assert_eq!(name, event.name);
    assert_eq!(count, 3);
    assert_eq!(recorder.cached_len(), 1);
}

#[test]
fn different_keys_are_not_deduplicated() {
    let mut recorder = EventRecorder::new("my-operator");
    let meta = resource("test-resource", "uid-1");
    let (_, key, event) = created(recorder.plan_emit(
        "v1",
        "ConfigMap",
        &meta,
        EventData::normal(TestEventReason::ResourceCreated, "Created"),
        0,
    ));
    recorder.record_created(key, event.name, 0);

    // Another reason.
    let (_, key, _) = created(recorder.plan_emit(
        "v1",
        "ConfigMap",
        &meta,
        EventData::warning(TestEventReason::ReconciliationFailed, "Failed"),
        1,
    ));
    assert_eq!(key.event_type, EventType::Warning);

    // Another action.
    let (_, key, event) = created(recorder.plan_emit(
        "v1",
        "ConfigMap",
        &meta,
        EventData::normal(TestEventReason::ResourceCreated, "Created").with_action("Reconcile"),
        1,
    ));
    assert_eq!(key.action.as_deref(), Some("Reconcile"));
    assert_eq!(event.action, "Reconcile");

    // Another object.
    let other = resource("resource-2", "uid-2");
    let (_, key, event) = created(recorder.plan_emit(
        "v1",
        "ConfigMap",
        &other,
        EventData::normal(TestEventReason::ResourceCreated, "Created"),
        1,
    ));
    assert_eq!(key.object_uid, "uid-2");
    assert!(event.name.starts_with("resource-2."));
}

#[test]
fn expired_entries_are_forgotten() {
    let mut recorder = EventRecorder::new("my-operator").with_cache_ttl(100);
    let meta = resource("test-resource", "uid-1");
    let event = || EventData::normal(TestEventReason::ResourceCreated, "Created");

    let (_, key, created_event) = created(recorder.plan_emit("v1", "ConfigMap", &meta, event(), 1_000));
    recorder.record_created(key.clone(), created_event.name, 1_000);

    // Inside the window.
    let _ = patched(recorder.plan_emit("v1", "ConfigMap", &meta, event(), 1_099));
    assert!(recorder.cached(&key).is_some());

    // The window has passed: the entry is evicted and a new Event is created.
    let _ = created(recorder.plan_emit("v1", "ConfigMap", &meta, event(), 1_100));
    assert!(recorder.cached(&key).is_none());
    assert_eq!(recorder.cached_len(), 0);
}

#[test]
fn lookup_evicts_only_stale_entries() {
    let mut recorder = EventRecorder::new("c").with_cache_ttl(50);
    let a = EventKey::new(
        "a".to_string(),
        &EventData::normal(TestEventReason::ResourceCreated, "m"),
    );
    let b = EventKey::new(
        "b".to_string(),
        &EventData::normal(TestEventReason::ResourceCreated, "m"),
    );
    recorder.record_created(a.clone(), "a.1".to_string(), 0);
    recorder.record_created(b.clone(), "b.1".to_string(), 40);
    assert_eq!(recorder.cached_len(), 2);

    let found = recorder.lookup_cached(&b, 60);
    assert_eq!(found.map(|c| (c.event_name, c.count, c.last_emitted)), Some(("b.1".to_string(), 1, 40)));
    assert_eq!(recorder.cached_len(), 1);
    assert!(recorder.lookup_cached(&a, 60).is_none());

    // A clock that goes backwards counts as no time elapsed.
    assert!(recorder.lookup_cached(&b, 10).is_some());

    // Patching an unknown key changes nothing.
    recorder.record_patched(&a, 5, 60);
    assert_eq!(recorder.cached_len(), 1);
    recorder.record_patched(&b, 5, 60);
    assert_eq!(recorder.cached(&b).map(|c| c.count), Some(5));
}

#[test]
fn objects_without_namespace_or_name_are_refused() {
    let mut recorder = EventRecorder::new("my-operator");
    let mut meta = resource("test-resource", "uid-1");
    meta.namespace = None;
    match recorder.plan_emit("v1", "ConfigMap", &meta, EventData::normal(TestEventReason::ResourceCreated, "m"), 0) {
        Err(Error::UserInput(msg)) => assert!(msg.contains("Expected resource to be namespaced")),
        other => panic!("expected a user input error, got {:?}", other),
    }

    let mut meta = resource("test-resource", "uid-1");
    meta.name = None;
    assert!(matches!(
        recorder.plan_emit("v1", "ConfigMap", &meta, EventData::normal(TestEventReason::ResourceCreated, "m"), 0),
        Err(Error::UnnamedObject)
    ));
}

#[test]
fn objects_without_uid_are_keyed_by_the_empty_uid() {
    let mut recorder = EventRecorder::new("my-operator");
    let mut meta = resource("test-resource", "uid-1");
    meta.uid = None;
    let (_, key, event) = created(recorder.plan_emit("v1", "ConfigMap", &meta, EventData::normal(TestEventReason::ResourceCreated, "m"), 0));
    assert_eq!(key.object_uid, "");
    assert_eq!(event.regarding.uid, None);
}

#[test]
fn long_messages_are_truncated_in_the_note() {
    let message = "x".repeat(2000);
    let event = new_event_record(
        "c",
        "v1",
        "Pod",
        "p",
        "ns",
        &ObjectMeta::default(),
        EventType::Warning,
        "ReconciliationFailed",
        message,
        None,
        255,
    );
    assert_eq!(event.name, "p.ff");
    assert_eq!(event.note.len(), 1024);
    assert_eq!(event.note, format!("{}...", "x".repeat(1021)));
    assert_eq!(event.action, "ReconciliationFailed");
    assert_eq!(event.type_, EventType::Warning);
    assert_eq!(event.event_time_micros, 255);
}

#[test]
fn overflowing_series_counts_are_refused() {
    let mut recorder = EventRecorder::new("c");
    let meta = resource("test-resource", "uid-1");
    let (_, key, event) = created(recorder.plan_emit(
        "v1",
        "ConfigMap",
        &meta,
        EventData::normal(TestEventReason::ResourceCreated, "m"),
        0,
    ));
    recorder.record_created(key.clone(), event.name, 0);
    recorder.record_patched(&key, i32::MAX - 1, 0);
    let (_, _, _, count) = patched(recorder.plan_emit(
        "v1",
        "ConfigMap",
        &meta,
        EventData::normal(TestEventReason::ResourceCreated, "m"),
        1,
    ));
    assert_eq!(count, i32::MAX);
    recorder.record_patched(&key, count, 1);
    match recorder.plan_emit("v1", "ConfigMap", &meta, EventData::normal(TestEventReason::ResourceCreated, "m"), 2) {
        Err(Error::EmitEventFailed(msg)) => {
            assert_eq!(msg, "the series count of the Event would exceed i32::MAX")
        }
        other => panic!("expected an overflow error, got {:?}", other),
    }
    // Once the window has passed, a fresh Event is created instead.
    let _ = created(recorder.plan_emit(
        "v1",
        "ConfigMap",
        &meta,
        EventData::normal(TestEventReason::ResourceCreated, "m"),
        2 + DEFAULT_CACHE_TTL_NANOS,
    ));
}

#[test]
fn planning_at_a_given_time() {
    let mut recorder = EventRecorder::new("my-operator");
    let meta = resource("web", "uid-9");
    let plan = recorder.plan_emit_at(
        "apps/v1",
        "Deployment",
        &meta,
        EventType::Warning,
        "DriftDetected",
        "drift".to_string(),
        None,
        10,
        4096,
    );
    let (namespace, key, event) = created(plan);
    assert_eq!(namespace, "default");
    assert_eq!(event.name, "web.1000");
    assert_eq!(event.event_time_micros, 4096);
    assert_eq!(event.action, "DriftDetected");
    assert_eq!(event.type_, EventType::Warning);
    recorder.record_created(key, event.name.clone(), 10);

    let plan = recorder.plan_emit_at(
        "apps/v1",
        "Deployment",
        &meta,
        EventType::Warning,
        "DriftDetected",
        "drift again".to_string(),
        None,
        20,
        8192,
    );
    match plan {
        Ok(EmitPlan::Patch { event_name, patch, .. }) => {
            assert_eq!(event_name, "web.1000");
            assert_eq!(patch.count, 2);
            assert_eq!(patch.last_observed_micros, 8192);
        }
        other => panic!("expected a patch plan, got {:?}", other),
    }
}

#[test]
fn keys_compare_by_all_parts() {
    let data = EventData::normal(TestEventReason::ResourceCreated, "m");
    let a = EventKey::new("u".to_string(), &data);
    let b = EventKey::new("u".to_string(), &data);
    let c = EventKey::new("v".to_string(), &data);
    let d = EventKey::new("u".to_string(), &data.with_action("act"));
    assert!(a.same(&b));
    assert!(!a.same(&c));
    assert!(!a.same(&d));
}
