//! Deduplicating event recording.
//!
//! `EventRecorder` decides, for each event to emit, whether a new Event object is created
//! or an existing one (same object UID, event type, reason and action, emitted within
//! the cache window) gets its series count incremented, and it builds what is sent.
//! The API calls themselves are made by the caller, which reports each success back with
//! `record_created` or `record_patched`.

use vstd::prelude::*;
use vstd::string::StrSliceExecFns;
use vstd::string::StringExecFns;

use crate::error::Error;
use crate::events::note::is_truncated_note;
use crate::events::note::truncate_note;
use crate::events::note::utf8_len;
use crate::events::types::EventData;
use crate::events::types::EventType;
use crate::events::types::Reason;
use crate::resource::not_namespaced_message;
use crate::resource::clone_opt_string;
use crate::resource::ObjectMeta;
use crate::resource::TryResource;

verus! {

/// Default time window of the deduplication cache: 6 minutes, in nanoseconds.
pub const DEFAULT_CACHE_TTL_NANOS: u64 = 360_000_000_000;

/// Maximum length in bytes of the `note` field of an `events.k8s.io/v1` Event.
pub const MAX_NOTE_LENGTH: usize = 1024;

// ---------------------------------------------------------------- event names

/// The lower-case hexadecimal digit for `d`.
pub open spec fn hex_digit(d: nat) -> char {
    seq!['0', '1', '2', '3', '4', '5', '6', '7', '8', '9', 'a', 'b', 'c', 'd', 'e', 'f'][d as int]
}

/// `n` written in lower-case hexadecimal, without leading zeros.
pub open spec fn hex_lower(n: nat) -> Seq<char>
    decreases n,
{
    if n < 16 {
        seq![hex_digit(n)]
    } else {
        hex_lower(n / 16).push(hex_digit(n % 16))
    }
}

/// The name of a new Event for the object `name`, created at `micros` microseconds
/// since the Unix epoch: the object's name, a dot, and the timestamp (as an unsigned
/// 64-bit value) in lower-case hexadecimal.
pub open spec fn event_name_for(name: Seq<char>, micros: i64) -> Seq<char> {
    name + seq!['.'] + hex_lower((micros as u64) as nat)
}

/// The current time, in microseconds since the Unix epoch: the system clock, converted
/// with chrono's `DateTime<Utc>: From<SystemTime>` (which accepts times before the epoch
/// as negative values) and read with `timestamp_micros`. Nothing is stated of the value:
/// it is whatever the clock reads.
#[verifier::external_body]
fn utc_now_micros() -> i64 {
    chrono::DateTime::<chrono::Utc>::from(std::time::SystemTime::now()).timestamp_micros()
}

/// Whether `micros` is a value that reading the wall clock (`utc_now_micros`) returned.
/// Nothing more is known of the clock, so this only tells clock readings apart from
/// values derived otherwise.
pub closed spec fn is_clock_reading(micros: i64) -> bool {
    call_ensures(utc_now_micros, (), micros)
}

/// Appends the lower-case hexadecimal digit of `d` to `s`.
fn push_hex_digit(s: &mut String, d: u64)
    requires
        d < 16,
    ensures
        final(s)@ == old(s)@.push(hex_digit(d as nat)),
{
    let table = "0123456789abcdef";
    proof {
        reveal_strlit("0123456789abcdef");
        assert(table@ =~= seq![
            '0', '1', '2', '3', '4', '5', '6', '7', '8', '9', 'a', 'b', 'c', 'd', 'e', 'f',
        ]);
        assert(vstd::string::is_ascii(table));
    }
    let i = d as usize;
    let digit = table.substring_ascii(i, i + 1);
    s.append(digit);
    assert(s@ =~= old(s)@.push(hex_digit(d as nat)));
}

/// Appends `n` in lower-case hexadecimal to `s`.
fn push_hex(s: &mut String, n: u64)
    ensures
        final(s)@ == old(s)@ + hex_lower(n as nat),
    decreases n,
{
    if n >= 16 {
        push_hex(s, n / 16);
    }
    push_hex_digit(s, n % 16);
    assert(s@ =~= old(s)@ + hex_lower(n as nat));
}

/// The name of a new Event for the object `name` created at `now_micros`.
pub fn event_name(name: &str, now_micros: i64) -> (r: String)
    ensures
        r@ == event_name_for(name@, now_micros),
{
    let mut s = name.to_owned();
    let dot = ".";
    proof {
        reveal_strlit(".");
    }
    s.append(dot);
    push_hex(&mut s, now_micros as u64);
    proof {
        assert(s@ =~= event_name_for(name@, now_micros));
    }
    s
}

/// The value of a lower-case hexadecimal digit, or -1 for any other character.
pub open spec fn hex_char_value(c: char) -> int {
    if '0' <= c <= '9' {
        c as int - '0' as int
    } else if 'a' <= c <= 'f' {
        c as int - 'a' as int + 10
    } else {
        -1
    }
}

/// The number that a string of hexadecimal digits denotes.
pub open spec fn hex_value(s: Seq<char>) -> int
    decreases s.len(),
{
    if s.len() == 0 {
        0
    } else {
        hex_value(s.drop_last()) * 16 + hex_char_value(s.last())
    }
}

proof fn lemma_hex_digit_value(d: nat)
    requires
        d < 16,
    ensures
        hex_char_value(hex_digit(d)) == d,
        hex_digit(d) != '0' <==> d != 0,
{
    assert(hex_char_value('0') == 0 && hex_char_value('1') == 1 && hex_char_value('2') == 2
        && hex_char_value('3') == 3 && hex_char_value('4') == 4 && hex_char_value('5') == 5
        && hex_char_value('6') == 6 && hex_char_value('7') == 7 && hex_char_value('8') == 8
        && hex_char_value('9') == 9 && hex_char_value('a') == 10 && hex_char_value('b') == 11
        && hex_char_value('c') == 12 && hex_char_value('d') == 13 && hex_char_value('e') == 14
        && hex_char_value('f') == 15);
}

/// The timestamp part of an Event name reads back as the timestamp: every character is a
/// lower-case hexadecimal digit, the digits denote `n`, and there is no leading zero.
pub proof fn law_hex_reads_back(n: nat)
    ensures
        hex_lower(n).len() >= 1,
        hex_value(hex_lower(n)) == n,
        forall|i: int| 0 <= i < hex_lower(n).len() ==> 0 <= #[trigger] hex_char_value(hex_lower(n)[i]) < 16,
        n > 0 ==> hex_lower(n)[0] != '0',
    decreases n,
{
    lemma_hex_digit_value(n % 16);
    if n < 16 {
        assert(hex_lower(n).drop_last() =~= Seq::<char>::empty());
        assert(hex_value(Seq::<char>::empty()) == 0);
        assert(hex_value(hex_lower(n)) == hex_char_value(hex_digit(n)));
    } else {
        law_hex_reads_back(n / 16);
        let h = hex_lower(n);
        assert(h.drop_last() =~= hex_lower(n / 16));
        assert(h.last() == hex_digit(n % 16));
        assert(n == (n / 16) * 16 + n % 16) by (nonlinear_arith);
        assert(hex_value(h) == hex_value(hex_lower(n / 16)) * 16 + hex_char_value(
            hex_digit(n % 16),
        ));
        assert forall|i: int| 0 <= i < h.len() implies 0 <= #[trigger] hex_char_value(h[i]) < 16 by {
            if i < h.len() - 1 {
                assert(h[i] == hex_lower(n / 16)[i]);
            }
        }
        assert(h[0] == hex_lower(n / 16)[0]);
    }
}

// ---------------------------------------------------------------- keys and cache entries

/// The view of an optional string.
pub open spec fn opt_text(o: Option<String>) -> Option<Seq<char>> {
    match o {
        Some(s) => Some(s@),
        None => None,
    }
}


fn opt_string_eq(a: &Option<String>, b: &Option<String>) -> (r: bool)
    ensures
        r == (opt_text(*a) == opt_text(*b)),
{
    match (a, b) {
        (Some(x), Some(y)) => x.eq(y),
        (None, None) => true,
        _ => false,
    }
}

/// What identifies identical events: the object's UID, the event type, the reason and
/// the action.
#[derive(Debug)]
pub struct EventKey {
    pub object_uid: String,
    pub event_type: EventType,
    pub reason: String,
    pub action: Option<String>,
}

pub struct EventKeyView {
    pub object_uid: Seq<char>,
    pub event_type: EventType,
    pub reason: Seq<char>,
    pub action: Option<Seq<char>>,
}

impl View for EventKey {
    type V = EventKeyView;

    open spec fn view(&self) -> EventKeyView {
        EventKeyView {
            object_uid: self.object_uid@,
            event_type: self.event_type,
            reason: self.reason@,
            action: opt_text(self.action),
        }
    }
}

/// The key of an event of type `event_type` with the reason text `reason` and the
/// action `action`, emitted for the object with UID `uid`.
pub open spec fn key_with(
    uid: Seq<char>,
    event_type: EventType,
    reason: Seq<char>,
    action: Option<Seq<char>>,
) -> EventKeyView {
    EventKeyView { object_uid: uid, event_type, reason, action }
}

/// The key of `event` emitted for the object with UID `uid`, for reasons whose text is
/// known (see `Reason::obeys_reason_spec`).
pub open spec fn key_of<R: Reason>(uid: Seq<char>, event: EventData<R>) -> EventKeyView {
    key_with(uid, event.type_, event.reason.text(), opt_text(event.action))
}

/// The UID under which events of an object are keyed: its UID, or the empty string.
pub open spec fn uid_text(meta: ObjectMeta) -> Seq<char> {
    match meta.uid {
        Some(u) => u@,
        None => Seq::empty(),
    }
}

impl EventKey {
    /// The key of `event` emitted for the object with UID `uid`; its reason is the text
    /// that the event's reason gives.
    pub fn new<R: Reason>(uid: String, event: &EventData<R>) -> (k: EventKey)
        ensures
            k@ == key_with(uid@, event.type_, k.reason@, opt_text(event.action)),
            R::obeys_reason_spec() ==> k@ == key_of(uid@, *event),
    {
        EventKey {
            object_uid: uid,
            event_type: event.type_,
            reason: event.reason.as_str().to_owned(),
            action: clone_opt_string(&event.action),
        }
    }

    /// Whether two keys identify the same events.
    pub fn same(&self, other: &EventKey) -> (b: bool)
        ensures
            b == (self@ == other@),
    {
        self.object_uid == other.object_uid && self.event_type == other.event_type && self.reason
            == other.reason && opt_string_eq(&self.action, &other.action)
    }
}

impl Clone for EventKey {
    fn clone(&self) -> (k: EventKey)
        ensures
            k == *self,
    {
        EventKey {
            object_uid: self.object_uid.clone(),
            event_type: self.event_type,
            reason: self.reason.clone(),
            action: clone_opt_string(&self.action),
        }
    }
}

/// What the recorder remembers of an Event it created: its name, its series count and
/// when it was last emitted (on the caller's monotonic clock, in nanoseconds).
#[derive(Debug)]
pub struct CachedEvent {
    pub event_name: String,
    pub count: i32,
    pub last_emitted: u64,
}

pub struct CachedEventView {
    pub event_name: Seq<char>,
    pub count: i32,
    pub last_emitted: u64,
}

impl View for CachedEvent {
    type V = CachedEventView;

    open spec fn view(&self) -> CachedEventView {
        CachedEventView {
            event_name: self.event_name@,
            count: self.count,
            last_emitted: self.last_emitted,
        }
    }
}

impl Clone for CachedEvent {
    fn clone(&self) -> (c: CachedEvent)
        ensures
            c == *self,
    {
        CachedEvent {
            event_name: self.event_name.clone(),
            count: self.count,
            last_emitted: self.last_emitted,
        }
    }
}

/// Time elapsed from `since` to `now`; zero when `now` is earlier.
pub open spec fn elapsed(now: u64, since: u64) -> u64 {
    if now >= since {
        (now - since) as u64
    } else {
        0
    }
}

/// Whether a cache entry is still inside the deduplication window at `now`.
pub open spec fn is_fresh(c: CachedEventView, now: u64, ttl: u64) -> bool {
    elapsed(now, c.last_emitted) < ttl
}

/// The cache after dropping every entry that is no longer fresh at `now`.
pub open spec fn evict(m: Map<EventKeyView, CachedEventView>, now: u64, ttl: u64) -> Map<
    EventKeyView,
    CachedEventView,
> {
    Map::new(|k: EventKeyView| m.contains_key(k) && is_fresh(m[k], now, ttl), |k: EventKeyView| m[k])
}

/// The cache after a successful series patch of the entry under `key`: its count
/// becomes `count` and it was last emitted at `now`; without such an entry the cache is
/// unchanged.
pub open spec fn patched(
    m: Map<EventKeyView, CachedEventView>,
    key: EventKeyView,
    count: i32,
    now: u64,
) -> Map<EventKeyView, CachedEventView> {
    if m.contains_key(key) {
        m.insert(key, CachedEventView { event_name: m[key].event_name, count, last_emitted: now })
    } else {
        m
    }
}

/// The cache after a successful creation of the Event `event_name` under `key`.
pub open spec fn created(
    m: Map<EventKeyView, CachedEventView>,
    key: EventKeyView,
    event_name: Seq<char>,
    now: u64,
) -> Map<EventKeyView, CachedEventView> {
    m.insert(key, CachedEventView { event_name, count: 1, last_emitted: now })
}



// ---------------------------------------------------------------- what is sent

/// The object an Event is about.
#[derive(Debug)]
pub struct ObjectReference {
    pub api_version: Option<String>,
    pub kind: Option<String>,
    pub name: Option<String>,
    pub namespace: Option<String>,
    pub uid: Option<String>,
    pub resource_version: Option<String>,
}

/// A new `events.k8s.io/v1` Event, with the fields that the recorder sets.
#[derive(Debug)]
pub struct NewEvent {
    pub name: String,
    pub namespace: String,
    /// When the event happened, in microseconds since the Unix epoch.
    pub event_time_micros: i64,
    pub reporting_controller: String,
    pub reporting_instance: String,
    pub regarding: ObjectReference,
    pub action: String,
    pub reason: String,
    pub note: String,
    pub type_: EventType,
}

/// The merge patch of the `series` of an existing Event.
#[derive(Debug)]
pub struct SeriesPatch {
    pub count: i32,
    /// When the event was last observed, in microseconds since the Unix epoch.
    pub last_observed_micros: i64,
}

/// What emitting an event comes down to.
#[derive(Debug)]
pub enum EmitPlan {
    /// Patch the series of the existing Event `event_name`; on success, report it with
    /// `record_patched(key, patch.count, ..)`.
    Patch { namespace: String, key: EventKey, event_name: String, patch: SeriesPatch },
    /// Create `event`; on success, report it with `record_created(key, event.name, ..)`.
    Create { namespace: String, key: EventKey, event: NewEvent },
}

/// The action reported for an event: its own action, or else its reason.
pub open spec fn action_text(action: Option<Seq<char>>, reason: Seq<char>) -> Seq<char> {
    match action {
        Some(a) => a,
        None => reason,
    }
}

/// `e` is the Event that reports an event of type `event_type`, with the reason text
/// `reason`, the message `message` and the action `action`, about the object `name` in
/// `namespace` (of the given API version and kind, with metadata `meta`), emitted by
/// `component` at `now_micros`.
pub open spec fn describes_new_event(
    e: NewEvent,
    component: Seq<char>,
    api_version: Seq<char>,
    kind: Seq<char>,
    name: Seq<char>,
    namespace: Seq<char>,
    meta: ObjectMeta,
    event_type: EventType,
    reason: Seq<char>,
    message: Seq<char>,
    action: Option<Seq<char>>,
    now_micros: i64,
) -> bool {
    &&& e.name@ == event_name_for(name, now_micros)
    &&& e.namespace@ == namespace
    &&& e.event_time_micros == now_micros
    &&& e.reporting_controller@ == component
    &&& e.reporting_instance@ == component
    &&& opt_text(e.regarding.api_version) == Some(api_version)
    &&& opt_text(e.regarding.kind) == Some(kind)
    &&& opt_text(e.regarding.name) == Some(name)
    &&& opt_text(e.regarding.namespace) == Some(namespace)
    &&& e.regarding.uid == meta.uid
    &&& e.regarding.resource_version == meta.resource_version
    &&& e.action@ == action_text(action, reason)
    &&& e.reason@ == reason
    &&& is_truncated_note(message, MAX_NOTE_LENGTH as nat, e.note@)
    &&& e.type_ == event_type
}

/// Builds the Event that reports an event of type `event_type` with the reason text
/// `reason`, the message `message` and the action `action`, about the object `name` in
/// `namespace`, emitted by `component` at `now_micros`: the name is derived from the
/// object's name and the time, the action defaults to the reason, and the note is the
/// message truncated to the Event API's limit.
pub fn new_event_record(
    component: &str,
    api_version: &str,
    kind: &str,
    name: &str,
    namespace: &str,
    meta: &ObjectMeta,
    event_type: EventType,
    reason: &str,
    message: String,
    action: Option<String>,
    now_micros: i64,
) -> (e: NewEvent)
    ensures
        describes_new_event(
            e,
            component@,
            api_version@,
            kind@,
            name@,
            namespace@,
            *meta,
            event_type,
            reason@,
            message@,
            opt_text(action),
            now_micros,
        ),
{
    let event_name = event_name(name, now_micros);
    let reason = reason.to_owned();
    let action = match action {
        Some(a) => a,
        None => reason.clone(),
    };
    let note = truncate_note(message, MAX_NOTE_LENGTH);
    let regarding = ObjectReference {
        api_version: Some(api_version.to_owned()),
        kind: Some(kind.to_owned()),
        name: Some(name.to_owned()),
        namespace: Some(namespace.to_owned()),
        uid: clone_opt_string(&meta.uid),
        resource_version: clone_opt_string(&meta.resource_version),
    };
    NewEvent {
        name: event_name,
        namespace: namespace.to_owned(),
        event_time_micros: now_micros,
        reporting_controller: component.to_owned(),
        reporting_instance: component.to_owned(),
        regarding,
        action,
        reason,
        note,
        type_: event_type,
    }
}

/// The message of the error for an emission that would take an Event's series count past
/// `i32::MAX`.
pub open spec fn series_overflow_message() -> Seq<char> {
    "the series count of the Event would exceed i32::MAX"@
}

/// `r` is the outcome of emitting an event (of type `event_type`, with the reason text
/// `reason`, the message `message` and the action `action`) about the named, namespaced
/// object with metadata `meta`, when the cache holds `m` after eviction and the wall clock
/// reads `now_micros`:
/// - an Event with the same key is cached: its series is patched with the count raised by
///   one and the time `now_micros`, unless the count is already `i32::MAX`, which is
///   refused;
/// - otherwise a new Event is created, as `describes_new_event` says.
pub open spec fn emit_outcome(
    r: Result<EmitPlan, Error>,
    m: Map<EventKeyView, CachedEventView>,
    component: Seq<char>,
    api_version: Seq<char>,
    kind: Seq<char>,
    meta: ObjectMeta,
    event_type: EventType,
    reason: Seq<char>,
    message: Seq<char>,
    action: Option<Seq<char>>,
    now_micros: i64,
) -> bool {
    let key = key_with(uid_text(meta), event_type, reason, action);
    if m.contains_key(key) {
        if m[key].count == i32::MAX {
            (r matches Err(Error::EmitEventFailed(msg)) && msg@ == series_overflow_message())
        } else {
            (r matches Ok(EmitPlan::Patch { namespace, key: k, event_name, patch })
                && namespace@ == meta.namespace_of()->0 && k@ == key && event_name@
                == m[key].event_name && patch.count == m[key].count + 1
                && patch.last_observed_micros == now_micros)
        }
    } else {
        (r matches Ok(EmitPlan::Create { namespace, key: k, event: e }) && namespace@
            == meta.namespace_of()->0 && k@ == key && describes_new_event(
            e,
            component,
            api_version,
            kind,
            meta.name_of()->0,
            meta.namespace_of()->0,
            meta,
            event_type,
            reason,
            message,
            action,
            now_micros,
        ))
    }
}

// ---------------------------------------------------------------- the recorder

/// Whether the entries of the cache vector hold exactly the map `m`, each key once.
pub closed spec fn entries_hold(entries: Seq<(EventKey, CachedEvent)>, m: Map<EventKeyView, CachedEventView>) -> bool {
    &&& forall|i: int|
        0 <= i < entries.len() ==> m.contains_key(#[trigger] entries[i].0@) && m[entries[i].0@]
            == entries[i].1@
    &&& forall|k: EventKeyView|
        #[trigger] m.contains_key(k) ==> exists|i: int| 0 <= i < entries.len() && entries[i].0@ == k
    &&& forall|i: int, j: int|
        0 <= i < j < entries.len() ==> (#[trigger] entries[i].0)@ != (#[trigger] entries[j].0)@
}

/// Whether some entry of `entries` has the key `k`.
pub closed spec fn holds_key(entries: Seq<(EventKey, CachedEvent)>, k: EventKeyView) -> bool {
    exists|j: int| 0 <= j < entries.len() && entries[j].0@ == k
}

/// Every entry of the cache counts at least one emission.
pub open spec fn counts_positive(m: Map<EventKeyView, CachedEventView>) -> bool {
    forall|k: EventKeyView| #[trigger] m.contains_key(k) ==> m[k].count >= 1
}

/// Decides how events are emitted so that identical events are deduplicated, and keeps
/// the cache of Events created within the deduplication window.
pub struct EventRecorder {
    component: String,
    cache_ttl: u64,
    entries: Vec<(EventKey, CachedEvent)>,
    cache: Ghost<Map<EventKeyView, CachedEventView>>,
}

impl EventRecorder {
    /// The cached Events, by key.
    pub closed spec fn cache(&self) -> Map<EventKeyView, CachedEventView> {
        self.cache@
    }

    /// The deduplication window, in nanoseconds.
    pub closed spec fn ttl(&self) -> u64 {
        self.cache_ttl
    }

    /// The component named as reporting controller and instance of the Events.
    pub closed spec fn component_text(&self) -> Seq<char> {
        self.component@
    }

    /// The recorder's internal consistency: the cache vector holds the cache, and every
    /// entry counts at least one emission.
    pub closed spec fn wf(&self) -> bool {
        &&& entries_hold(self.entries@, self.cache@)
        &&& counts_positive(self.cache@)
    }

    /// A recorder for `component` with an empty cache and the default window of
    /// 6 minutes.
    pub fn new(component: &str) -> (r: EventRecorder)
        ensures
            r.wf(),
            r.cache() == Map::<EventKeyView, CachedEventView>::empty(),
            r.ttl() == DEFAULT_CACHE_TTL_NANOS,
            r.component_text() == component@,
    {
        EventRecorder {
            component: component.to_owned(),
            cache_ttl: DEFAULT_CACHE_TTL_NANOS,
            entries: Vec::new(),
            cache: Ghost(Map::empty()),
        }
    }

    /// The same recorder with a deduplication window of `ttl_nanos` nanoseconds.
    pub fn with_cache_ttl(self, ttl_nanos: u64) -> (r: EventRecorder)
        requires
            self.wf(),
        ensures
            r.wf(),
            r.cache() == self.cache(),
            r.ttl() == ttl_nanos,
            r.component_text() == self.component_text(),
    {
        EventRecorder { cache_ttl: ttl_nanos, ..self }
    }

    /// The deduplication window, in nanoseconds.
    pub fn cache_ttl(&self) -> (t: u64)
        ensures
            t == self.ttl(),
    {
        self.cache_ttl
    }

    /// The component named in the Events.
    pub fn component(&self) -> (c: &str)
        ensures
            c@ == self.component_text(),
    {
        self.component.as_str()
    }

    /// Number of cached Events.
    pub fn cached_len(&self) -> (n: usize)
        requires
            self.wf(),
        ensures
            n == self.cache().len(),
    {
        proof {
            self.lemma_cache_len();
        }
        self.entries.len()
    }

    proof fn lemma_cache_len(&self)
        requires
            self.wf(),
        ensures
            self.cache@.dom().finite(),
            self.cache@.len() == self.entries@.len(),
        decreases self.entries@.len(),
    {
        let keys = self.entries@.map_values(|e: (EventKey, CachedEvent)| e.0@);
        assert forall|i: int, j: int| 0 <= i < j < keys.len() implies keys[i] != keys[j] by {
            assert(self.entries@[i].0@ != self.entries@[j].0@);
        }
        assert(keys.no_duplicates());
        keys.unique_seq_to_set();
        assert(keys.to_set() =~= self.cache@.dom()) by {
            assert forall|k: EventKeyView| self.cache@.dom().contains(k) implies keys.to_set().contains(k) by {
                assert(self.cache@.contains_key(k));
                let i = choose|i: int| 0 <= i < self.entries@.len() && self.entries@[i].0@ == k;
                assert(keys[i] == k);
            }
            assert forall|k: EventKeyView| keys.to_set().contains(k) implies self.cache@.dom().contains(k) by {
                let i = choose|i: int| 0 <= i < keys.len() && keys[i] == k;
                assert(self.entries@[i].0@ == k);
            }
        }
    }

    /// Index of the entry under `key`, if there is one.
    fn find(&self, key: &EventKey) -> (r: Option<usize>)
        requires
            self.wf(),
        ensures
            match r {
                Some(i) => i < self.entries@.len() && self.entries@[i as int].0@ == key@,
                None => !self.cache@.contains_key(key@),
            },
    {
        let mut i: usize = 0;
        while i < self.entries.len()
            invariant
                self.wf(),
                i <= self.entries@.len(),
                forall|j: int| 0 <= j < i ==> self.entries@[j].0@ != key@,
            decreases self.entries@.len() - i,
        {
            if self.entries[i].0.same(key) {
                return Some(i);
            }
            i = i + 1;
        }
        proof {
            if self.cache@.contains_key(key@) {
                let j = choose|j: int| 0 <= j < self.entries@.len() && self.entries@[j].0@ == key@;
                assert(self.entries@[j].0@ == key@);
            }
        }
        None
    }

    /// The cached Event under `key`, without evicting anything.
    pub fn cached(&self, key: &EventKey) -> (r: Option<CachedEvent>)
        requires
            self.wf(),
        ensures
            match r {
                Some(c) => self.cache().contains_key(key@) && self.cache()[key@] == c@,
                None => !self.cache().contains_key(key@),
            },
    {
        match self.find(key) {
            Some(i) => Some(self.entries[i].1.clone()),
            None => None,
        }
    }

    /// Drops the entries that are outside the deduplication window at `now`, then
    /// returns the entry under `key`, if any is left.
    pub fn lookup_cached(&mut self, key: &EventKey, now: u64) -> (r: Option<CachedEvent>)
        requires
            old(self).wf(),
        ensures
            final(self).wf(),
            final(self).cache() == evict(old(self).cache(), now, old(self).ttl()),
            final(self).ttl() == old(self).ttl(),
            final(self).component_text() == old(self).component_text(),
            match r {
                Some(c) => final(self).cache().contains_key(key@) && final(self).cache()[key@]
                    == c@,
                None => !final(self).cache().contains_key(key@),
            },
    {
        let ghost m = evict(self.cache@, now, self.cache_ttl);
        let ttl = self.cache_ttl;
        let mut kept: Vec<(EventKey, CachedEvent)> = Vec::new();
        let mut i: usize = 0;
        while i < self.entries.len()
            invariant
                self.wf(),
                ttl == self.cache_ttl,
                m == evict(self.cache@, now, ttl),
                i <= self.entries@.len(),
                forall|j: int|
                    0 <= j < kept@.len() ==> m.contains_key(#[trigger] kept@[j].0@) && m[kept@[j].0@]
                        == kept@[j].1@,
                forall|j: int|
                    0 <= j < kept@.len() ==> exists|jj: int|
                        0 <= jj < i && (#[trigger] kept@[j].0)@ == self.entries@[jj].0@,
                forall|jj: int|
                    0 <= jj < i && is_fresh(#[trigger] self.entries@[jj].1@, now, ttl) ==> holds_key(
                        kept@,
                        self.entries@[jj].0@,
                    ),
                forall|a: int, b: int|
                    0 <= a < b < kept@.len() ==> (#[trigger] kept@[a].0)@ != (
                    #[trigger] kept@[b].0)@,
            decreases self.entries@.len() - i,
        {
            let last = self.entries[i].1.last_emitted;
            let age = if now >= last {
                now - last
            } else {
                0
            };
            if age < ttl {
                let entry = (self.entries[i].0.clone(), self.entries[i].1.clone());
                proof {
                    assert(self.cache@.contains_key(self.entries@[i as int].0@));
                    assert forall|j: int| 0 <= j < kept@.len() implies kept@[j].0@ != entry.0@ by {
                        let jj = choose|jj: int|
                            0 <= jj < i && (#[trigger] kept@[j].0)@ == self.entries@[jj].0@;
                        assert(self.entries@[jj].0@ != self.entries@[i as int].0@);
                    }
                }
                let ghost before = kept@;
                kept.push(entry);
                proof {
                    assert(kept@[kept@.len() - 1].0@ == self.entries@[i as int].0@);
                    assert forall|jj: int|
                        0 <= jj < i && is_fresh(#[trigger] self.entries@[jj].1@, now, ttl) implies holds_key(
                        kept@,
                        self.entries@[jj].0@,
                    ) by {
                        let j = choose|j: int|
                            0 <= j < before.len() && before[j].0@ == self.entries@[jj].0@;
                        assert(kept@[j] == before[j]);
                    }
                }
            }
            i = i + 1;
        }
        proof {
            assert forall|k: EventKeyView| #[trigger] m.contains_key(k) implies exists|j: int|
                0 <= j < kept@.len() && kept@[j].0@ == k by {
                let jj = choose|jj: int| 0 <= jj < self.entries@.len() && self.entries@[jj].0@ == k;
                assert(is_fresh(self.entries@[jj].1@, now, ttl));
                assert(holds_key(kept@, self.entries@[jj].0@));
            }
            assert(entries_hold(kept@, m));
        }
        self.entries = kept;
        self.cache = Ghost(m);
        self.cached(key)
    }

    /// Remembers that the Event `event_name` was created under `key` at `now`: the
    /// entry under `key` now counts one emission.
    pub fn record_created(&mut self, key: EventKey, event_name: String, now: u64)
        requires
            old(self).wf(),
        ensures
            final(self).wf(),
            final(self).cache() == created(old(self).cache(), key@, event_name@, now),
            final(self).ttl() == old(self).ttl(),
            final(self).component_text() == old(self).component_text(),
    {
        let ghost m = created(self.cache@, key@, event_name@, now);
        let found = self.find(&key);
        let entry = (key, CachedEvent { event_name, count: 1, last_emitted: now });
        match found {
            Some(i) => {
                self.entries.set(i, entry);
            },
            None => {
                self.entries.push(entry);
            },
        }
        self.cache = Ghost(m);
        proof {
            assert forall|j: int| 0 <= j < self.entries@.len() implies m.contains_key(
                #[trigger] self.entries@[j].0@,
            ) && m[self.entries@[j].0@] == self.entries@[j].1@ by {
                if j < old(self).entries@.len() && (found is None || j != found->0 as int) {
                    assert(self.entries@[j] == old(self).entries@[j]);
                    assert(old(self).cache@.contains_key(old(self).entries@[j].0@));
                    if let Some(i) = found {
                        assert(old(self).entries@[i as int].0@ != old(self).entries@[j].0@);
                    }
                }
            }
            assert forall|a: int, b: int|
                0 <= a < b < self.entries@.len() implies (#[trigger] self.entries@[a].0)@ != (
            #[trigger] self.entries@[b].0)@ by {
                if let Some(i) = found {
                    if a != i && b != i {
                        assert(old(self).entries@[a].0@ != old(self).entries@[b].0@);
                    } else if a == i {
                        assert(old(self).entries@[a].0@ != old(self).entries@[b].0@);
                    } else {
                        assert(old(self).entries@[a].0@ != old(self).entries@[b].0@);
                    }
                } else {
                    if b < old(self).entries@.len() {
                        assert(old(self).entries@[a].0@ != old(self).entries@[b].0@);
                    } else {
                        assert(old(self).cache@.contains_key(old(self).entries@[a].0@));
                    }
                }
            }
            assert forall|k: EventKeyView| #[trigger] m.contains_key(k) implies exists|j: int|
                0 <= j < self.entries@.len() && self.entries@[j].0@ == k by {
                if k != entry.0@ {
                    let j = choose|j: int|
                        0 <= j < old(self).entries@.len() && old(self).entries@[j].0@ == k;
                    assert(self.entries@[j].0@ == k);
                } else {
                    match found {
                        Some(i) => assert(self.entries@[i as int].0@ == k),
                        None => assert(self.entries@[old(self).entries@.len() as int].0@ == k),
                    }
                }
            }
        }
    }

    /// Remembers that the series of the Event under `key` was patched to `count` at
    /// `now`; nothing changes when no Event is cached under `key`.
    pub fn record_patched(&mut self, key: &EventKey, count: i32, now: u64)
        requires
            old(self).wf(),
            count >= 1,
        ensures
            final(self).wf(),
            final(self).cache() == patched(old(self).cache(), key@, count, now),
            final(self).ttl() == old(self).ttl(),
            final(self).component_text() == old(self).component_text(),
    {
        let ghost m = patched(self.cache@, key@, count, now);
        match self.find(key) {
            Some(i) => {
                let event_name = self.entries[i].1.event_name.clone();
                let entry = (key.clone(), CachedEvent { event_name, count, last_emitted: now });
                self.entries.set(i, entry);
                self.cache = Ghost(m);
                proof {
                    assert forall|k: EventKeyView| #[trigger] m.contains_key(k) implies exists|
                        j: int,
                    |
                        0 <= j < self.entries@.len() && self.entries@[j].0@ == k by {
                        let j = choose|j: int|
                            0 <= j < old(self).entries@.len() && old(self).entries@[j].0@ == k;
                        assert(self.entries@[j].0@ == k);
                    }
                }
            },
            None => {},
        }
    }
    /// Decides how an event about an object is emitted, at `now` on the caller's
    /// monotonic clock and `now_micros` on the wall clock. The event has the type
    /// `event_type`, the reason text `reason`, the message `message` and the action
    /// `action`.
    ///
    /// An object without a namespace or without a name is refused, leaving the recorder
    /// unchanged. Otherwise expired cache entries are dropped, and the event's key is
    /// formed from the object's UID (empty when it has none), the event type, the reason
    /// and the action; the outcome is then as `emit_outcome` describes it.
    pub fn plan_emit_at(
        &mut self,
        api_version: &str,
        kind: &str,
        meta: &ObjectMeta,
        event_type: EventType,
        reason: &str,
        message: String,
        action: Option<String>,
        now: u64,
        now_micros: i64,
    ) -> (r: Result<EmitPlan, Error>)
        requires
            old(self).wf(),
        ensures
            final(self).wf(),
            final(self).ttl() == old(self).ttl(),
            final(self).component_text() == old(self).component_text(),
            meta.namespace_of() is None ==> (r matches Err(Error::UserInput(m)) && m@
                == not_namespaced_message() && final(self).cache() == old(self).cache()),
            meta.namespace_of() is Some && meta.name_of() is None ==> (r matches Err(
                Error::UnnamedObject,
            ) && final(self).cache() == old(self).cache()),
            meta.namespace_of() is Some && meta.name_of() is Some ==> ({
                let m = evict(old(self).cache(), now, old(self).ttl());
                &&& final(self).cache() == m
                &&& emit_outcome(
                    r,
                    m,
                    old(self).component_text(),
                    api_version@,
                    kind@,
                    *meta,
                    event_type,
                    reason@,
                    message@,
                    opt_text(action),
                    now_micros,
                )
            }),
    {
        let namespace = match meta.try_namespace() {
            Ok(ns) => ns,
            Err(e) => {
                return Err(e);
            },
        };
        let name = match meta.try_name() {
            Ok(n) => n,
            Err(e) => {
                return Err(e);
            },
        };
        let uid = match &meta.uid {
            Some(u) => u.clone(),
            None => String::new(),
        };
        let key = EventKey {
            object_uid: uid,
            event_type,
            reason: reason.to_owned(),
            action: clone_opt_string(&action),
        };
        let cached = self.lookup_cached(&key, now);
        match cached {
            Some(c) => {
                if c.count == i32::MAX {
                    return Err(
                        Error::EmitEventFailed(
                            "the series count of the Event would exceed i32::MAX".to_owned(),
                        ),
                    );
                }
                Ok(
                    EmitPlan::Patch {
                        namespace,
                        key,
                        event_name: c.event_name,
                        patch: SeriesPatch { count: c.count + 1, last_observed_micros: now_micros },
                    },
                )
            },
            None => {
                let e = new_event_record(
                    self.component.as_str(),
                    api_version,
                    kind,
                    name,
                    namespace.as_str(),
                    meta,
                    event_type,
                    reason,
                    message,
                    action,
                    now_micros,
                );
                Ok(EmitPlan::Create { namespace, key, event: e })
            },
        }
    }

    /// Decides how `event` about an object is emitted, at `now` on the caller's
    /// monotonic clock: asks the reason for its text, reads the wall clock once, and
    /// plans with `plan_emit_at`. The outcome is that of `plan_emit_at` for the text that
    /// the reason gave and the time that the clock read.
    pub fn plan_emit<R: Reason>(
        &mut self,
        api_version: &str,
        kind: &str,
        meta: &ObjectMeta,
        event: EventData<R>,
        now: u64,
    ) -> (r: Result<EmitPlan, Error>)
        requires
            old(self).wf(),
        ensures
            final(self).wf(),
            final(self).ttl() == old(self).ttl(),
            final(self).component_text() == old(self).component_text(),
            meta.namespace_of() is None ==> (r matches Err(Error::UserInput(m)) && m@
                == not_namespaced_message() && final(self).cache() == old(self).cache()),
            meta.namespace_of() is Some && meta.name_of() is None ==> (r matches Err(
                Error::UnnamedObject,
            ) && final(self).cache() == old(self).cache()),
            meta.namespace_of() is Some && meta.name_of() is Some ==> ({
                let m = evict(old(self).cache(), now, old(self).ttl());
                &&& final(self).cache() == m
                &&& exists|reason: Seq<char>, now_micros: i64|
                    #![trigger emit_outcome(
                        r,
                        m,
                        old(self).component_text(),
                        api_version@,
                        kind@,
                        *meta,
                        event.type_,
                        reason,
                        event.message@,
                        opt_text(event.action),
                        now_micros,
                    )]
                    is_clock_reading(now_micros) && (R::obeys_reason_spec()
                        ==> reason == event.reason.text()) && emit_outcome(
                        r,
                        m,
                        old(self).component_text(),
                        api_version@,
                        kind@,
                        *meta,
                        event.type_,
                        reason,
                        event.message@,
                        opt_text(event.action),
                        now_micros,
                    )
            }),
    {
        let reason = event.reason.as_str().to_owned();
        let read_clock = utc_now_micros;
        let now_micros = read_clock();
        let EventData { type_, reason: _, message, action } = event;
        self.plan_emit_at(
            api_version,
            kind,
            meta,
            type_,
            reason.as_str(),
            message,
            action,
            now,
            now_micros,
        )
    }
}

// ---------------------------------------------------------------- laws of deduplication

/// An Event created under `key` is found again by an emission with the same key inside
/// the window: the emission patches that Event, whose series then counts two.
pub proof fn law_repeat_within_window_patches(
    m: Map<EventKeyView, CachedEventView>,
    key: EventKeyView,
    event_name: Seq<char>,
    created_at: u64,
    now: u64,
    ttl: u64,
)
    requires
        elapsed(now, created_at) < ttl,
    ensures
        evict(created(m, key, event_name, created_at), now, ttl).contains_key(key),
        evict(created(m, key, event_name, created_at), now, ttl)[key].event_name == event_name,
        evict(created(m, key, event_name, created_at), now, ttl)[key].count == 1,
{
}

/// Each further emission inside the window raises the series count of the same Event by
/// one: after a patch to `count` at `patched_at`, the next emission inside the window
/// finds the same Event with that count.
pub proof fn law_patch_counts_up(
    m: Map<EventKeyView, CachedEventView>,
    key: EventKeyView,
    count: i32,
    patched_at: u64,
    now: u64,
    ttl: u64,
)
    requires
        m.contains_key(key),
        elapsed(now, patched_at) < ttl,
    ensures
        evict(patched(m, key, count, patched_at), now, ttl).contains_key(key),
        evict(patched(m, key, count, patched_at), now, ttl)[key].event_name == m[key].event_name,
        evict(patched(m, key, count, patched_at), now, ttl)[key].count == count,
{
}

/// Once the window has passed since an Event was last emitted, the next emission with its
/// key no longer finds it, and so creates a fresh Event.
pub proof fn law_expired_entry_is_forgotten(
    m: Map<EventKeyView, CachedEventView>,
    key: EventKeyView,
    now: u64,
    ttl: u64,
)
    requires
        m.contains_key(key),
        elapsed(now, m[key].last_emitted) >= ttl,
    ensures
        !evict(m, now, ttl).contains_key(key),
{
}

/// Events with different keys are never deduplicated with each other: creating or
/// patching the Event under `key` leaves the entry under any other key as it was.
pub proof fn law_other_keys_untouched(
    m: Map<EventKeyView, CachedEventView>,
    key: EventKeyView,
    other: EventKeyView,
    event_name: Seq<char>,
    count: i32,
    at: u64,
)
    requires
        key != other,
    ensures
        created(m, key, event_name, at).contains_key(other) == m.contains_key(other),
        patched(m, key, count, at).contains_key(other) == m.contains_key(other),
        m.contains_key(other) ==> created(m, key, event_name, at)[other] == m[other],
        m.contains_key(other) ==> patched(m, key, count, at)[other] == m[other],
{
}

/// Eviction only drops entries, keeps every entry that is still inside the window, and
/// dropping twice at the same time changes nothing more.
pub proof fn law_evict_keeps_fresh_entries(m: Map<EventKeyView, CachedEventView>, now: u64, ttl: u64)
    ensures
        forall|k: EventKeyView| #[trigger]
            evict(m, now, ttl).contains_key(k) ==> m.contains_key(k) && evict(m, now, ttl)[k]
                == m[k] && is_fresh(m[k], now, ttl),
        forall|k: EventKeyView|
            m.contains_key(k) && is_fresh(m[k], now, ttl) ==> #[trigger] evict(
                m,
                now,
                ttl,
            ).contains_key(k),
        evict(evict(m, now, ttl), now, ttl) == evict(m, now, ttl),
{
    assert(evict(evict(m, now, ttl), now, ttl) =~= evict(m, now, ttl));
}

/// The planned Event is stamped with the wall-clock time it was planned at: a created
/// Event carries that time as its event time and in its name, a series patch carries it as
/// the last observation.
pub proof fn law_plan_stamped_with_planning_time(
    r: Result<EmitPlan, Error>,
    m: Map<EventKeyView, CachedEventView>,
    component: Seq<char>,
    api_version: Seq<char>,
    kind: Seq<char>,
    meta: ObjectMeta,
    event_type: EventType,
    reason: Seq<char>,
    message: Seq<char>,
    action: Option<Seq<char>>,
    now_micros: i64,
)
    requires
        emit_outcome(r, m, component, api_version, kind, meta, event_type, reason, message, action, now_micros),
    ensures
        r matches Ok(EmitPlan::Create { event: e, .. }) ==> e.event_time_micros == now_micros
            && e.name@ == meta.name_of()->0 + seq!['.'] + hex_lower((now_micros as u64) as nat),
        r matches Ok(EmitPlan::Patch { patch, .. }) ==> patch.last_observed_micros == now_micros,
{
}

/// An identical event (same UID, type, reason and action, whatever the action is) whose
/// Event is still cached is deduplicated: the plan patches that Event, raising its count by
/// one, unless the count is already at `i32::MAX`.
pub proof fn law_cached_key_patches(
    r: Result<EmitPlan, Error>,
    m: Map<EventKeyView, CachedEventView>,
    component: Seq<char>,
    api_version: Seq<char>,
    kind: Seq<char>,
    meta: ObjectMeta,
    event_type: EventType,
    reason: Seq<char>,
    message: Seq<char>,
    action: Option<Seq<char>>,
    now_micros: i64,
)
    requires
        emit_outcome(r, m, component, api_version, kind, meta, event_type, reason, message, action, now_micros),
        m.contains_key(EventKeyView { object_uid: uid_text(meta), event_type, reason, action }),
        m[EventKeyView { object_uid: uid_text(meta), event_type, reason, action }].count < i32::MAX,
    ensures
        r matches Ok(EmitPlan::Patch { key: k, event_name, patch, .. }) && k@ == (EventKeyView {
            object_uid: uid_text(meta),
            event_type,
            reason,
            action,
        }) && event_name@ == m[k@].event_name && patch.count == m[k@].count + 1,
{
}

/// An entry last emitted `ttl` or more nanoseconds before `now` is dropped by eviction, for
/// any window and any age.
pub proof fn law_stale_entries_evicted(
    m: Map<EventKeyView, CachedEventView>,
    key: EventKeyView,
    now: u64,
    ttl: u64,
)
    requires
        m.contains_key(key),
        m[key].last_emitted + ttl <= now,
    ensures
        !evict(m, now, ttl).contains_key(key),
{
}

/// An entry last emitted less than `ttl` nanoseconds before `now` (or, on a clock that
/// went backwards, after `now`, while the window is not empty) survives eviction unchanged.
pub proof fn law_recent_entries_kept(
    m: Map<EventKeyView, CachedEventView>,
    key: EventKeyView,
    now: u64,
    ttl: u64,
)
    requires
        m.contains_key(key),
        now < m[key].last_emitted + ttl,
        ttl > 0,
    ensures
        evict(m, now, ttl).contains_key(key),
        evict(m, now, ttl)[key] == m[key],
{
}

/// Every Event that the recorder builds fits the Event API: its note takes at most
/// `MAX_NOTE_LENGTH` bytes; its reason is the event's reason text whatever the action; and
/// it always has an action, which is the event's own action when it has one and the
/// reason's text otherwise.
pub proof fn law_new_event_fits_api(
    e: NewEvent,
    component: Seq<char>,
    api_version: Seq<char>,
    kind: Seq<char>,
    name: Seq<char>,
    namespace: Seq<char>,
    meta: ObjectMeta,
    event_type: EventType,
    reason: Seq<char>,
    message: Seq<char>,
    action: Option<Seq<char>>,
    now_micros: i64,
)
    requires
        describes_new_event(
            e,
            component,
            api_version,
            kind,
            name,
            namespace,
            meta,
            event_type,
            reason,
            message,
            action,
            now_micros,
        ),
    ensures
        utf8_len(e.note@) <= MAX_NOTE_LENGTH,
        e.reason@ == reason,
        action is None ==> e.action@ == reason,
        action matches Some(a) ==> e.action@ == a,
{
    crate::events::note::law_truncated_note_fits(message, MAX_NOTE_LENGTH as nat, e.note@);
}

/// The cache after one successful emission under `key` at `now`: the cached Event's series
/// is patched when it is still inside the window, else the Event `name` is created.
pub open spec fn emission_step(
    m: Map<EventKeyView, CachedEventView>,
    key: EventKeyView,
    name: Seq<char>,
    now: u64,
    ttl: u64,
) -> Map<EventKeyView, CachedEventView> {
    let e = evict(m, now, ttl);
    if e.contains_key(key) {
        patched(e, key, (e[key].count + 1) as i32, now)
    } else {
        created(e, key, name, now)
    }
}

/// The cache after successful emissions under `key` at each of `times` in turn, a created
/// Event being named `name`.
pub open spec fn emissions(
    m: Map<EventKeyView, CachedEventView>,
    key: EventKeyView,
    name: Seq<char>,
    times: Seq<u64>,
    ttl: u64,
) -> Map<EventKeyView, CachedEventView>
    decreases times.len(),
{
    if times.len() == 0 {
        m
    } else {
        emission_step(emissions(m, key, name, times.drop_last(), ttl), key, name, times.last(), ttl)
    }
}

/// Identical events emitted one after another, each inside the window of the previous one,
/// make one Event: the first emission creates it, and emission `k` (from 0) patches it to
/// the series count `k + 1`; after `n` emissions the cached Event counts `n`.
pub proof fn law_repeated_emissions_count_up(
    m: Map<EventKeyView, CachedEventView>,
    key: EventKeyView,
    name: Seq<char>,
    times: Seq<u64>,
    ttl: u64,
)
    requires
        times.len() >= 1,
        times.len() <= i32::MAX,
        !evict(m, times[0], ttl).contains_key(key),
        forall|i: int| 0 <= i < times.len() - 1 ==> elapsed(#[trigger] times[i + 1], times[i]) < ttl,
    ensures
        emissions(m, key, name, times, ttl).contains_key(key),
        emissions(m, key, name, times, ttl)[key].count == times.len(),
        emissions(m, key, name, times, ttl)[key].event_name == name,
        emissions(m, key, name, times, ttl)[key].last_emitted == times.last(),
        forall|k: int|
            1 <= k < times.len() ==> evict(
                #[trigger] emissions(m, key, name, times.take(k), ttl),
                times[k],
                ttl,
            ).contains_key(key) && evict(emissions(m, key, name, times.take(k), ttl), times[k], ttl)[key].count
                == k,
    decreases times.len(),
{
    let n = times.len();
    if n == 1 {
        assert(times.drop_last() =~= Seq::<u64>::empty());
    } else {
        let prev = times.drop_last();
        assert forall|i: int| 0 <= i < prev.len() - 1 implies elapsed(#[trigger] prev[i + 1], prev[i]) < ttl by {
            assert(prev[i + 1] == times[i + 1]);
        }
        law_repeated_emissions_count_up(m, key, name, prev, ttl);
        let i = n - 2;
        assert(elapsed(times[i + 1], times[i]) < ttl);
        assert(prev.last() == times[n - 2]);
        assert forall|k: int|
            1 <= k < times.len() implies evict(
            #[trigger] emissions(m, key, name, times.take(k), ttl),
            times[k],
            ttl,
        ).contains_key(key) && evict(emissions(m, key, name, times.take(k), ttl), times[k], ttl)[key].count
            == k by {
            if k < n - 1 {
                assert(times.take(k) =~= prev.take(k));
                assert(prev[k] == times[k]);
            } else {
                assert(times.take(k) =~= prev);
            }
        }
    }
}

/// An event whose key is not cached (never emitted, or forgotten after the window) is
/// emitted by creating a new Event.
pub proof fn law_unknown_key_creates(
    r: Result<EmitPlan, Error>,
    m: Map<EventKeyView, CachedEventView>,
    component: Seq<char>,
    api_version: Seq<char>,
    kind: Seq<char>,
    meta: ObjectMeta,
    event_type: EventType,
    reason: Seq<char>,
    message: Seq<char>,
    action: Option<Seq<char>>,
    now_micros: i64,
)
    requires
        emit_outcome(r, m, component, api_version, kind, meta, event_type, reason, message, action, now_micros),
        !m.contains_key(key_with(uid_text(meta), event_type, reason, action)),
    ensures
        r matches Ok(EmitPlan::Create { .. }),
{
}

/// Two events share a key exactly when they agree on the object's UID, the event type,
/// the reason text and the action; the message plays no part.
pub proof fn law_key_parts(
    u1: Seq<char>,
    t1: EventType,
    r1: Seq<char>,
    a1: Option<Seq<char>>,
    u2: Seq<char>,
    t2: EventType,
    r2: Seq<char>,
    a2: Option<Seq<char>>,
)
    ensures
        key_with(u1, t1, r1, a1) == key_with(u2, t2, r2, a2) <==> (u1 == u2 && t1 == t2 && r1 == r2
            && a1 == a2),
{
}

/// Every Event that a well-formed recorder remembers counts at least one emission.
pub proof fn law_cached_counts_positive(r: &EventRecorder)
    requires
        r.wf(),
    ensures
        counts_positive(r.cache()),
{
}

} // verus!
