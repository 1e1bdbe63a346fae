//! Event data handed to an event recorder.

use vstd::prelude::*;

verus! {

/// Type of a Kubernetes event.
#[derive(Debug, Clone, Copy, PartialEq, Eq, Structural)]
pub enum EventType {
    /// Informational messages about successful operations.
    Normal,
    /// Errors, failures or issues that need attention.
    Warning,
}

/// The text under which an event type is reported to Kubernetes.
pub open spec fn event_type_text(t: EventType) -> Seq<char> {
    match t {
        EventType::Normal => seq!['N', 'o', 'r', 'm', 'a', 'l'],
        EventType::Warning => seq!['W', 'a', 'r', 'n', 'i', 'n', 'g'],
    }
}

impl EventType {
    /// The variant's name, as Kubernetes expects it in the `type` field.
    pub fn as_str(&self) -> (s: &'static str)
        ensures
            s@ == event_type_text(*self),
    {
        match self {
            EventType::Normal => {
                let s = "Normal";
                proof {
                    reveal_strlit("Normal");
                }
                s
            },
            EventType::Warning => {
                let s = "Warning";
                proof {
                    reveal_strlit("Warning");
                }
                s
            },
        }
    }
}

/// A domain-specific event reason.
///
/// Implement this for your own reason enums; reasons should follow the Kubernetes
/// convention of CamelCase names. `as_str` gives the text that is reported.
///
/// An implementor that is verified may state what `as_str` returns by defining `text`
/// and setting `obeys_reason_spec` to `true`; the library's contracts then speak of that
/// text. Without it they promise nothing about the reason's text.
pub trait Reason: Sized {
    /// Whether `as_str` returns `text`.
    open spec fn obeys_reason_spec() -> bool {
        false
    }

    /// The text of this reason.
    open spec fn text(&self) -> Seq<char> {
        Seq::empty()
    }

    /// Returns the text of this reason.
    fn as_str(&self) -> (s: &str)
        ensures
            Self::obeys_reason_spec() ==> s@ == self.text(),
    ;
}

/// Data describing one Kubernetes event, generic over the reason type.
#[derive(Debug)]
pub struct EventData<R: Reason> {
    pub type_: EventType,
    pub reason: R,
    pub message: String,
    pub action: Option<String>,
}

impl<R: Reason> EventData<R> {
    /// Creates a Normal event with no action.
    pub fn normal(reason: R, message: &str) -> (e: Self)
        ensures
            e.type_ == EventType::Normal,
            e.reason == reason,
            e.message@ == message@,
            e.action.is_none(),
    {
        EventData { type_: EventType::Normal, reason, message: message.to_owned(), action: None }
    }

    /// Creates a Warning event with no action.
    pub fn warning(reason: R, message: &str) -> (e: Self)
        ensures
            e.type_ == EventType::Warning,
            e.reason == reason,
            e.message@ == message@,
            e.action.is_none(),
    {
        EventData { type_: EventType::Warning, reason, message: message.to_owned(), action: None }
    }

    /// Sets the action of the event, keeping everything else.
    pub fn with_action(self, action: &str) -> (e: Self)
        ensures
            e.type_ == self.type_,
            e.reason == self.reason,
            e.message == self.message,
            e.action matches Some(a) && a@ == action@,
    {
        EventData { action: Some(action.to_owned()), ..self }
    }
}

} // verus!
