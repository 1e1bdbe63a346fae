//! Kubernetes event emission for operators.
//!
//! Events are observability only and never fail reconciliation. The first
//! occurrence of an event creates a new Event object; later identical events
//! (same object UID, type, reason and action) within the cache window increment
//! the series count of the existing Event instead.

pub mod note;
pub mod recorder;
pub mod types;

pub use recorder::EmitPlan;
pub use recorder::EventRecorder;
pub use types::EventData;
pub use types::EventType;
pub use types::Reason;

use vstd::prelude::*;

verus! {

} // verus!
