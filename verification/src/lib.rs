//! Building blocks for Kubernetes operators: event emission with deduplication,
//! resource metadata checks, status helpers and the library's error type.

pub mod error;
pub mod events;
pub mod reconcile;
pub mod resource;
pub mod status;

pub use error::Error;
pub use error::FinalizerError;
pub use error::FinalizerFailure;
pub use events::recorder::EmitPlan;
pub use events::recorder::EventKey;
pub use events::recorder::EventRecorder;
pub use events::types::EventData;
pub use events::types::EventType;
pub use events::types::Reason;
pub use resource::ObjectMeta;
pub use resource::TryResource;
pub use status::AsStatusError;
pub use status::ObserveGeneration;
pub use status::WithStatusError;

use vstd::prelude::*;

verus! {

} // verus!
