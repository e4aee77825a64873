//! A counter actor: a small durable state cell, the typed request with which
//! the actor registers itself with a metrics tracker, and the reading of what
//! comes back from that call.
//!
//! The library decides and computes; it performs no call, and reads and
//! writes no storage. Its host hands it what was loaded or received, and
//! carries out what it returns.

pub mod actor;
pub mod counter;
pub mod envelope;
pub mod identity;
pub mod natural;
pub mod response;

pub use actor::Actor;
pub use envelope::Action;
pub use envelope::AttributeDescription;
pub use envelope::Frequency;
pub use envelope::Period;
pub use envelope::TrackerRequest;
pub use response::MetricsError;
pub use response::MetricsResponse;
