//! Liveness and readiness of a service.
pub mod state;

pub use state::{reason_views, DegradationReason, HealthState, HealthView, ReasonView};
