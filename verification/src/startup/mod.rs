//! Orchestration of startup and shutdown.
pub mod orchestrator;

pub use orchestrator::{Startup, StartupView};
