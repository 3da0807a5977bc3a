//! Helpers for unit tests of bevy applications: build the stage that runs
//! systems once against a world outside of any schedule, and drain a typed
//! event queue into a `Vec`.
mod ecs;
pub mod events;
pub mod systems;

pub use events::{collect_events, events_or_missing, EventError};
pub use systems::{batch_stage, stage_of_all, stage_of_one};
