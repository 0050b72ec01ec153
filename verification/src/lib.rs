//! Click and double-click detection from raw mouse button transitions.
//!
//! Times are whole nanoseconds since the host started. A watcher remembers,
//! per button, when it was last pressed and when it was last clicked; the two
//! detectors turn transitions into clicks and clicks into double clicks.

pub mod button;
pub mod events;
pub mod laws;
pub mod model;
pub mod plugin;
pub mod timing;
pub mod watcher;
