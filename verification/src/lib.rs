//! A minimal real-time "flowmap" water-surface renderer core.
//!
//! The library holds the engine logic: texture ingestion, capability-tiered
//! shader source selection, the fixed quad geometry, the named-slot parameter
//! binding, the dual-phase animation clock, and the per-frame render-loop
//! state machine with input-driven termination.  Window creation, event
//! polling and the graphics device itself are external collaborators: the
//! surrounding application drives them and feeds this library plain values.

pub mod clock;
pub mod drawable;
pub mod error;
pub mod geometry;
pub mod render_loop;
pub mod shader;
pub mod texture;
