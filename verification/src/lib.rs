//! Deterministic per-frame simulation core of a spawner-managed, stateful
//! hazard entity (a "kick bomb") inside an entity-component game simulation.
//!
//! The crate owns four pieces:
//! - a one-shot countdown [`timer::Timer`] advanced once per tick;
//! - a spawner/hydration manager that materializes runtime instances from
//!   static placement markers and tears them down for respawn;
//! - a timed hazard state machine (idle, lit, exploded) with physics-driven
//!   kick resolution;
//! - a deferred command bus, so that structural edits enqueued mid-iteration
//!   never invalidate the scan that produced them.
//!
//! State after each tick is a pure function of the previous state, the
//! elapsed time, and the queried collision world.

pub mod commands;
pub mod components;
pub mod ecs;
pub mod jellyfish;
pub mod kick_bomb;
pub mod laws;
pub mod loading;
pub mod script_info;
pub mod session;
pub mod timer;
pub mod ui;
pub mod utils;

pub use timer::Timer;
