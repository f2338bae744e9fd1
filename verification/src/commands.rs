//! The deferred command bus: structural edits enqueued by the simulation
//! passes and applied strictly after all passes of the tick have finished
//! iterating, in enqueue (FIFO) order. Commands are small tagged operations
//! parameterized by captured data, so the queue stays inspectable and no
//! closure captures live world state.

use vstd::prelude::*;

use crate::components::Transform;
use crate::ecs::Entity;

verus! {

/// A deferred structural edit, applied at tick end by the command flush.
#[derive(Clone, Copy, Debug, PartialEq, Eq, Structural)]
pub enum Command {
    /// Remove the idle marker of a bomb and insert the lit state with
    /// freshly started arm-delay and fuse timers (durations in
    /// milliseconds).
    SwapIdleToLit { entity: Entity, arm_delay: u64, fuse_time: u64 },
    /// Emit a fire-and-forget sound event on the audio sink.
    PlaySound { sound: u32, volume: u32 },
    /// Emit a camera-shake event of the given magnitude (in tenths) on the
    /// camera-effect sink.
    CameraShake { magnitude: u32 },
    /// Clear the hydrated flag of a placement marker, so the next hydration
    /// pass respawns a fresh instance there.
    ClearHydrated { marker: Entity },
    /// Destroy an entity.
    DespawnEntity { entity: Entity },
    /// Create a damage-region entity at a transform, sized and lived as
    /// given (lifetime in milliseconds).
    SpawnDamageRegion { transform: Transform, width: u64, height: u64, lifetime: u64 },
    /// Create a non-colliding cosmetic explosion entity at a transform,
    /// with its own frame-sequence animation and lifetime (milliseconds).
    SpawnExplosionVisual { transform: Transform, atlas: u32, frame_count: u32, fps: u32, lifetime: u64 },
}

/// A fire-and-forget audio event.
#[derive(Clone, Copy, Debug, PartialEq, Eq, Structural)]
pub struct AudioEvent {
    pub sound: u32,
    pub volume: u32,
}

} // verus!
