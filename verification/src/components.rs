//! Component types of the simulation. Positions, velocities and offsets are
//! fixed-point integers in world units; durations are in milliseconds;
//! sounds, atlases and animation names are stable asset handles.

use vstd::prelude::*;

use crate::ecs::Entity;
use crate::timer::Timer;

verus! {

/// A spatial transform: translation and a rotation angle. A rotation of
/// zero is the identity rotation.
#[derive(Clone, Copy, Debug, PartialEq, Eq, Structural)]
pub struct Transform {
    pub x: i64,
    pub y: i64,
    pub z: i64,
    pub rotation: i64,
}

/// Physical simulation state of an entity.
#[derive(Clone, Copy, Debug, PartialEq, Eq, Structural)]
pub struct KinematicBody {
    pub velocity_x: i64,
    pub velocity_y: i64,
    /// Diameter of the circular collider shape.
    pub diameter: u64,
    /// Downward acceleration applied by the physics integrator.
    pub gravity: i64,
    pub has_mass: bool,
    pub has_friction: bool,
    pub can_rotate: bool,
    pub bounciness: i64,
    /// While true (an item held by a player), no physics integration runs.
    pub is_deactivated: bool,
}

/// Marks a placement marker, or a runtime instance, as hydrated: exactly one
/// live runtime instance exists for a marker iff the marker carries this.
#[derive(Clone, Copy, Debug, PartialEq, Eq, Structural)]
pub struct MapElementHydrated;

/// A stable handle to the map-element metadata asset an entity was placed
/// from.
#[derive(Clone, Copy, Debug, PartialEq, Eq, Structural)]
pub struct ElementHandle(pub u32);

/// Marks a runtime kick bomb that is unlit: it can only be picked up.
#[derive(Clone, Copy, Debug, PartialEq, Eq, Structural, Default)]
pub struct IdleKickBomb;

/// Marks a runtime kick bomb that is armed and counting down.
#[derive(Clone, Copy, Debug, PartialEq, Eq, Structural)]
pub struct LitKickBomb {
    /// Delay before a kick can detonate the bomb.
    pub arm_delay: Timer,
    /// Time before the bomb detonates on its own.
    pub fuse_time: Timer,
}

/// Marks an entity as a pickable item.
#[derive(Clone, Copy, Debug, PartialEq, Eq, Structural)]
pub struct Item;

/// How an item behaves when thrown.
#[derive(Clone, Copy, Debug, PartialEq, Eq, Structural)]
pub struct ItemThrow {
    pub velocity: i64,
    pub spin: i64,
}

/// How an item behaves while grabbed.
#[derive(Clone, Copy, Debug, PartialEq, Eq, Structural)]
pub struct ItemGrab {
    pub fin_anim: u32,
    pub sync_animation: bool,
    pub grab_offset_x: i64,
    pub grab_offset_y: i64,
}

/// Marks an item as having received a "used" trigger this tick.
#[derive(Clone, Copy, Debug, PartialEq, Eq, Structural)]
pub struct ItemUsed;

/// A sprite drawn from a texture atlas.
#[derive(Clone, Copy, Debug, PartialEq, Eq, Structural)]
pub struct AtlasSprite {
    pub atlas: u32,
    pub flip_x: bool,
}

/// A contiguous range of atlas frames played as an animation.
#[derive(Clone, Copy, Debug, PartialEq, Eq, Structural, Default)]
pub struct AnimatedSprite {
    pub frame_start: u32,
    pub frame_count: u32,
    pub fps: u32,
    pub repeat: bool,
}

/// Back-reference from a runtime instance to the placement marker that
/// spawned it, used to dehydrate the marker when the instance is destroyed.
#[derive(Clone, Copy, Debug, PartialEq, Eq, Structural)]
pub struct DehydrateOutOfBounds(pub Entity);

/// The player index of a player entity.
#[derive(Clone, Copy, Debug, PartialEq, Eq, Structural)]
pub struct PlayerIdx(pub u32);

/// Marks a player as currently invincible (excluded from kick resolution).
#[derive(Clone, Copy, Debug, PartialEq, Eq, Structural)]
pub struct Invincibility;

/// The visual layers of a player; only the fin animation is driven from
/// this core.
#[derive(Clone, Copy, Debug, PartialEq, Eq, Structural)]
pub struct PlayerLayers {
    pub fin_anim: u32,
}

/// The item a player currently holds, if any.
#[derive(Clone, Copy, Debug, PartialEq, Eq, Structural)]
pub struct Inventory(pub Option<Entity>);

/// Link from a held item to the player holding it, at a render offset.
#[derive(Clone, Copy, Debug, PartialEq, Eq, Structural)]
pub struct PlayerBodyAttachment {
    pub player: Entity,
    pub sync_color: bool,
    pub sync_animation: bool,
    pub head: bool,
    pub offset_x: i64,
    pub offset_y: i64,
    pub offset_z: i64,
}

/// A transient region that damages overlapping players.
#[derive(Clone, Copy, Debug, PartialEq, Eq, Structural)]
pub struct DamageRegion {
    pub width: u64,
    pub height: u64,
}

/// A countdown after which a transient entity self-expires, in
/// milliseconds.
#[derive(Clone, Copy, Debug, PartialEq, Eq, Structural)]
pub struct Lifetime(pub u64);

/// A camera entity's projection state.
#[derive(Clone, Copy, Debug, PartialEq, Eq, Structural)]
pub struct Camera {
    /// Orthographic projection scale; 1 is the default scale.
    pub scale: i64,
    /// Whether a custom viewport is set (cleared on world reset).
    pub custom_viewport: bool,
}

/// Bookkeeping entry of the spawner manager: the set of runtime instances a
/// placement marker has spawned.
#[derive(Clone, Debug)]
pub struct SpawnedEntities {
    pub entities: Vec<Entity>,
}

/// Metadata of the kick-bomb map element, resolved from the element asset
/// once at hydration and stored by value on the runtime instance.
#[derive(Clone, Copy, Debug, PartialEq, Eq, Structural)]
pub struct KickBombMeta {
    pub body_diameter: u64,
    pub fin_anim: u32,
    pub grab_offset_x: i64,
    pub grab_offset_y: i64,
    pub damage_region_width: u64,
    pub damage_region_height: u64,
    /// Lifetime of the damage region, in milliseconds.
    pub damage_region_lifetime: u64,
    pub kick_velocity_x: i32,
    pub kick_velocity_y: i32,
    pub throw_velocity: i64,
    /// Lifetime of the cosmetic explosion entity, in milliseconds.
    pub explosion_lifetime: u64,
    pub explosion_frames: u32,
    pub explosion_fps: u32,
    pub explosion_sound: u32,
    pub explosion_volume: u32,
    pub fuse_sound: u32,
    pub fuse_sound_volume: u32,
    /// Time before the bomb explodes once lit, in milliseconds.
    pub fuse_time: u64,
    pub can_rotate: bool,
    pub atlas: u32,
    pub explosion_atlas: u32,
    pub bounciness: i64,
    pub angular_velocity: i64,
    /// Delay before a kick can detonate the bomb, in milliseconds.
    pub arm_delay: u64,
}

/// The element kinds this core distinguishes. Metadata is matched once, at
/// hydration time.
#[derive(Clone, Copy, Debug, PartialEq, Eq, Structural)]
pub enum ElementKind {
    KickBomb(KickBombMeta),
    Other,
}

/// A map-element metadata asset.
#[derive(Clone, Copy, Debug, PartialEq, Eq, Structural)]
pub struct ElementMeta {
    pub kind: ElementKind,
}

} // verus!
