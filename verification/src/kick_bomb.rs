//! The kick-bomb map element: its hydration pass and its idle and lit state
//! machine passes, each specified as a pure transformer of the session view.
//!
//! Hydration runs in the pre-update stage and materializes a runtime bomb
//! instance for every un-hydrated placement marker whose metadata resolves;
//! the idle and lit passes run in the post-update stage and enqueue all
//! structural edits on the command bus, never applying them mid-scan.

use vstd::prelude::*;

use crate::commands::{AudioEvent, Command};
use crate::components::{
    AnimatedSprite, AtlasSprite, DehydrateOutOfBounds, ElementHandle, ElementKind, ElementMeta,
    IdleKickBomb, Item, ItemGrab, ItemThrow, KickBombMeta, KinematicBody, LitKickBomb,
    MapElementHydrated, PlayerBodyAttachment, PlayerLayers, SpawnedEntities, Transform,
};
use crate::ecs::Entity;
use crate::session::{
    CollisionWorld, Contact, Session, SessionView, SystemId, TickContext, TickInput,
};

verus! {

/// Render depth the explosion transform is pinned to: on top of almost
/// everything.
pub const EXPLOSION_DEPTH: i64 = -10;

/// Fixed magnitude of the camera-shake event an explosion emits, in tenths.
pub const EXPLOSION_TRAUMA_TENTHS: u32 = 75;

/// A game with the kick-bomb element installed: its metadata schema is
/// registered and the shared asset server is initialized.
#[derive(Clone, Copy, Debug, PartialEq, Eq, Structural, Default)]
pub struct Game {
    pub kick_bomb_schema_registered: bool,
    pub asset_server_initialized: bool,
}

/// Register the kick-bomb metadata schema and initialize the shared asset
/// server resource.
pub fn game_plugin(game: &mut Game)
    ensures
        *final(game) == (Game { kick_bomb_schema_registered: true, asset_server_initialized: true }),
{
    game.kick_bomb_schema_registered = true;
    game.asset_server_initialized = true;
}

/// Register the kick-bomb systems on a session: hydration in the pre-update
/// stage, then the idle and lit passes in the post-update stage.
pub fn session_plugin(session: &mut Session)
    ensures
        final(session)@ == (SessionView {
            pre_update: old(session)@.pre_update.push(SystemId::Hydrate),
            post_update: old(session)@.post_update.push(SystemId::UpdateIdleKickBombs).push(
                SystemId::UpdateLitKickBombs,
            ),
            ..old(session)@
        }),
{
    session.pre_update.push(SystemId::Hydrate);
    session.post_update.push(SystemId::UpdateIdleKickBombs);
    session.post_update.push(SystemId::UpdateLitKickBombs);
}

/// Install the kick-bomb element on a session; identical to
/// [`session_plugin`] and kept under the name the element registry uses.
pub fn install(session: &mut Session)
    ensures
        final(session)@ == (SessionView {
            pre_update: old(session)@.pre_update.push(SystemId::Hydrate),
            post_update: old(session)@.post_update.push(SystemId::UpdateIdleKickBombs).push(
                SystemId::UpdateLitKickBombs,
            ),
            ..old(session)@
        }),
{
    session_plugin(session);
}

/// Whether `h` resolves, in the given asset table, to kick-bomb metadata.
pub open spec fn resolves_kick_bomb(assets: Map<int, ElementMeta>, h: ElementHandle) -> bool {
    assets.dom().contains(h.0 as int) && assets[h.0 as int].kind is KickBomb
}

/// The kick-bomb metadata a resolving handle refers to.
pub open spec fn kick_bomb_meta_of(assets: Map<int, ElementMeta>, h: ElementHandle) -> KickBombMeta {
    match assets[h.0 as int].kind {
        ElementKind::KickBomb(meta) => meta,
        ElementKind::Other => arbitrary(),
    }
}

/// A marker the hydration pass looks at: a live entity with an element
/// handle and a transform whose hydrated flag is not set.
pub open spec fn hydration_eligible(v: SessionView, m: int) -> bool {
    &&& v.is_alive(m)
    &&& v.element_handles.dom().contains(m)
    &&& !v.hydrated.dom().contains(m)
    &&& v.transforms.dom().contains(m)
}

/// An eligible marker whose metadata resolves to kick-bomb metadata; only
/// these are hydrated this tick, the others are silently retried next tick.
pub open spec fn hydration_resolves(v: SessionView, m: int) -> bool {
    hydration_eligible(v, m) && resolves_kick_bomb(v.assets, v.element_handles[m])
}

/// The kinematic body a freshly hydrated instance starts with: at rest,
/// with the metadata-configured collider, under session gravity.
pub open spec fn body_from_meta(meta: KickBombMeta, gravity: i64) -> KinematicBody {
    KinematicBody {
        velocity_x: 0,
        velocity_y: 0,
        diameter: meta.body_diameter,
        gravity,
        has_mass: true,
        has_friction: true,
        can_rotate: meta.can_rotate,
        bounciness: meta.bounciness,
        is_deactivated: false,
    }
}

/// Hydrating one marker `m`: the marker is flagged hydrated, and a fresh
/// runtime instance is created at the marker's transform with the item,
/// throw, grab, idle-state, sprite and kinematic-body components
/// parameterized from metadata, the resolved metadata by value, a
/// back-reference to `m`, and the hydrated flag; the spawner manager maps
/// `m` to the new instance.
pub open spec fn spec_hydrate_step(v: SessionView, m: int) -> SessionView {
    let handle = v.element_handles[m];
    let meta = kick_bomb_meta_of(v.assets, handle);
    let t = v.transforms[m];
    let i = v.alive.len() as int;
    let inst = Entity { idx: v.alive.len() as usize };
    SessionView {
        alive: v.alive.push(true),
        hydrated: v.hydrated.insert(m, MapElementHydrated).insert(i, MapElementHydrated),
        items: v.items.insert(i, Item),
        item_throws: v.item_throws.insert(
            i,
            ItemThrow { velocity: meta.throw_velocity, spin: meta.angular_velocity },
        ),
        item_grabs: v.item_grabs.insert(
            i,
            ItemGrab {
                fin_anim: meta.fin_anim,
                sync_animation: false,
                grab_offset_x: meta.grab_offset_x,
                grab_offset_y: meta.grab_offset_y,
            },
        ),
        idle_bombs: v.idle_bombs.insert(i, IdleKickBomb),
        atlas_sprites: v.atlas_sprites.insert(i, AtlasSprite { atlas: meta.atlas, flip_x: false }),
        respawn_points: v.respawn_points.insert(
            i,
            DehydrateOutOfBounds(Entity { idx: m as usize }),
        ),
        transforms: v.transforms.insert(i, t),
        element_handles: v.element_handles.insert(i, handle),
        animated_sprites: v.animated_sprites.insert(
            i,
            AnimatedSprite { frame_start: 0, frame_count: 0, fps: 0, repeat: false },
        ),
        bodies: v.bodies.insert(i, body_from_meta(meta, v.gravity)),
        bomb_metas: v.bomb_metas.insert(i, meta),
        spawned: v.spawned.insert(m, seq![inst]),
        ..v
    }
}

/// The session view after the hydration pass has looked at markers
/// `0 .. k`.
pub open spec fn spec_hydrate_upto(v: SessionView, k: nat) -> SessionView
    decreases k,
{
    if k == 0 {
        v
    } else {
        let prev = spec_hydrate_upto(v, (k - 1) as nat);
        if hydration_resolves(prev, k - 1) {
            spec_hydrate_step(prev, k - 1)
        } else {
            prev
        }
    }
}

/// The session view after one full hydration pass: every identifier that
/// was allocated when the pass started is looked at, in increasing order.
pub open spec fn spec_hydrate(v: SessionView) -> SessionView {
    spec_hydrate_upto(v, v.alive.len())
}

/// The spawner/hydration pass. For every un-hydrated placement marker whose
/// metadata resolves to kick-bomb metadata it creates one runtime instance
/// as [`spec_hydrate_step`] describes; a marker whose metadata has not
/// resolved yet is skipped and retried next tick, never an error. A marker
/// already hydrated is never re-processed.
pub fn hydrate(session: &mut Session)
    ensures
        final(session)@ == spec_hydrate(old(session)@),
{
    let ghost v0 = session@;
    let n = session.entities.len();
    for m_idx in 0..n
        invariant
            n == v0.alive.len(),
            session@ == spec_hydrate_upto(v0, m_idx as nat),
    {
        let ghost prev = session@;
        let m = Entity { idx: m_idx };
        if session.entities.is_alive(m) && session.element_handles.contains(m)
            && !session.hydrated.contains(m) {
            let handle = *session.element_handles.get(m).unwrap();
            if let Some(t_ref) = session.transforms.get(m) {
                let t = *t_ref;
                let mut resolved: Option<KickBombMeta> = None;
                if let Some(meta_ref) = session.assets.get_element(handle) {
                    if let ElementKind::KickBomb(meta) = meta_ref.kind {
                        resolved = Some(meta);
                    }
                }
                if let Some(meta) = resolved {
                    proof {
                        assert(hydration_resolves(prev, m_idx as int));
                        assert(meta == kick_bomb_meta_of(prev.assets, handle));
                    }
                    session.hydrated.insert(m, MapElementHydrated);
                    let inst = session.entities.create();
                    session.items.insert(inst, Item);
                    session.item_throws.insert(
                        inst,
                        ItemThrow { velocity: meta.throw_velocity, spin: meta.angular_velocity },
                    );
                    session.item_grabs.insert(
                        inst,
                        ItemGrab {
                            fin_anim: meta.fin_anim,
                            sync_animation: false,
                            grab_offset_x: meta.grab_offset_x,
                            grab_offset_y: meta.grab_offset_y,
                        },
                    );
                    session.idle_bombs.insert(inst, IdleKickBomb);
                    session.atlas_sprites.insert(
                        inst,
                        AtlasSprite { atlas: meta.atlas, flip_x: false },
                    );
                    session.respawn_points.insert(inst, DehydrateOutOfBounds(m));
                    session.transforms.insert(inst, t);
                    session.element_handles.insert(inst, handle);
                    session.hydrated.insert(inst, MapElementHydrated);
                    session.animated_sprites.insert(
                        inst,
                        AnimatedSprite { frame_start: 0, frame_count: 0, fps: 0, repeat: false },
                    );
                    let gravity = session.gravity;
                    session.bodies.insert(
                        inst,
                        KinematicBody {
                            velocity_x: 0,
                            velocity_y: 0,
                            diameter: meta.body_diameter,
                            gravity,
                            has_mass: true,
                            has_friction: true,
                            can_rotate: meta.can_rotate,
                            bounciness: meta.bounciness,
                            is_deactivated: false,
                        },
                    );
                    session.bomb_metas.insert(inst, meta);
                    let mut insts: Vec<Entity> = Vec::new();
                    insts.push(inst);
                    proof {
                        assert(insts@ =~= seq![inst]);
                    }
                    session.spawner_manager.insert(m, SpawnedEntities { entities: insts });
                    proof {
                        assert(session@.spawned =~~= spec_hydrate_step(prev, m_idx as int).spawned);
                        assert(session@ =~~= spec_hydrate_step(prev, m_idx as int));
                    }
                }
            }
        }
        proof {
            assert(session@ == spec_hydrate_upto(v0, (m_idx + 1) as nat));
        }
    }
}

/// The animation a used idle bomb switches to: the burning loop.
pub open spec fn spec_burning_animation() -> AnimatedSprite {
    AnimatedSprite { frame_start: 3, frame_count: 3, fps: 8, repeat: true }
}

/// An entity the idle pass looks at: a live entity carrying the idle marker
/// and its resolved metadata.
pub open spec fn idle_eligible(v: SessionView, e: int) -> bool {
    &&& v.is_alive(e)
    &&& v.idle_bombs.dom().contains(e)
    &&& v.bomb_metas.dom().contains(e)
}

/// The idle pass at one entity: if the bomb received a "used" trigger this
/// tick, the arming sound plays, the trigger is cleared, the sprite switches
/// to the burning loop, and a deferred swap from idle to lit (with freshly
/// started timers from metadata) is enqueued; otherwise nothing changes.
pub open spec fn spec_idle_step(v: SessionView, e: int) -> SessionView {
    if idle_eligible(v, e) && v.items_used.dom().contains(e) {
        let meta = v.bomb_metas[e];
        SessionView {
            audio_events: v.audio_events.push(
                AudioEvent { sound: meta.fuse_sound, volume: meta.fuse_sound_volume },
            ),
            items_used: v.items_used.remove(e),
            animated_sprites: v.animated_sprites.insert(e, spec_burning_animation()),
            commands: v.commands.push(
                Command::SwapIdleToLit {
                    entity: Entity { idx: e as usize },
                    arm_delay: meta.arm_delay,
                    fuse_time: meta.fuse_time,
                },
            ),
            ..v
        }
    } else {
        v
    }
}

/// The session view after the idle pass has looked at entities `0 .. k`.
pub open spec fn spec_idle_upto(v: SessionView, k: nat) -> SessionView
    decreases k,
{
    if k == 0 {
        v
    } else {
        spec_idle_step(spec_idle_upto(v, (k - 1) as nat), k - 1)
    }
}

/// The session view after one full idle pass.
pub open spec fn spec_update_idle(v: SessionView) -> SessionView {
    spec_idle_upto(v, v.alive.len())
}

/// The idle pass. For every live idle bomb that received a "used" trigger
/// this tick it acts as [`spec_idle_step`] describes. The swap from idle to
/// lit is deferred on the command bus because the pass iterates the idle
/// component set: removing mid-scan would invalidate the iteration.
///
/// An idle instance that has lost its resolved metadata indicates a
/// corrupted simulation state: unlike hydration's skip-and-retry,
/// processing of that entity is abandoned for the tick.
pub fn update_idle_kick_bombs(session: &mut Session)
    ensures
        final(session)@ == spec_update_idle(old(session)@),
{
    let ghost v0 = session@;
    let n = session.entities.len();
    for e_idx in 0..n
        invariant
            n == v0.alive.len(),
            session@ == spec_idle_upto(v0, e_idx as nat),
    {
        let ghost prev = session@;
        let e = Entity { idx: e_idx };
        if session.entities.is_alive(e) && session.idle_bombs.contains(e) {
            if let Some(meta_ref) = session.bomb_metas.get(e) {
                let meta = *meta_ref;
                if session.items_used.contains(e) {
                    session.audio_events.push(
                        AudioEvent { sound: meta.fuse_sound, volume: meta.fuse_sound_volume },
                    );
                    session.items_used.remove(e);
                    session.animated_sprites.insert(
                        e,
                        AnimatedSprite { frame_start: 3, frame_count: 3, fps: 8, repeat: true },
                    );
                    session.commands.push(
                        Command::SwapIdleToLit {
                            entity: e,
                            arm_delay: meta.arm_delay,
                            fuse_time: meta.fuse_time,
                        },
                    );
                }
            }
        }
        proof {
            assert(session@ =~~= spec_idle_upto(v0, (e_idx + 1) as nat));
        }
    }
}

/// Whether player `p` is a live player whose inventory holds item `e`.
pub open spec fn holder_match(v: SessionView, e: int, p: int) -> bool {
    &&& v.is_alive(p)
    &&& v.player_indexes.dom().contains(p)
    &&& v.inventories.dom().contains(p)
    &&& v.inventories[p].0 == Some(Entity { idx: e as usize })
}

/// The first player, from identifier `p` upward, holding item `e`.
pub open spec fn spec_find_holder_from(v: SessionView, e: int, p: int) -> Option<int>
    decreases v.alive.len() - p,
{
    if p < 0 || p >= v.alive.len() {
        None
    } else if holder_match(v, e, p) {
        Some(p)
    } else {
        spec_find_holder_from(v, e, p + 1)
    }
}

/// The player holding item `e`, if any: the live player with the lowest
/// identifier whose inventory is `e`.
pub open spec fn spec_find_holder(v: SessionView, e: int) -> Option<int> {
    spec_find_holder_from(v, e, 0)
}

/// The player holding item `e`, if any.
fn find_holder(session: &Session, e: Entity) -> (r: Option<Entity>)
    ensures
        match r {
            Some(p) => spec_find_holder(session@, e.idx as int) == Some(p.idx as int),
            None => spec_find_holder(session@, e.idx as int) is None,
        },
{
    let n = session.entities.len();
    for p_idx in 0..n
        invariant
            n == session@.alive.len(),
            spec_find_holder(session@, e.idx as int) == spec_find_holder_from(
                session@,
                e.idx as int,
                p_idx as int,
            ),
    {
        let p = Entity { idx: p_idx };
        let held_item_matches = match session.inventories.get(p) {
            Some(inv) => match inv.0 {
                Some(h) => h.idx == e.idx,
                None => false,
            },
            None => false,
        };
        if session.entities.is_alive(p) && session.player_indexes.contains(p)
            && held_item_matches {
            proof {
                assert(holder_match(session@, e.idx as int, p_idx as int));
            }
            return Some(p);
        }
        proof {
            assert(!holder_match(session@, e.idx as int, p_idx as int));
        }
    }
    None
}

/// Whether contact `c` is a kick-eligible touch of `e`: the contact's actor
/// is `e` and the touched entity is a player that is not invincible.
pub open spec fn touch_match(v: SessionView, c: Contact, e: int) -> bool {
    &&& c.actor.idx == e
    &&& !v.invincibles.dom().contains(c.other.idx as int)
    &&& v.player_indexes.dom().contains(c.other.idx as int)
}

/// The first kick-eligible touching player of `e` from contact index `i`
/// upward, in collision-query order.
pub open spec fn spec_find_touching_player_from(
    v: SessionView,
    contacts: Seq<Contact>,
    e: int,
    i: int,
) -> Option<int>
    decreases contacts.len() - i,
{
    if i < 0 || i >= contacts.len() {
        None
    } else if touch_match(v, contacts[i], e) {
        Some(contacts[i].other.idx as int)
    } else {
        spec_find_touching_player_from(v, contacts, e, i + 1)
    }
}

/// The first kick-eligible touching player of `e`, in collision-query
/// order.
pub open spec fn spec_find_touching_player(v: SessionView, contacts: Seq<Contact>, e: int) -> Option<
    int,
> {
    spec_find_touching_player_from(v, contacts, e, 0)
}

/// The first non-invincible player the collision world reports touching
/// `e`, if any.
fn find_touching_player(session: &Session, collision_world: &CollisionWorld, e: Entity) -> (r:
    Option<Entity>)
    ensures
        match r {
            Some(p) => spec_find_touching_player(session@, collision_world@, e.idx as int) == Some(
                p.idx as int,
            ),
            None => spec_find_touching_player(session@, collision_world@, e.idx as int) is None,
        },
{
    let n = collision_world.contacts.len();
    for i in 0..n
        invariant
            n == collision_world@.len(),
            spec_find_touching_player(session@, collision_world@, e.idx as int)
                == spec_find_touching_player_from(session@, collision_world@, e.idx as int, i as int),
    {
        let c = collision_world.contacts[i];
        if c.actor.idx == e.idx && !session.invincibles.contains(c.other)
            && session.player_indexes.contains(c.other) {
            proof {
                assert(touch_match(session@, collision_world@[i as int], e.idx as int));
            }
            return Some(c.other);
        }
        proof {
            assert(!touch_match(session@, collision_world@[i as int], e.idx as int));
        }
    }
    None
}

/// An entity the lit pass looks at: live, lit, with its resolved metadata,
/// its spawner back-reference, a body and a transform.
pub open spec fn lit_eligible(v: SessionView, e: int) -> bool {
    &&& v.is_alive(e)
    &&& v.lit_bombs.dom().contains(e)
    &&& v.bomb_metas.dom().contains(e)
    &&& v.respawn_points.dom().contains(e)
    &&& v.bodies.dom().contains(e)
    &&& v.transforms.dom().contains(e)
}

/// The lit state of `e` after both countdown clocks advance by the elapsed
/// tick time — every tick, regardless of which physical context is taken.
pub open spec fn spec_ticked(v: SessionView, e: int, delta: u64) -> LitKickBomb {
    LitKickBomb {
        arm_delay: v.lit_bombs[e].arm_delay.spec_tick(delta),
        fuse_time: v.lit_bombs[e].fuse_time.spec_tick(delta),
    }
}

/// The held context: the body is deactivated (no physics integration while
/// held), the holder's fin layer shows the fuse animation, and a body
/// attachment links the item to the holder at the configured offset.
pub open spec fn spec_held_update(v: SessionView, e: int, p: int, meta: KickBombMeta) -> SessionView {
    let v_layers = if v.player_layers.dom().contains(p) {
        SessionView {
            player_layers: v.player_layers.insert(p, PlayerLayers { fin_anim: meta.fin_anim }),
            ..v
        }
    } else {
        v
    };
    let body = v_layers.bodies[e];
    SessionView {
        bodies: v_layers.bodies.insert(e, KinematicBody { is_deactivated: true, ..body }),
        attachments: v_layers.attachments.insert(
            e,
            PlayerBodyAttachment {
                player: Entity { idx: p as usize },
                sync_color: false,
                sync_animation: false,
                head: false,
                offset_x: meta.grab_offset_x,
                offset_y: meta.grab_offset_y,
                offset_z: 1,
            },
        ),
        ..v_layers
    }
}

/// The grounded kick resolution against touching player `p`: a stationary
/// bomb is launched at the configured kick velocity, mirrored on x away
/// from the kicker's facing; a moving bomb whose kicker stands behind it
/// (by facing comparison) is re-kicked in the kicker's facing direction;
/// otherwise nothing moves.
pub open spec fn spec_kick_update(v: SessionView, e: int, p: int, meta: KickBombMeta) -> SessionView {
    if !(v.atlas_sprites.dom().contains(p) && v.transforms.dom().contains(p)) {
        v
    } else {
        let body = v.bodies[e];
        let flip = v.atlas_sprites[p].flip_x;
        let standing_left = v.transforms[p].x <= v.transforms[e].x;
        let kx = meta.kick_velocity_x as i64;
        let ky = meta.kick_velocity_y as i64;
        let neg_kx = (-(kx as int)) as i64;
        if body.velocity_x == 0 {
            let vx = if flip {
                neg_kx
            } else {
                kx
            };
            SessionView {
                bodies: v.bodies.insert(e, KinematicBody { velocity_x: vx, velocity_y: ky, ..body }),
                ..v
            }
        } else if standing_left && !flip {
            SessionView {
                bodies: v.bodies.insert(e, KinematicBody { velocity_x: kx, velocity_y: ky, ..body }),
                ..v
            }
        } else if !standing_left && flip {
            SessionView {
                bodies: v.bodies.insert(
                    e,
                    KinematicBody { velocity_x: neg_kx, velocity_y: ky, ..body },
                ),
                ..v
            }
        } else {
            v
        }
    }
}

/// Whether the kick path sets the explosion flag for `e` this tick: the
/// bomb rests on the ground touching an eligible player, neither the
/// stationary kick nor a re-kick applies, and the (already advanced) arm
/// delay has finished. While held, the kick path can never fire.
pub open spec fn spec_kick_path_explodes(
    v: SessionView,
    input: TickInput,
    e: int,
    lit1: LitKickBomb,
) -> bool {
    &&& spec_find_holder(v, e) is None
    &&& match spec_find_touching_player(v, input.contacts, e) {
        Some(p) => {
            &&& v.atlas_sprites.dom().contains(p)
            &&& v.transforms.dom().contains(p)
            &&& v.bodies[e].velocity_x != 0
            &&& !(v.transforms[p].x <= v.transforms[e].x && !v.atlas_sprites[p].flip_x)
            &&& !(!(v.transforms[p].x <= v.transforms[e].x) && v.atlas_sprites[p].flip_x)
            &&& lit1.arm_delay.spec_finished()
        },
        None => false,
    }
}

/// The transform an explosion is placed at: the bomb's last translation,
/// flattened to the identity rotation and pinned to the explosion render
/// depth.
pub open spec fn spec_explosion_transform(t: Transform) -> Transform {
    Transform { x: t.x, y: t.y, z: EXPLOSION_DEPTH, rotation: 0 }
}

/// The six deferred effects of an explosion, in enqueue order: play the
/// explosion sound, shake the camera, clear the owning marker's hydrated
/// flag (enabling respawn), destroy the bomb, spawn the damage region, and
/// spawn the cosmetic explosion.
pub open spec fn spec_explosion_commands(
    e: int,
    spawner: Entity,
    t: Transform,
    meta: KickBombMeta,
) -> Seq<Command> {
    seq![
        Command::PlaySound { sound: meta.explosion_sound, volume: meta.explosion_volume },
        Command::CameraShake { magnitude: EXPLOSION_TRAUMA_TENTHS },
        Command::ClearHydrated { marker: spawner },
        Command::DespawnEntity { entity: Entity { idx: e as usize } },
        Command::SpawnDamageRegion {
            transform: spec_explosion_transform(t),
            width: meta.damage_region_width,
            height: meta.damage_region_height,
            lifetime: meta.damage_region_lifetime,
        },
        Command::SpawnExplosionVisual {
            transform: spec_explosion_transform(t),
            atlas: meta.explosion_atlas,
            frame_count: meta.explosion_frames,
            fps: meta.explosion_fps,
            lifetime: meta.explosion_lifetime,
        },
    ]
}

/// Enqueue the explosion sequence of `e` on the command bus.
pub open spec fn spec_explosion(
    v: SessionView,
    e: int,
    spawner: Entity,
    meta: KickBombMeta,
) -> SessionView {
    SessionView {
        commands: v.commands + spec_explosion_commands(e, spawner, v.transforms[e], meta),
        ..v
    }
}

/// The lit pass at one entity: both clocks advance; exactly one of three
/// mutually exclusive physical contexts applies (held by a player; resting
/// on the ground touching an eligible player; neither); the bomb explodes
/// iff the advanced fuse has finished or the kick path fired.
pub open spec fn spec_lit_step(v: SessionView, input: TickInput, e: int) -> SessionView {
    if !lit_eligible(v, e) {
        v
    } else {
        let meta = v.bomb_metas[e];
        let spawner = v.respawn_points[e].0;
        let lit1 = spec_ticked(v, e, input.delta);
        let v1 = SessionView { lit_bombs: v.lit_bombs.insert(e, lit1), ..v };
        let vb = match spec_find_holder(v, e) {
            Some(p) => spec_held_update(v1, e, p, meta),
            None => match spec_find_touching_player(v, input.contacts, e) {
                Some(p) => spec_kick_update(v1, e, p, meta),
                None => v1,
            },
        };
        if lit1.fuse_time.spec_finished() || spec_kick_path_explodes(v, input, e, lit1) {
            spec_explosion(vb, e, spawner, meta)
        } else {
            vb
        }
    }
}

/// The session view after the lit pass has looked at entities `0 .. k`.
pub open spec fn spec_lit_upto(v: SessionView, input: TickInput, k: nat) -> SessionView
    decreases k,
{
    if k == 0 {
        v
    } else {
        spec_lit_step(spec_lit_upto(v, input, (k - 1) as nat), input, k - 1)
    }
}

/// The session view after one full lit pass.
pub open spec fn spec_update_lit(v: SessionView, input: TickInput) -> SessionView {
    spec_lit_upto(v, input, v.alive.len())
}

/// The lit pass: the hazard state machine on every live lit bomb, as
/// [`spec_lit_step`] describes. All structural effects of an explosion are
/// enqueued on the command bus, never applied synchronously.
///
/// A lit instance that has lost its resolved metadata or another required
/// component indicates a corrupted simulation state: unlike hydration's
/// skip-and-retry, processing of that entity is abandoned for the tick.
pub fn update_lit_kick_bombs(session: &mut Session, ctx: &TickContext)
    ensures
        final(session)@ == spec_update_lit(old(session)@, ctx@),
{
    let ghost v0 = session@;
    let n = session.entities.len();
    for e_idx in 0..n
        invariant
            n == v0.alive.len(),
            session@ == spec_lit_upto(v0, ctx@, e_idx as nat),
    {
        let ghost prev = session@;
        let e = Entity { idx: e_idx };
        if session.entities.is_alive(e) && session.lit_bombs.contains(e)
            && session.bomb_metas.contains(e) && session.respawn_points.contains(e)
            && session.bodies.contains(e) && session.transforms.contains(e) {
            let meta = *session.bomb_metas.get(e).unwrap();
            let spawner = session.respawn_points.get(e).unwrap().0;
            let holder = find_holder(session, e);
            let touching = find_touching_player(session, &ctx.collision_world, e);

            let mut lit = *session.lit_bombs.get(e).unwrap();
            lit.fuse_time.tick(ctx.delta);
            lit.arm_delay.tick(ctx.delta);
            session.lit_bombs.insert(e, lit);
            proof {
                assert(lit == spec_ticked(prev, e_idx as int, ctx@.delta));
            }

            let mut should_explode = false;
            match holder {
                Some(p) => {
                    if session.player_layers.contains(p) {
                        session.player_layers.insert(p, PlayerLayers { fin_anim: meta.fin_anim });
                    }
                    let body = *session.bodies.get(e).unwrap();
                    session.bodies.insert(e, KinematicBody { is_deactivated: true, ..body });
                    session.attachments.insert(
                        e,
                        PlayerBodyAttachment {
                            player: p,
                            sync_color: false,
                            sync_animation: false,
                            head: false,
                            offset_x: meta.grab_offset_x,
                            offset_y: meta.grab_offset_y,
                            offset_z: 1,
                        },
                    );
                },
                None => {
                    if let Some(p) = touching {
                        if session.atlas_sprites.contains(p) && session.transforms.contains(p) {
                            let body = *session.bodies.get(e).unwrap();
                            let t_e = *session.transforms.get(e).unwrap();
                            let flip = session.atlas_sprites.get(p).unwrap().flip_x;
                            let t_p = *session.transforms.get(p).unwrap();
                            let standing_left = t_p.x <= t_e.x;
                            let kx = meta.kick_velocity_x as i64;
                            let ky = meta.kick_velocity_y as i64;
                            if body.velocity_x == 0 {
                                let vx = if flip {
                                    -kx
                                } else {
                                    kx
                                };
                                session.bodies.insert(
                                    e,
                                    KinematicBody { velocity_x: vx, velocity_y: ky, ..body },
                                );
                            } else if standing_left && !flip {
                                session.bodies.insert(
                                    e,
                                    KinematicBody { velocity_x: kx, velocity_y: ky, ..body },
                                );
                            } else if !standing_left && flip {
                                session.bodies.insert(
                                    e,
                                    KinematicBody { velocity_x: -kx, velocity_y: ky, ..body },
                                );
                            } else if lit.arm_delay.finished() {
                                should_explode = true;
                            }
                        }
                    }
                },
            }

            if lit.fuse_time.finished() || should_explode {
                let t_e = *session.transforms.get(e).unwrap();
                let explosion_transform = Transform {
                    x: t_e.x,
                    y: t_e.y,
                    z: EXPLOSION_DEPTH,
                    rotation: 0,
                };
                session.commands.push(
                    Command::PlaySound {
                        sound: meta.explosion_sound,
                        volume: meta.explosion_volume,
                    },
                );
                session.commands.push(
                    Command::CameraShake { magnitude: EXPLOSION_TRAUMA_TENTHS },
                );
                session.commands.push(Command::ClearHydrated { marker: spawner });
                session.commands.push(Command::DespawnEntity { entity: e });
                session.commands.push(
                    Command::SpawnDamageRegion {
                        transform: explosion_transform,
                        width: meta.damage_region_width,
                        height: meta.damage_region_height,
                        lifetime: meta.damage_region_lifetime,
                    },
                );
                session.commands.push(
                    Command::SpawnExplosionVisual {
                        transform: explosion_transform,
                        atlas: meta.explosion_atlas,
                        frame_count: meta.explosion_frames,
                        fps: meta.explosion_fps,
                        lifetime: meta.explosion_lifetime,
                    },
                );
            }
            proof {
                assert(session@.commands =~= spec_lit_step(prev, ctx@, e_idx as int).commands);
                assert(session@ =~~= spec_lit_step(prev, ctx@, e_idx as int));
            }
        }
        proof {
            assert(session@ =~~= spec_lit_upto(v0, ctx@, (e_idx + 1) as nat));
        }
    }
}

} // verus!
