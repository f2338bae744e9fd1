//! The simulation session: the entity registry, one component store per
//! component type, the asset server, the deferred command bus, the audio and
//! camera-effect event sinks, and the registered system stages.
//!
//! The session's view is a ghost [`SessionView`] over which every pass is
//! specified as a pure state transformer.

use vstd::prelude::*;

use crate::commands::{AudioEvent, Command};
use crate::components::{
    AnimatedSprite, AtlasSprite, Camera, DamageRegion, DehydrateOutOfBounds, ElementHandle,
    ElementMeta, IdleKickBomb, Invincibility, Inventory, Item, ItemGrab, ItemThrow, ItemUsed,
    KickBombMeta, KinematicBody, Lifetime, LitKickBomb, MapElementHydrated, PlayerBodyAttachment,
    PlayerIdx, PlayerLayers, SpawnedEntities, Transform,
};
use crate::ecs::{Entities, Entity, Store};
use crate::timer::Timer;

verus! {

/// Identifier of a system registered on a session stage. The tick runner
/// dispatches on it, in registration order.
#[derive(Clone, Copy, Debug, PartialEq, Eq, Structural)]
pub enum SystemId {
    Hydrate,
    UpdateIdleKickBombs,
    UpdateLitKickBombs,
}

/// One overlap reported by the collision world: `actor` touches `other`.
#[derive(Clone, Copy, Debug, PartialEq, Eq, Structural)]
pub struct Contact {
    pub actor: Entity,
    pub other: Entity,
}

/// The queried collision world for one tick: the overlap list, in query
/// order. Collision queries are total functions over this data.
pub struct CollisionWorld {
    pub contacts: Vec<Contact>,
}

impl View for CollisionWorld {
    type V = Seq<Contact>;

    open spec fn view(&self) -> Seq<Contact> {
        self.contacts@
    }
}

/// Per-tick input handed to the simulation: the elapsed time and the
/// queried collision world.
pub struct TickContext {
    /// Elapsed wall time of this tick, in milliseconds.
    pub delta: u64,
    pub collision_world: CollisionWorld,
}

/// Ghost view of a [`TickContext`].
#[verifier::ext_equal]
pub ghost struct TickInput {
    pub delta: u64,
    pub contacts: Seq<Contact>,
}

impl View for TickContext {
    type V = TickInput;

    open spec fn view(&self) -> TickInput {
        TickInput { delta: self.delta, contacts: self.collision_world@ }
    }
}

/// The asset server: element metadata assets by stable handle. Assets may
/// legitimately be missing while they stream in.
pub struct AssetServer {
    pub elements: Store<ElementMeta>,
}

impl View for AssetServer {
    type V = Map<int, ElementMeta>;

    open spec fn view(&self) -> Map<int, ElementMeta> {
        self.elements@
    }
}

impl AssetServer {
    /// An asset server with nothing loaded yet.
    pub fn new() -> (r: AssetServer)
        ensures
            r@ == Map::<int, ElementMeta>::empty(),
    {
        AssetServer { elements: Store::new() }
    }

    /// Load (or replace) the element asset behind `handle`.
    pub fn insert_element(&mut self, handle: ElementHandle, meta: ElementMeta)
        ensures
            final(self)@ == old(self)@.insert(handle.0 as int, meta),
    {
        self.elements.insert(Entity { idx: handle.0 as usize }, meta);
    }

    /// The element asset behind `handle`, if it has resolved.
    pub fn get_element(&self, handle: ElementHandle) -> (r: Option<&ElementMeta>)
        ensures
            match r {
                Some(m) => self@.dom().contains(handle.0 as int) && *m == self@[handle.0 as int],
                None => !self@.dom().contains(handle.0 as int),
            },
    {
        self.elements.get(Entity { idx: handle.0 as usize })
    }
}

/// Ghost view of a whole [`Session`]: the liveness flags by entity
/// identifier, one partial map per component store, the loaded assets, the
/// pending commands, the event sinks, and the registered stages.
#[verifier::ext_equal]
pub ghost struct SessionView {
    pub alive: Seq<bool>,
    pub assets: Map<int, ElementMeta>,
    pub element_handles: Map<int, ElementHandle>,
    pub hydrated: Map<int, MapElementHydrated>,
    pub transforms: Map<int, Transform>,
    pub bodies: Map<int, KinematicBody>,
    pub idle_bombs: Map<int, IdleKickBomb>,
    pub lit_bombs: Map<int, LitKickBomb>,
    pub bomb_metas: Map<int, KickBombMeta>,
    pub items: Map<int, Item>,
    pub item_throws: Map<int, ItemThrow>,
    pub item_grabs: Map<int, ItemGrab>,
    pub items_used: Map<int, ItemUsed>,
    pub atlas_sprites: Map<int, AtlasSprite>,
    pub animated_sprites: Map<int, AnimatedSprite>,
    pub respawn_points: Map<int, DehydrateOutOfBounds>,
    pub player_indexes: Map<int, PlayerIdx>,
    pub inventories: Map<int, Inventory>,
    pub invincibles: Map<int, Invincibility>,
    pub player_layers: Map<int, PlayerLayers>,
    pub attachments: Map<int, PlayerBodyAttachment>,
    pub damage_regions: Map<int, DamageRegion>,
    pub lifetimes: Map<int, Lifetime>,
    pub cameras: Map<int, Camera>,
    pub spawned: Map<int, Seq<Entity>>,
    pub commands: Seq<Command>,
    pub audio_events: Seq<AudioEvent>,
    pub trauma_events: Seq<u32>,
    pub pre_update: Seq<SystemId>,
    pub post_update: Seq<SystemId>,
    pub gravity: i64,
}

/// The simulation session.
pub struct Session {
    pub entities: Entities,
    pub assets: AssetServer,
    pub element_handles: Store<ElementHandle>,
    pub hydrated: Store<MapElementHydrated>,
    pub transforms: Store<Transform>,
    pub bodies: Store<KinematicBody>,
    pub idle_bombs: Store<IdleKickBomb>,
    pub lit_bombs: Store<LitKickBomb>,
    pub bomb_metas: Store<KickBombMeta>,
    pub items: Store<Item>,
    pub item_throws: Store<ItemThrow>,
    pub item_grabs: Store<ItemGrab>,
    pub items_used: Store<ItemUsed>,
    pub atlas_sprites: Store<AtlasSprite>,
    pub animated_sprites: Store<AnimatedSprite>,
    pub respawn_points: Store<DehydrateOutOfBounds>,
    pub player_indexes: Store<PlayerIdx>,
    pub inventories: Store<Inventory>,
    pub invincibles: Store<Invincibility>,
    pub player_layers: Store<PlayerLayers>,
    pub attachments: Store<PlayerBodyAttachment>,
    pub damage_regions: Store<DamageRegion>,
    pub lifetimes: Store<Lifetime>,
    pub cameras: Store<Camera>,
    pub spawner_manager: Store<SpawnedEntities>,
    pub commands: Vec<Command>,
    pub audio_events: Vec<AudioEvent>,
    pub trauma_events: Vec<u32>,
    pub pre_update: Vec<SystemId>,
    pub post_update: Vec<SystemId>,
    /// Downward acceleration handed to hydrated kinematic bodies.
    pub gravity: i64,
}

impl View for Session {
    type V = SessionView;

    open spec fn view(&self) -> SessionView {
        SessionView {
            alive: self.entities@,
            assets: self.assets@,
            element_handles: self.element_handles@,
            hydrated: self.hydrated@,
            transforms: self.transforms@,
            bodies: self.bodies@,
            idle_bombs: self.idle_bombs@,
            lit_bombs: self.lit_bombs@,
            bomb_metas: self.bomb_metas@,
            items: self.items@,
            item_throws: self.item_throws@,
            item_grabs: self.item_grabs@,
            items_used: self.items_used@,
            atlas_sprites: self.atlas_sprites@,
            animated_sprites: self.animated_sprites@,
            respawn_points: self.respawn_points@,
            player_indexes: self.player_indexes@,
            inventories: self.inventories@,
            invincibles: self.invincibles@,
            player_layers: self.player_layers@,
            attachments: self.attachments@,
            damage_regions: self.damage_regions@,
            lifetimes: self.lifetimes@,
            cameras: self.cameras@,
            spawned: self.spawner_manager@.map_values(|s: SpawnedEntities| s.entities@),
            commands: self.commands@,
            audio_events: self.audio_events@,
            trauma_events: self.trauma_events@,
            pre_update: self.pre_update@,
            post_update: self.post_update@,
            gravity: self.gravity,
        }
    }
}

/// Every identifier in the map's domain has been allocated.
pub open spec fn dom_bounded<T>(m: Map<int, T>, n: int) -> bool {
    forall|e: int| #[trigger] m.dom().contains(e) ==> 0 <= e < n
}

impl SessionView {
    /// Number of allocated entity identifiers.
    pub open spec fn n(self) -> int {
        self.alive.len() as int
    }

    /// Whether identifier `e` is a live entity.
    pub open spec fn is_alive(self, e: int) -> bool {
        0 <= e < self.n() && self.alive[e]
    }

    /// Every component store's domain lies within the allocated range.
    pub open spec fn doms_bounded(self) -> bool {
        &&& dom_bounded(self.element_handles, self.n())
        &&& dom_bounded(self.hydrated, self.n())
        &&& dom_bounded(self.transforms, self.n())
        &&& dom_bounded(self.bodies, self.n())
        &&& dom_bounded(self.idle_bombs, self.n())
        &&& dom_bounded(self.lit_bombs, self.n())
        &&& dom_bounded(self.bomb_metas, self.n())
        &&& dom_bounded(self.items, self.n())
        &&& dom_bounded(self.item_throws, self.n())
        &&& dom_bounded(self.item_grabs, self.n())
        &&& dom_bounded(self.items_used, self.n())
        &&& dom_bounded(self.atlas_sprites, self.n())
        &&& dom_bounded(self.animated_sprites, self.n())
        &&& dom_bounded(self.respawn_points, self.n())
        &&& dom_bounded(self.player_indexes, self.n())
        &&& dom_bounded(self.inventories, self.n())
        &&& dom_bounded(self.invincibles, self.n())
        &&& dom_bounded(self.player_layers, self.n())
        &&& dom_bounded(self.attachments, self.n())
        &&& dom_bounded(self.damage_regions, self.n())
        &&& dom_bounded(self.lifetimes, self.n())
        &&& dom_bounded(self.cameras, self.n())
        &&& dom_bounded(self.spawned, self.n())
    }

    /// The components every runtime bomb instance carries from hydration
    /// until destruction.
    pub open spec fn instance_ok(self, e: int) -> bool {
        &&& self.bomb_metas.dom().contains(e)
        &&& self.bodies.dom().contains(e)
        &&& self.transforms.dom().contains(e)
        &&& self.respawn_points.dom().contains(e)
        &&& self.animated_sprites.dom().contains(e)
        &&& self.atlas_sprites.dom().contains(e)
    }

    /// The components every live player entity carries.
    pub open spec fn player_ok(self, p: int) -> bool {
        &&& self.atlas_sprites.dom().contains(p)
        &&& self.transforms.dom().contains(p)
        &&& self.player_layers.dom().contains(p)
    }

    /// Well-formedness of a session: store domains are bounded, no entity
    /// is both idle and lit, live bomb instances and players carry their
    /// required components, and lit timers are well-formed.
    pub open spec fn wf(self) -> bool {
        &&& self.doms_bounded()
        &&& forall|e: int|
            !(#[trigger] self.idle_bombs.dom().contains(e) && self.lit_bombs.dom().contains(e))
        &&& forall|e: int|
            self.is_alive(e) && #[trigger] self.idle_bombs.dom().contains(e) ==> self.instance_ok(
                e,
            )
        &&& forall|e: int|
            self.is_alive(e) && #[trigger] self.lit_bombs.dom().contains(e) ==> self.instance_ok(e)
        &&& forall|p: int|
            self.is_alive(p) && #[trigger] self.player_indexes.dom().contains(p) ==> self.player_ok(
                p,
            )
        &&& forall|e: int| #[trigger]
            self.lit_bombs.dom().contains(e) ==> self.lit_bombs[e].arm_delay.wf()
                && self.lit_bombs[e].fuse_time.wf()
    }
}

impl Session {
    /// An empty session: no entities, no assets, no registered systems, and
    /// empty sinks. The result is well-formed.
    pub fn new(gravity: i64) -> (r: Session)
        ensures
            r@.alive == Seq::<bool>::empty(),
            r@.assets == Map::<int, ElementMeta>::empty(),
            r@.element_handles == Map::<int, ElementHandle>::empty(),
            r@.hydrated == Map::<int, MapElementHydrated>::empty(),
            r@.transforms == Map::<int, Transform>::empty(),
            r@.bodies == Map::<int, KinematicBody>::empty(),
            r@.idle_bombs == Map::<int, IdleKickBomb>::empty(),
            r@.lit_bombs == Map::<int, LitKickBomb>::empty(),
            r@.bomb_metas == Map::<int, KickBombMeta>::empty(),
            r@.items == Map::<int, Item>::empty(),
            r@.item_throws == Map::<int, ItemThrow>::empty(),
            r@.item_grabs == Map::<int, ItemGrab>::empty(),
            r@.items_used == Map::<int, ItemUsed>::empty(),
            r@.atlas_sprites == Map::<int, AtlasSprite>::empty(),
            r@.animated_sprites == Map::<int, AnimatedSprite>::empty(),
            r@.respawn_points == Map::<int, DehydrateOutOfBounds>::empty(),
            r@.player_indexes == Map::<int, PlayerIdx>::empty(),
            r@.inventories == Map::<int, Inventory>::empty(),
            r@.invincibles == Map::<int, Invincibility>::empty(),
            r@.player_layers == Map::<int, PlayerLayers>::empty(),
            r@.attachments == Map::<int, PlayerBodyAttachment>::empty(),
            r@.damage_regions == Map::<int, DamageRegion>::empty(),
            r@.lifetimes == Map::<int, Lifetime>::empty(),
            r@.cameras == Map::<int, Camera>::empty(),
            r@.spawned == Map::<int, Seq<Entity>>::empty(),
            r@.commands == Seq::<Command>::empty(),
            r@.audio_events == Seq::<AudioEvent>::empty(),
            r@.trauma_events == Seq::<u32>::empty(),
            r@.pre_update == Seq::<SystemId>::empty(),
            r@.post_update == Seq::<SystemId>::empty(),
            r@.gravity == gravity,
            r@.wf(),
    {
        let r = Session {
            entities: Entities::new(),
            assets: AssetServer::new(),
            element_handles: Store::new(),
            hydrated: Store::new(),
            transforms: Store::new(),
            bodies: Store::new(),
            idle_bombs: Store::new(),
            lit_bombs: Store::new(),
            bomb_metas: Store::new(),
            items: Store::new(),
            item_throws: Store::new(),
            item_grabs: Store::new(),
            items_used: Store::new(),
            atlas_sprites: Store::new(),
            animated_sprites: Store::new(),
            respawn_points: Store::new(),
            player_indexes: Store::new(),
            inventories: Store::new(),
            invincibles: Store::new(),
            player_layers: Store::new(),
            attachments: Store::new(),
            damage_regions: Store::new(),
            lifetimes: Store::new(),
            cameras: Store::new(),
            spawner_manager: Store::new(),
            commands: Vec::new(),
            audio_events: Vec::new(),
            trauma_events: Vec::new(),
            pre_update: Vec::new(),
            post_update: Vec::new(),
            gravity,
        };
        proof {
            assert(r@.spawned =~= Map::<int, Seq<Entity>>::empty());
        }
        r
    }

    /// Place an element marker in the world: a design-time map position
    /// holding a reference to static element metadata. The marker starts
    /// un-hydrated.
    pub fn spawn_element_marker(&mut self, handle: ElementHandle, transform: Transform) -> (r:
        Entity)
        ensures
            r.idx == old(self)@.alive.len(),
            final(self)@ == (SessionView {
                alive: old(self)@.alive.push(true),
                element_handles: old(self)@.element_handles.insert(r.idx as int, handle),
                transforms: old(self)@.transforms.insert(r.idx as int, transform),
                ..old(self)@
            }),
    {
        let e = self.entities.create();
        self.element_handles.insert(e, handle);
        self.transforms.insert(e, transform);
        e
    }

    /// Spawn a player entity with the given index, transform and sprite, an
    /// empty inventory and default visual layers.
    pub fn spawn_player(&mut self, idx: u32, transform: Transform, sprite: AtlasSprite) -> (r:
        Entity)
        ensures
            r.idx == old(self)@.alive.len(),
            final(self)@ == (SessionView {
                alive: old(self)@.alive.push(true),
                player_indexes: old(self)@.player_indexes.insert(r.idx as int, PlayerIdx(idx)),
                transforms: old(self)@.transforms.insert(r.idx as int, transform),
                atlas_sprites: old(self)@.atlas_sprites.insert(r.idx as int, sprite),
                player_layers: old(self)@.player_layers.insert(
                    r.idx as int,
                    PlayerLayers { fin_anim: 0 },
                ),
                inventories: old(self)@.inventories.insert(r.idx as int, Inventory(None)),
                ..old(self)@
            }),
    {
        let e = self.entities.create();
        self.player_indexes.insert(e, PlayerIdx(idx));
        self.transforms.insert(e, transform);
        self.atlas_sprites.insert(e, sprite);
        self.player_layers.insert(e, PlayerLayers { fin_anim: 0 });
        self.inventories.insert(e, Inventory(None));
        e
    }

    /// Spawn a camera entity at the origin with the default projection.
    pub fn spawn_camera(&mut self) -> (r: Entity)
        ensures
            r.idx == old(self)@.alive.len(),
            final(self)@ == (SessionView {
                alive: old(self)@.alive.push(true),
                cameras: old(self)@.cameras.insert(
                    r.idx as int,
                    Camera { scale: 1, custom_viewport: false },
                ),
                transforms: old(self)@.transforms.insert(
                    r.idx as int,
                    Transform { x: 0, y: 0, z: 0, rotation: 0 },
                ),
                ..old(self)@
            }),
    {
        let e = self.entities.create();
        self.cameras.insert(e, Camera { scale: 1, custom_viewport: false });
        self.transforms.insert(e, Transform { x: 0, y: 0, z: 0, rotation: 0 });
        e
    }

    /// Record that `player` now holds `item` (or nothing).
    pub fn set_inventory(&mut self, player: Entity, item: Option<Entity>)
        ensures
            final(self)@ == (SessionView {
                inventories: old(self)@.inventories.insert(player.idx as int, Inventory(item)),
                ..old(self)@
            }),
    {
        self.inventories.insert(player, Inventory(item));
    }

    /// Mark an item as having received a "used" trigger this tick.
    pub fn trigger_item_used(&mut self, item: Entity)
        ensures
            final(self)@ == (SessionView {
                items_used: old(self)@.items_used.insert(item.idx as int, ItemUsed),
                ..old(self)@
            }),
    {
        self.items_used.insert(item, ItemUsed);
    }

    /// Mark an entity as invincible.
    pub fn set_invincible(&mut self, e: Entity)
        ensures
            final(self)@ == (SessionView {
                invincibles: old(self)@.invincibles.insert(e.idx as int, Invincibility),
                ..old(self)@
            }),
    {
        self.invincibles.insert(e, Invincibility);
    }
}

/// Applying one deferred command to the session view.
pub open spec fn spec_apply(v: SessionView, c: Command) -> SessionView {
    match c {
        Command::SwapIdleToLit { entity, arm_delay, fuse_time } => SessionView {
            idle_bombs: v.idle_bombs.remove(entity.idx as int),
            lit_bombs: v.lit_bombs.insert(
                entity.idx as int,
                LitKickBomb {
                    arm_delay: Timer { duration: arm_delay, elapsed: 0 },
                    fuse_time: Timer { duration: fuse_time, elapsed: 0 },
                },
            ),
            ..v
        },
        Command::PlaySound { sound, volume } => SessionView {
            audio_events: v.audio_events.push(AudioEvent { sound, volume }),
            ..v
        },
        Command::CameraShake { magnitude } => SessionView {
            trauma_events: v.trauma_events.push(magnitude),
            ..v
        },
        Command::ClearHydrated { marker } => SessionView {
            hydrated: v.hydrated.remove(marker.idx as int),
            ..v
        },
        Command::DespawnEntity { entity } => SessionView {
            alive: if entity.idx < v.alive.len() {
                v.alive.update(entity.idx as int, false)
            } else {
                v.alive
            },
            ..v
        },
        Command::SpawnDamageRegion { transform, width, height, lifetime } => {
            let i = v.alive.len() as int;
            SessionView {
                alive: v.alive.push(true),
                transforms: v.transforms.insert(i, transform),
                damage_regions: v.damage_regions.insert(i, DamageRegion { width, height }),
                lifetimes: v.lifetimes.insert(i, Lifetime(lifetime)),
                ..v
            }
        },
        Command::SpawnExplosionVisual { transform, atlas, frame_count, fps, lifetime } => {
            let i = v.alive.len() as int;
            SessionView {
                alive: v.alive.push(true),
                transforms: v.transforms.insert(i, transform),
                atlas_sprites: v.atlas_sprites.insert(i, AtlasSprite { atlas, flip_x: false }),
                animated_sprites: v.animated_sprites.insert(
                    i,
                    AnimatedSprite { frame_start: 0, frame_count, fps, repeat: false },
                ),
                lifetimes: v.lifetimes.insert(i, Lifetime(lifetime)),
                ..v
            }
        },
    }
}

/// The session view after the first `k` of the commands `cs` have been
/// applied, in order.
pub open spec fn spec_apply_upto(v: SessionView, cs: Seq<Command>, k: nat) -> SessionView
    decreases k,
{
    if k == 0 {
        v
    } else {
        spec_apply(spec_apply_upto(v, cs, (k - 1) as nat), cs[k - 1])
    }
}

/// The session view after the command bus flush: every pending command
/// applied in enqueue (FIFO) order, and the queue emptied.
pub open spec fn spec_flush(v: SessionView) -> SessionView {
    SessionView { commands: Seq::empty(), ..spec_apply_upto(v, v.commands, v.commands.len()) }
}

/// Apply one deferred command to the session.
fn apply_command(session: &mut Session, c: Command)
    ensures
        final(session)@ == spec_apply(old(session)@, c),
{
    match c {
        Command::SwapIdleToLit { entity, arm_delay, fuse_time } => {
            session.idle_bombs.remove(entity);
            session.lit_bombs.insert(
                entity,
                LitKickBomb { arm_delay: Timer::new(arm_delay), fuse_time: Timer::new(fuse_time) },
            );
        },
        Command::PlaySound { sound, volume } => {
            session.audio_events.push(AudioEvent { sound, volume });
        },
        Command::CameraShake { magnitude } => {
            session.trauma_events.push(magnitude);
        },
        Command::ClearHydrated { marker } => {
            session.hydrated.remove(marker);
        },
        Command::DespawnEntity { entity } => {
            session.entities.kill(entity);
        },
        Command::SpawnDamageRegion { transform, width, height, lifetime } => {
            let i = session.entities.create();
            session.transforms.insert(i, transform);
            session.damage_regions.insert(i, DamageRegion { width, height });
            session.lifetimes.insert(i, Lifetime(lifetime));
        },
        Command::SpawnExplosionVisual { transform, atlas, frame_count, fps, lifetime } => {
            let i = session.entities.create();
            session.transforms.insert(i, transform);
            session.atlas_sprites.insert(i, AtlasSprite { atlas, flip_x: false });
            session.animated_sprites.insert(
                i,
                AnimatedSprite { frame_start: 0, frame_count, fps, repeat: false },
            );
            session.lifetimes.insert(i, Lifetime(lifetime));
        },
    }
}

/// Flush the command bus: apply every pending command in FIFO order, then
/// clear the queue. Runs exactly once per tick, after all passes.
pub fn flush_commands(session: &mut Session)
    ensures
        final(session)@ == spec_flush(old(session)@),
{
    let ghost v0 = session@;
    let n = session.commands.len();
    for i in 0..n
        invariant
            n == v0.commands.len(),
            session@.commands == v0.commands,
            session@ == spec_apply_upto(v0, v0.commands, i as nat),
    {
        let c = session.commands[i];
        apply_command(session, c);
    }
    session.commands = Vec::new();
    proof {
        assert(session@ =~~= spec_flush(v0));
    }
}

/// Running one registered system on the session.
pub open spec fn spec_run_system(v: SessionView, id: SystemId, input: TickInput) -> SessionView {
    match id {
        SystemId::Hydrate => crate::kick_bomb::spec_hydrate(v),
        SystemId::UpdateIdleKickBombs => crate::kick_bomb::spec_update_idle(v),
        SystemId::UpdateLitKickBombs => crate::kick_bomb::spec_update_lit(v, input),
    }
}

/// The session view after the first `k` of the systems `ids` have run, in
/// registration order.
pub open spec fn spec_run_upto(
    v: SessionView,
    ids: Seq<SystemId>,
    input: TickInput,
    k: nat,
) -> SessionView
    decreases k,
{
    if k == 0 {
        v
    } else {
        spec_run_system(spec_run_upto(v, ids, input, (k - 1) as nat), ids[k - 1], input)
    }
}

/// One full simulation tick: the pre-update stage, then the post-update
/// stage, each in registration order, then exactly one command bus flush.
pub open spec fn spec_session_tick(v: SessionView, input: TickInput) -> SessionView {
    let v1 = spec_run_upto(v, v.pre_update, input, v.pre_update.len());
    let v2 = spec_run_upto(v1, v1.post_update, input, v1.post_update.len());
    spec_flush(v2)
}

/// Dispatch one registered system.
pub fn run_system(session: &mut Session, id: SystemId, ctx: &TickContext)
    ensures
        final(session)@ == spec_run_system(old(session)@, id, ctx@),
{
    match id {
        SystemId::Hydrate => crate::kick_bomb::hydrate(session),
        SystemId::UpdateIdleKickBombs => crate::kick_bomb::update_idle_kick_bombs(session),
        SystemId::UpdateLitKickBombs => crate::kick_bomb::update_lit_kick_bombs(session, ctx),
    }
}

/// Copy a system list, so a stage can be iterated while the session is
/// mutated.
fn copy_systems(list: &Vec<SystemId>) -> (r: Vec<SystemId>)
    ensures
        r@ == list@,
{
    let mut r: Vec<SystemId> = Vec::new();
    let n = list.len();
    for i in 0..n
        invariant
            n == list@.len(),
            r@ == list@.take(i as int),
    {
        r.push(list[i]);
        proof {
            assert(r@ =~= list@.take(i + 1));
        }
    }
    proof {
        assert(list@.take(n as int) =~= list@);
    }
    r
}

impl Session {
    /// Run one simulation tick: every pre-update system (hydration), then
    /// every post-update system (the idle and lit passes), each stage in
    /// registration order, then flush the command bus exactly once. State
    /// after the tick is a pure function of the previous state, the elapsed
    /// time, and the queried collision world.
    pub fn tick(&mut self, ctx: &TickContext)
        ensures
            final(self)@ == spec_session_tick(old(self)@, ctx@),
    {
        let ghost v0 = self@;
        let pre = copy_systems(&self.pre_update);
        let n_pre = pre.len();
        for i in 0..n_pre
            invariant
                n_pre == v0.pre_update.len(),
                pre@ == v0.pre_update,
                self@ == spec_run_upto(v0, v0.pre_update, ctx@, i as nat),
        {
            run_system(self, pre[i], ctx);
        }
        let ghost v1 = self@;
        let post = copy_systems(&self.post_update);
        let n_post = post.len();
        for i in 0..n_post
            invariant
                n_post == v1.post_update.len(),
                post@ == v1.post_update,
                v1 == spec_run_upto(v0, v0.pre_update, ctx@, v0.pre_update.len()),
                self@ == spec_run_upto(v1, v1.post_update, ctx@, i as nat),
        {
            run_system(self, post[i], ctx);
        }
        flush_commands(self);
    }
}

} // verus!
