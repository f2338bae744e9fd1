use jumpy_core::commands::AudioEvent;
use jumpy_core::components::{
    AtlasSprite, ElementHandle, ElementKind, ElementMeta, KickBombMeta, Transform,
};
use jumpy_core::ecs::Entity;
use jumpy_core::kick_bomb::{game_plugin, hydrate, install, Game, EXPLOSION_TRAUMA_TENTHS};
use jumpy_core::session::{CollisionWorld, Contact, Session, TickContext};

fn bomb_meta() -> KickBombMeta {
    KickBombMeta {
        body_diameter: 24,
        fin_anim: 7,
        grab_offset_x: 2,
        grab_offset_y: 3,
        damage_region_width: 60,
        damage_region_height: 60,
        damage_region_lifetime: 100,
        kick_velocity_x: 300,
        kick_velocity_y: -100,
        throw_velocity: 10,
        explosion_lifetime: 400,
        explosion_frames: 9,
        explosion_fps: 12,
        explosion_sound: 11,
        explosion_volume: 50,
        fuse_sound: 12,
        fuse_sound_volume: 40,
        fuse_time: 3000,
        can_rotate: false,
        atlas: 21,
        explosion_atlas: 22,
        bounciness: 8,
        angular_velocity: 4,
        arm_delay: 500,
    }
}

fn new_session() -> (Session, Entity) {
    let mut game = Game::default();
    game_plugin(&mut game);
    assert!(game.kick_bomb_schema_registered);
    assert!(game.asset_server_initialized);
    let mut session = Session::new(-9);
    install(&mut session);
    session.assets.insert_element(
        ElementHandle(1),
        ElementMeta { kind: ElementKind::KickBomb(bomb_meta()) },
    );
    let marker = session.spawn_element_marker(
        ElementHandle(1),
        Transform { x: 10, y: 20, z: 0, rotation: 0 },
    );
    (session, marker)
}

fn no_collisions(delta: u64) -> TickContext {
    TickContext { delta, collision_world: CollisionWorld { contacts: Vec::new() } }
}

fn touch(delta: u64, bomb: Entity, player: Entity) -> TickContext {
    TickContext {
        delta,
        collision_world: CollisionWorld { contacts: vec![Contact { actor: bomb, other: player }] },
    }
}

#[test]
fn hydration_creates_one_instance_per_marker() {
    let (mut session, marker) = new_session();
    hydrate(&mut session);
    // marker plus exactly one new instance
    assert_eq!(session.entities.len(), 2);
    let inst = Entity { idx: 1 };
    assert!(session.entities.is_alive(inst));
    assert!(session.idle_bombs.contains(inst));
    assert!(session.hydrated.contains(marker));
    assert!(session.hydrated.contains(inst));
    let t = session.transforms.get(inst).unwrap();
    assert_eq!((t.x, t.y), (10, 20));
    let body = session.bodies.get(inst).unwrap();
    assert_eq!(body.velocity_x, 0);
    assert_eq!(body.velocity_y, 0);
    assert_eq!(body.diameter, 24);
    assert_eq!(body.gravity, -9);
    assert!(body.has_mass && body.has_friction);
    let spawned = session.spawner_manager.get(marker).unwrap();
    assert_eq!(spawned.entities.len(), 1);
    assert_eq!(spawned.entities[0].idx, 1);
}

#[test]
fn hydration_twice_is_a_no_op() {
    let (mut session, _marker) = new_session();
    hydrate(&mut session);
    assert_eq!(session.entities.len(), 2);
    hydrate(&mut session);
    // the second run processes nothing: still exactly one instance
    assert_eq!(session.entities.len(), 2);
    assert!(session.idle_bombs.contains(Entity { idx: 1 }));
    assert!(!session.idle_bombs.contains(Entity { idx: 2 }));
}

#[test]
fn unresolved_metadata_is_skipped_and_retried() {
    let mut session = Session::new(-9);
    install(&mut session);
    // marker placed before its asset has streamed in
    let marker = session.spawn_element_marker(
        ElementHandle(9),
        Transform { x: 0, y: 0, z: 0, rotation: 0 },
    );
    hydrate(&mut session);
    assert_eq!(session.entities.len(), 1);
    assert!(!session.hydrated.contains(marker));
    // the asset resolves; the next pass picks the marker up
    session.assets.insert_element(
        ElementHandle(9),
        ElementMeta { kind: ElementKind::KickBomb(bomb_meta()) },
    );
    hydrate(&mut session);
    assert_eq!(session.entities.len(), 2);
    assert!(session.hydrated.contains(marker));
}

#[test]
fn used_trigger_lights_the_bomb_deferred() {
    let (mut session, _marker) = new_session();
    session.tick(&no_collisions(100));
    let inst = Entity { idx: 1 };
    assert!(session.idle_bombs.contains(inst));
    session.trigger_item_used(inst);
    session.tick(&no_collisions(100));
    // after the flush the swap has been applied
    assert!(!session.idle_bombs.contains(inst));
    let lit = session.lit_bombs.get(inst).unwrap();
    assert_eq!(lit.arm_delay.duration, 500);
    assert_eq!(lit.arm_delay.elapsed, 0);
    assert_eq!(lit.fuse_time.duration, 3000);
    assert_eq!(lit.fuse_time.elapsed, 0);
    // the arming sound played and the sprite switched to the burning loop
    assert!(session.audio_events.contains(&AudioEvent { sound: 12, volume: 40 }));
    let anim = session.animated_sprites.get(inst).unwrap();
    assert_eq!((anim.frame_start, anim.frame_count, anim.fps), (3, 3, 8));
    assert!(anim.repeat);
    assert!(!session.items_used.contains(inst));
}

#[test]
fn fuse_expiry_explodes_and_respawns() {
    let (mut session, marker) = new_session();
    session.tick(&no_collisions(100));
    let inst = Entity { idx: 1 };
    session.trigger_item_used(inst);
    session.tick(&no_collisions(100));
    // 3.0 s of ticks with no further interaction
    let mut ticks: usize = 0;
    while session.entities.is_alive(inst) && ticks < 100 {
        session.tick(&no_collisions(100));
        ticks += 1;
    }
    assert_eq!(ticks, 30);
    assert!(!session.entities.is_alive(inst));
    // the marker was dehydrated for respawn during the explosion flush, and
    // the very same tick's hydration pass had already run, so the marker is
    // un-hydrated at this boundary
    assert!(!session.hydrated.contains(marker));
    // exactly two effect entities spawned: the damage region and the visual
    let region = Entity { idx: 2 };
    let visual = Entity { idx: 3 };
    assert_eq!(session.entities.len(), 4);
    let dr = session.damage_regions.get(region).unwrap();
    assert_eq!((dr.width, dr.height), (60, 60));
    let rt = session.transforms.get(region).unwrap();
    assert_eq!((rt.x, rt.y, rt.z, rt.rotation), (10, 20, -10, 0));
    assert_eq!(session.lifetimes.get(region).unwrap().0, 100);
    let vs = session.atlas_sprites.get(visual).unwrap();
    assert_eq!(vs.atlas, 22);
    let va = session.animated_sprites.get(visual).unwrap();
    assert_eq!((va.frame_start, va.frame_count, va.fps), (0, 9, 12));
    assert!(!va.repeat);
    assert_eq!(session.lifetimes.get(visual).unwrap().0, 400);
    // explosion sound and fixed-magnitude camera shake reached the sinks
    assert!(session.audio_events.contains(&AudioEvent { sound: 11, volume: 50 }));
    assert!(session.trauma_events.contains(&EXPLOSION_TRAUMA_TENTHS));
    // the next hydration pass spawns one fresh instance at the marker
    session.tick(&no_collisions(100));
    let fresh = Entity { idx: 4 };
    assert_eq!(session.entities.len(), 5);
    assert!(session.idle_bombs.contains(fresh));
    let ft = session.transforms.get(fresh).unwrap();
    assert_eq!((ft.x, ft.y), (10, 20));
    let fb = session.bodies.get(fresh).unwrap();
    assert_eq!((fb.velocity_x, fb.velocity_y), (0, 0));
    assert!(session.hydrated.contains(marker));
}

fn lit_bomb_session() -> (Session, Entity, Entity) {
    let (mut session, _marker) = new_session();
    session.tick(&no_collisions(100));
    let inst = Entity { idx: 1 };
    session.trigger_item_used(inst);
    session.tick(&no_collisions(100));
    let player = session.spawn_player(
        0,
        Transform { x: 0, y: 20, z: 0, rotation: 0 },
        AtlasSprite { atlas: 30, flip_x: false },
    );
    (session, inst, player)
}

#[test]
fn kick_stationary_bomb_mirrors_on_facing() {
    // player facing left: kick velocity mirrored on x
    let (mut session, inst, player) = lit_bomb_session();
    session.atlas_sprites.insert(player, AtlasSprite { atlas: 30, flip_x: true });
    session.tick(&touch(100, inst, player));
    let body = session.bodies.get(inst).unwrap();
    assert_eq!((body.velocity_x, body.velocity_y), (-300, -100));
}

#[test]
fn kick_stationary_bomb_unmirrored_when_facing_right() {
    let (mut session, inst, player) = lit_bomb_session();
    session.tick(&touch(100, inst, player));
    let body = session.bodies.get(inst).unwrap();
    assert_eq!((body.velocity_x, body.velocity_y), (300, -100));
}

#[test]
fn rekick_from_behind_reapplies_kick_velocity() {
    // bomb already moving right, player on its left with a right-facing
    // sprite: the configured kick velocity is reapplied unmirrored
    let (mut session, inst, player) = lit_bomb_session();
    let mut body = *session.bodies.get(inst).unwrap();
    body.velocity_x = 5;
    body.velocity_y = 0;
    session.bodies.insert(inst, body);
    session.tick(&touch(100, inst, player));
    let body = session.bodies.get(inst).unwrap();
    assert_eq!((body.velocity_x, body.velocity_y), (300, -100));
}

#[test]
fn rekick_mirrored_from_the_right() {
    // player on the bomb's right with a left-facing sprite
    let (mut session, inst, player) = lit_bomb_session();
    session.transforms.insert(player, Transform { x: 50, y: 20, z: 0, rotation: 0 });
    session.atlas_sprites.insert(player, AtlasSprite { atlas: 30, flip_x: true });
    let mut body = *session.bodies.get(inst).unwrap();
    body.velocity_x = -5;
    session.bodies.insert(inst, body);
    session.tick(&touch(100, inst, player));
    let body = session.bodies.get(inst).unwrap();
    assert_eq!((body.velocity_x, body.velocity_y), (-300, -100));
}

#[test]
fn kick_path_explodes_only_after_arm_delay() {
    // player stands left but faces left: neither kick branch applies
    let (mut session, inst, player) = lit_bomb_session();
    session.atlas_sprites.insert(player, AtlasSprite { atlas: 30, flip_x: true });
    let mut body = *session.bodies.get(inst).unwrap();
    body.velocity_x = 5;
    session.bodies.insert(inst, body);
    // arm delay (500 ms) not yet finished: no explosion
    session.tick(&touch(100, inst, player));
    assert!(session.entities.is_alive(inst));
    // let the arm delay finish, away from players
    for _ in 0..4 {
        session.tick(&no_collisions(100));
    }
    assert!(session.entities.is_alive(inst));
    // now the same contact detonates via the kick path
    session.tick(&touch(100, inst, player));
    assert!(!session.entities.is_alive(inst));
}

#[test]
fn invincible_players_cannot_kick() {
    let (mut session, inst, player) = lit_bomb_session();
    session.set_invincible(player);
    session.tick(&touch(100, inst, player));
    let body = session.bodies.get(inst).unwrap();
    assert_eq!((body.velocity_x, body.velocity_y), (0, 0));
}

#[test]
fn held_bomb_is_immune_to_kick_explosions() {
    let (mut session, inst, player) = lit_bomb_session();
    session.set_inventory(player, Some(inst));
    // even with the arm delay long finished and a touching contact, a held
    // bomb never explodes via the kick path
    for _ in 0..10 {
        session.tick(&touch(100, inst, player));
        assert!(session.entities.is_alive(inst));
    }
    let body = session.bodies.get(inst).unwrap();
    assert!(body.is_deactivated);
    let att = session.attachments.get(inst).unwrap();
    assert_eq!(att.player, player);
    assert_eq!((att.offset_x, att.offset_y, att.offset_z), (2, 3, 1));
    // the holder's fin layer shows the fuse animation
    assert_eq!(session.player_layers.get(player).unwrap().fin_anim, 7);
    // only fuse expiry destroys it: 3.0 s in total
    for _ in 0..20 {
        session.tick(&touch(100, inst, player));
    }
    assert!(!session.entities.is_alive(inst));
}

#[test]
fn explosion_destroys_once_even_if_fuse_and_kick_agree() {
    // drive the bomb to the last fuse tick while a kick-path explosion is
    // also due, then count the effects of the one explosion
    let (mut session, inst, player) = lit_bomb_session();
    session.atlas_sprites.insert(player, AtlasSprite { atlas: 30, flip_x: true });
    let mut body = *session.bodies.get(inst).unwrap();
    body.velocity_x = 5;
    session.bodies.insert(inst, body);
    for _ in 0..29 {
        session.tick(&no_collisions(100));
        assert!(session.entities.is_alive(inst));
    }
    let entities_before = session.entities.len();
    let sounds_before = session.audio_events.len();
    // this tick finishes the fuse and satisfies the kick path; the player
    // stands left facing left, so no re-kick applies
    session.tick(&touch(100, inst, player));
    assert!(!session.entities.is_alive(inst));
    // exactly one damage region and one visual: exactly two new entities
    assert_eq!(session.entities.len(), entities_before + 2);
    // exactly one explosion sound
    assert_eq!(session.audio_events.len(), sounds_before + 1);
    assert_eq!(session.trauma_events.len(), 1);
}

#[test]
fn mutual_exclusion_at_every_boundary() {
    let (mut session, _marker) = new_session();
    let mut used = false;
    for tick_no in 0..40 {
        session.tick(&no_collisions(100));
        if tick_no == 2 && !used {
            session.trigger_item_used(Entity { idx: 1 });
            used = true;
        }
        let n = session.entities.len();
        for idx in 0..n {
            let e = Entity { idx };
            assert!(!(session.idle_bombs.contains(e) && session.lit_bombs.contains(e)));
        }
    }
}
