use jumpy_core::components::{AtlasSprite, Camera, ElementHandle, ElementKind, ElementMeta, Transform};
use jumpy_core::ecs::Entity;
use jumpy_core::kick_bomb::{hydrate, install};
use jumpy_core::session::Session;
use jumpy_core::utils::ResetController;

#[test]
fn reset_world_keeps_camera_and_players_only() {
    let mut session = Session::new(-9);
    install(&mut session);
    let camera = session.spawn_camera();
    let player = session.spawn_player(
        0,
        Transform { x: 5, y: 6, z: 0, rotation: 0 },
        AtlasSprite { atlas: 30, flip_x: false },
    );
    session.assets.insert_element(
        ElementHandle(1),
        ElementMeta {
            kind: ElementKind::KickBomb(jumpy_core::components::KickBombMeta {
                body_diameter: 24,
                fin_anim: 7,
                grab_offset_x: 2,
                grab_offset_y: 3,
                damage_region_width: 60,
                damage_region_height: 60,
                damage_region_lifetime: 100,
                kick_velocity_x: 300,
                kick_velocity_y: -100,
                throw_velocity: 10,
                explosion_lifetime: 400,
                explosion_frames: 9,
                explosion_fps: 12,
                explosion_sound: 11,
                explosion_volume: 50,
                fuse_sound: 12,
                fuse_sound_volume: 40,
                fuse_time: 3000,
                can_rotate: false,
                atlas: 21,
                explosion_atlas: 22,
                bounciness: 8,
                angular_velocity: 4,
                arm_delay: 500,
            }),
        },
    );
    let marker = session.spawn_element_marker(
        ElementHandle(1),
        Transform { x: 10, y: 20, z: 0, rotation: 0 },
    );
    hydrate(&mut session);
    let instance = Entity { idx: 3 };
    assert!(session.entities.is_alive(instance));

    // move the camera before the reset
    session.cameras.insert(camera, Camera { scale: 3, custom_viewport: true });
    session.transforms.insert(camera, Transform { x: 44, y: 55, z: 9, rotation: 2 });

    ResetController.reset_world(&mut session);

    assert!(session.entities.is_alive(camera));
    assert!(session.entities.is_alive(player));
    assert!(!session.entities.is_alive(marker));
    assert!(!session.entities.is_alive(instance));

    let cam = session.cameras.get(camera).unwrap();
    assert_eq!(cam.scale, 1);
    assert!(!cam.custom_viewport);
    let t = session.transforms.get(camera).unwrap();
    // translation returns to the origin; depth and rotation are untouched
    assert_eq!((t.x, t.y, t.z, t.rotation), (0, 0, 9, 2));
}

#[test]
fn reset_world_without_camera_only_despawns() {
    let mut session = Session::new(-9);
    let player = session.spawn_player(
        0,
        Transform { x: 5, y: 6, z: 0, rotation: 0 },
        AtlasSprite { atlas: 30, flip_x: false },
    );
    let marker = session.spawn_element_marker(
        ElementHandle(2),
        Transform { x: 1, y: 2, z: 0, rotation: 0 },
    );
    ResetController.reset_world(&mut session);
    assert!(session.entities.is_alive(player));
    assert!(!session.entities.is_alive(marker));
}
