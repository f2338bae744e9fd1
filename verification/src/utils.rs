//! Resetting the game world: despawn every gameplay entity, keeping the
//! camera and the players, and put the camera back to its default position
//! and projection. The logic is centralized here so it can be re-used
//! wherever the world must be cleaned up.

use vstd::prelude::*;

use crate::components::{Camera, Transform};
use crate::ecs::Entity;
use crate::session::{Session, SessionView};

verus! {

/// Whether entity `e` survives a world reset: cameras and players stay.
pub open spec fn reset_keeps(v: SessionView, e: int) -> bool {
    v.cameras.dom().contains(e) || v.player_indexes.dom().contains(e)
}

/// The first live camera entity from identifier `c` upward.
pub open spec fn spec_first_camera_from(v: SessionView, c: int) -> Option<int>
    decreases v.alive.len() - c,
{
    if c < 0 || c >= v.alive.len() {
        None
    } else if v.is_alive(c) && v.cameras.dom().contains(c) {
        Some(c)
    } else {
        spec_first_camera_from(v, c + 1)
    }
}

/// The session after a world reset: every live entity that is neither a
/// camera nor a player is despawned; the first live camera loses its custom
/// viewport, returns to the default projection scale, and its translation
/// returns to the origin (depth and rotation untouched).
pub open spec fn spec_reset_world(v: SessionView) -> SessionView {
    let v1 = SessionView {
        alive: Seq::new(v.alive.len(), |e: int| v.alive[e] && reset_keeps(v, e)),
        ..v
    };
    match spec_first_camera_from(v, 0) {
        Some(c) => {
            let v2 = SessionView {
                cameras: v1.cameras.insert(c, Camera { scale: 1, custom_viewport: false }),
                ..v1
            };
            if v.transforms.dom().contains(c) {
                SessionView {
                    transforms: v2.transforms.insert(
                        c,
                        Transform {
                            x: 0,
                            y: 0,
                            z: v.transforms[c].z,
                            rotation: v.transforms[c].rotation,
                        },
                    ),
                    ..v2
                }
            } else {
                v2
            }
        },
        None => v1,
    }
}

/// Can be used to reset the game world.
///
/// Resetting de-spawns all entities other than the cameras and the players
/// and resets the camera position; the process is centralized here so it
/// can be re-used.
pub struct ResetController;

/// The first live camera entity, if any.
fn find_first_camera(session: &Session) -> (r: Option<Entity>)
    ensures
        match r {
            Some(c) => spec_first_camera_from(session@, 0) == Some(c.idx as int),
            None => spec_first_camera_from(session@, 0) is None,
        },
{
    let n = session.entities.len();
    for c_idx in 0..n
        invariant
            n == session@.alive.len(),
            spec_first_camera_from(session@, 0) == spec_first_camera_from(session@, c_idx as int),
    {
        let c = Entity { idx: c_idx };
        if session.entities.is_alive(c) && session.cameras.contains(c) {
            return Some(c);
        }
    }
    None
}

impl ResetController {
    /// Clean up the game world: despawn all gameplay entities, keeping only
    /// the cameras and the player entities, and reset the first camera's
    /// viewport, position and projection scale.
    pub fn reset_world(self, session: &mut Session)
        ensures
            final(session)@ == spec_reset_world(old(session)@),
    {
        let ghost v0 = session@;
        let camera = find_first_camera(session);
        let n = session.entities.len();
        for e_idx in 0..n
            invariant
                n == v0.alive.len(),
                session@ == (SessionView {
                    alive: Seq::new(
                        v0.alive.len(),
                        |e: int| v0.alive[e] && (e >= e_idx || reset_keeps(v0, e)),
                    ),
                    ..v0
                }),
        {
            let e = Entity { idx: e_idx };
            if session.entities.is_alive(e) && !session.cameras.contains(e)
                && !session.player_indexes.contains(e) {
                session.entities.kill(e);
            }
            proof {
                assert(session@.alive =~= Seq::new(
                    v0.alive.len(),
                    |e: int| v0.alive[e] && (e >= e_idx + 1 || reset_keeps(v0, e)),
                ));
            }
        }
        proof {
            assert(session@.alive =~= Seq::new(
                v0.alive.len(),
                |e: int| v0.alive[e] && reset_keeps(v0, e),
            ));
        }
        if let Some(c) = camera {
            session.cameras.insert(c, Camera { scale: 1, custom_viewport: false });
            if let Some(t_ref) = session.transforms.get(c) {
                let t = *t_ref;
                session.transforms.insert(
                    c,
                    Transform { x: 0, y: 0, z: t.z, rotation: t.rotation },
                );
            }
        }
        proof {
            assert(session@ =~~= spec_reset_world(v0));
        }
    }
}

} // verus!
