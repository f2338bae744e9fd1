//! The laws of the hazard state machine, stated and proved against the pass
//! transformers: what holds of every lit bomb on every tick, of every
//! explosion sequence, and of hydration on every world.

use vstd::prelude::*;

use crate::commands::{AudioEvent, Command};
use crate::components::{
    AnimatedSprite, AtlasSprite, DamageRegion, DehydrateOutOfBounds, KickBombMeta, Lifetime,
    Transform,
};
use crate::ecs::Entity;
use crate::kick_bomb::{
    body_from_meta, hydration_resolves, kick_bomb_meta_of, lit_eligible, spec_explosion_commands,
    spec_explosion_transform, spec_find_holder, spec_find_touching_player, spec_hydrate,
    spec_hydrate_step, spec_hydrate_upto, spec_idle_upto, spec_kick_path_explodes,
    spec_lit_step, spec_lit_upto, spec_ticked,
    EXPLOSION_TRAUMA_TENTHS,
};
use crate::session::{dom_bounded, spec_apply, spec_apply_upto, SessionView, TickInput};

verus! {

/// Both countdown clocks of a lit bomb advance by the elapsed tick time on
/// every tick, regardless of which physical context (held, kicked, falling)
/// the pass takes, and regardless of whether the bomb explodes.
pub proof fn lemma_lit_step_ticks_timers(v: SessionView, input: TickInput, e: int)
    requires
        lit_eligible(v, e),
    ensures
        spec_lit_step(v, input, e).lit_bombs.dom().contains(e),
        spec_lit_step(v, input, e).lit_bombs[e] == spec_ticked(v, e, input.delta),
{
}

/// Timer monotonicity through the lit pass: while lit, both `fuse_time` and
/// `arm_delay` strictly decrease toward zero on every tick with elapsed
/// time, and once finished each stays finished. (That a finished clock
/// stays finished across whole ticks, until the entity is destroyed, is
/// [`lemma_finished_stays_finished_over_tick`].)
pub proof fn lemma_timer_monotonicity(v: SessionView, input: TickInput, e: int)
    requires
        lit_eligible(v, e),
        v.lit_bombs[e].fuse_time.wf(),
        v.lit_bombs[e].arm_delay.wf(),
    ensures
        ({
            let before = v.lit_bombs[e];
            let after = spec_lit_step(v, input, e).lit_bombs[e];
            &&& input.delta > 0 && !before.fuse_time.spec_finished()
                ==> after.fuse_time.spec_remaining() < before.fuse_time.spec_remaining()
            &&& input.delta > 0 && !before.arm_delay.spec_finished()
                ==> after.arm_delay.spec_remaining() < before.arm_delay.spec_remaining()
            &&& after.fuse_time.spec_remaining() >= 0
            &&& after.arm_delay.spec_remaining() >= 0
            &&& before.fuse_time.spec_finished() ==> after.fuse_time.spec_finished()
            &&& before.arm_delay.spec_finished() ==> after.arm_delay.spec_finished()
        }),
{
    lemma_lit_step_ticks_timers(v, input, e);
}

/// Kick reflection correctness, stationary case: a resting bomb
/// (`velocity_x == 0`) kicked by a player whose sprite faces left
/// (`flip_x`) is launched at the configured kick velocity mirrored on x; by
/// a player facing right, at the unmirrored kick velocity.
pub proof fn lemma_kick_reflection_stationary(v: SessionView, input: TickInput, e: int, p: int)
    requires
        lit_eligible(v, e),
        spec_find_holder(v, e) is None,
        spec_find_touching_player(v, input.contacts, e) == Some(p),
        v.atlas_sprites.dom().contains(p),
        v.transforms.dom().contains(p),
        v.bodies[e].velocity_x == 0,
    ensures
        ({
            let body = spec_lit_step(v, input, e).bodies[e];
            let meta = v.bomb_metas[e];
            &&& v.atlas_sprites[p].flip_x ==> body.velocity_x == -(meta.kick_velocity_x as int)
            &&& !v.atlas_sprites[p].flip_x ==> body.velocity_x == meta.kick_velocity_x as int
            &&& body.velocity_y == meta.kick_velocity_y as int
        }),
{
}

/// Kick reflection correctness, re-kick case: a bomb already moving
/// (`velocity_x != 0`) touched by a player standing on its left with a
/// right-facing sprite (`!flip_x`) takes the unmirrored configured kick
/// velocity; standing on its right with a left-facing sprite, the mirrored
/// one.
pub proof fn lemma_kick_reflection_rekick(v: SessionView, input: TickInput, e: int, p: int)
    requires
        lit_eligible(v, e),
        spec_find_holder(v, e) is None,
        spec_find_touching_player(v, input.contacts, e) == Some(p),
        v.atlas_sprites.dom().contains(p),
        v.transforms.dom().contains(p),
        v.bodies[e].velocity_x != 0,
    ensures
        ({
            let body = spec_lit_step(v, input, e).bodies[e];
            let meta = v.bomb_metas[e];
            let standing_left = v.transforms[p].x <= v.transforms[e].x;
            let flip = v.atlas_sprites[p].flip_x;
            &&& standing_left && !flip ==> body.velocity_x == meta.kick_velocity_x as int
                && body.velocity_y == meta.kick_velocity_y as int
            &&& !standing_left && flip ==> body.velocity_x == -(meta.kick_velocity_x as int)
                && body.velocity_y == meta.kick_velocity_y as int
        }),
{
}

/// Held-item immunity: while a player holds the bomb, the kick path can
/// never fire — only fuse expiry can explode it that tick — and the body is
/// deactivated (no physics integration while held).
pub proof fn lemma_held_immunity(v: SessionView, input: TickInput, e: int)
    requires
        lit_eligible(v, e),
        spec_find_holder(v, e) is Some,
    ensures
        !spec_kick_path_explodes(v, input, e, spec_ticked(v, e, input.delta)),
        spec_lit_step(v, input, e).bodies[e].is_deactivated,
        !spec_ticked(v, e, input.delta).fuse_time.spec_finished() ==> spec_lit_step(
            v,
            input,
            e,
        ).commands == v.commands,
{
}

/// Number of commands in `cs` that would destroy entity `e`.
pub open spec fn count_despawns(cs: Seq<Command>, e: int) -> nat {
    cs.filter(|c: Command| c == (Command::DespawnEntity { entity: Entity { idx: e as usize } })).len()
}

/// Number of damage-region spawn commands in `cs`.
pub open spec fn count_damage_spawns(cs: Seq<Command>) -> nat {
    cs.filter(|c: Command| c is SpawnDamageRegion).len()
}

/// Number of explosion-visual spawn commands in `cs`.
pub open spec fn count_visual_spawns(cs: Seq<Command>) -> nat {
    cs.filter(|c: Command| c is SpawnExplosionVisual).len()
}

/// Explosion exclusivity at the bomb: when a lit bomb explodes — even if
/// the fuse expiry and the kick-path condition fire in the same tick — the
/// pass appends its explosion sequence to the command bus exactly once, and
/// that sequence destroys the bomb exactly once and spawns exactly one
/// damage region and one explosion visual.
pub proof fn lemma_explosion_exclusive(v: SessionView, input: TickInput, e: int)
    requires
        lit_eligible(v, e),
        spec_ticked(v, e, input.delta).fuse_time.spec_finished() || spec_kick_path_explodes(
            v,
            input,
            e,
            spec_ticked(v, e, input.delta),
        ),
    ensures
        ({
            let block = spec_explosion_commands(
                e,
                v.respawn_points[e].0,
                v.transforms[e],
                v.bomb_metas[e],
            );
            &&& spec_lit_step(v, input, e).commands == v.commands + block
            &&& count_despawns(block, e) == 1
            &&& count_damage_spawns(block) == 1
            &&& count_visual_spawns(block) == 1
        }),
{
    let block = spec_explosion_commands(e, v.respawn_points[e].0, v.transforms[e], v.bomb_metas[e]);
    assert(count_despawns(block, e) == 1) by {
        reveal_with_fuel(Seq::filter, 8);
    }
    assert(count_damage_spawns(block) == 1) by {
        reveal_with_fuel(Seq::filter, 8);
    }
    assert(count_visual_spawns(block) == 1) by {
        reveal_with_fuel(Seq::filter, 8);
    }
}

/// A lit bomb that does not explode this tick leaves the command bus
/// untouched: no destruction, no spawns.
pub proof fn lemma_no_explosion_no_commands(v: SessionView, input: TickInput, e: int)
    requires
        lit_eligible(v, e),
        !spec_ticked(v, e, input.delta).fuse_time.spec_finished(),
        !spec_kick_path_explodes(v, input, e, spec_ticked(v, e, input.delta)),
    ensures
        spec_lit_step(v, input, e).commands == v.commands,
{
}

/// The two maps agree at key `j`: same presence, same value.
pub open spec fn same_at<T>(a: Map<int, T>, b: Map<int, T>, j: int) -> bool {
    &&& (a.dom().contains(j) <==> b.dom().contains(j))
    &&& (b.dom().contains(j) ==> a[j] == b[j])
}

/// Map `b` extends map `a` only with keys in `[lo, hi)`.
pub open spec fn grows_within<T>(a: Map<int, T>, b: Map<int, T>, lo: int, hi: int) -> bool {
    forall|j: int| #[trigger] b.dom().contains(j) ==> a.dom().contains(j) || (lo <= j < hi)
}

/// What one hydration prefix preserves of an earlier one: identifiers only
/// get allocated (all fresh ones alive and flagged hydrated); liveness and
/// components of already-allocated entities are untouched, except that
/// markers processed in between gain the hydrated flag and a spawner-table
/// entry; stores the pass never writes, the bus, the sinks and the stages
/// are equal; and the eligibility of markers at or beyond the later prefix
/// is unchanged.
pub open spec fn hydrate_persists(v: SessionView, k1: nat, k2: nat) -> bool {
    let w1 = spec_hydrate_upto(v, k1);
    let w2 = spec_hydrate_upto(v, k2);
    &&& w1.alive.len() <= w2.alive.len()
    &&& w2.alive.len() <= w1.alive.len() + (k2 - k1)
    &&& forall|j: int| 0 <= j < w1.alive.len() ==> w2.alive[j] == w1.alive[j]
    &&& forall|j: int| w1.alive.len() <= j < w2.alive.len() ==> w2.alive[j] == true
    &&& w2.assets == w1.assets
    &&& w2.gravity == w1.gravity
    &&& w2.lit_bombs == w1.lit_bombs
    &&& w2.items_used == w1.items_used
    &&& w2.inventories == w1.inventories
    &&& w2.invincibles == w1.invincibles
    &&& w2.player_indexes == w1.player_indexes
    &&& w2.player_layers == w1.player_layers
    &&& w2.attachments == w1.attachments
    &&& w2.damage_regions == w1.damage_regions
    &&& w2.lifetimes == w1.lifetimes
    &&& w2.cameras == w1.cameras
    &&& w2.commands == w1.commands
    &&& w2.audio_events == w1.audio_events
    &&& w2.trauma_events == w1.trauma_events
    &&& w2.pre_update == w1.pre_update
    &&& w2.post_update == w1.post_update
    &&& forall|j: int|
        0 <= j < w1.alive.len() ==> #[trigger] same_at(w2.element_handles, w1.element_handles, j)
    &&& forall|j: int| 0 <= j < w1.alive.len() ==> #[trigger] same_at(w2.transforms, w1.transforms, j)
    &&& forall|j: int| 0 <= j < w1.alive.len() ==> #[trigger] same_at(w2.bodies, w1.bodies, j)
    &&& forall|j: int| 0 <= j < w1.alive.len() ==> #[trigger] same_at(w2.idle_bombs, w1.idle_bombs, j)
    &&& forall|j: int| 0 <= j < w1.alive.len() ==> #[trigger] same_at(w2.bomb_metas, w1.bomb_metas, j)
    &&& forall|j: int| 0 <= j < w1.alive.len() ==> #[trigger] same_at(w2.items, w1.items, j)
    &&& forall|j: int| 0 <= j < w1.alive.len() ==> #[trigger] same_at(w2.item_throws, w1.item_throws, j)
    &&& forall|j: int| 0 <= j < w1.alive.len() ==> #[trigger] same_at(w2.item_grabs, w1.item_grabs, j)
    &&& forall|j: int|
        0 <= j < w1.alive.len() ==> #[trigger] same_at(w2.atlas_sprites, w1.atlas_sprites, j)
    &&& forall|j: int|
        0 <= j < w1.alive.len() ==> #[trigger] same_at(w2.animated_sprites, w1.animated_sprites, j)
    &&& forall|j: int|
        0 <= j < w1.alive.len() ==> #[trigger] same_at(w2.respawn_points, w1.respawn_points, j)
    &&& forall|j: int|
        j < w1.alive.len() && !(k1 <= j < k2 && hydration_resolves(w1, j)) ==> #[trigger] same_at(
            w2.hydrated,
            w1.hydrated,
            j,
        )
    &&& forall|j: int| j < k1 || k2 <= j ==> #[trigger] same_at(w2.spawned, w1.spawned, j)
    &&& forall|j: int| w1.hydrated.dom().contains(j) ==> w2.hydrated.dom().contains(j)
    &&& forall|j: int| w1.alive.len() <= j < w2.alive.len() ==> w2.hydrated.dom().contains(j)
    &&& forall|j: int|
        w2.idle_bombs.dom().contains(j) ==> w1.idle_bombs.dom().contains(j) || w1.alive.len() <= j
            < w2.alive.len()
    &&& grows_within(w1.element_handles, w2.element_handles, w1.alive.len() as int, w2.alive.len() as int)
    &&& grows_within(w1.transforms, w2.transforms, w1.alive.len() as int, w2.alive.len() as int)
    &&& grows_within(w1.bodies, w2.bodies, w1.alive.len() as int, w2.alive.len() as int)
    &&& grows_within(w1.bomb_metas, w2.bomb_metas, w1.alive.len() as int, w2.alive.len() as int)
    &&& grows_within(w1.items, w2.items, w1.alive.len() as int, w2.alive.len() as int)
    &&& grows_within(w1.item_throws, w2.item_throws, w1.alive.len() as int, w2.alive.len() as int)
    &&& grows_within(w1.item_grabs, w2.item_grabs, w1.alive.len() as int, w2.alive.len() as int)
    &&& grows_within(w1.atlas_sprites, w2.atlas_sprites, w1.alive.len() as int, w2.alive.len() as int)
    &&& grows_within(
        w1.animated_sprites,
        w2.animated_sprites,
        w1.alive.len() as int,
        w2.alive.len() as int,
    )
    &&& grows_within(
        w1.respawn_points,
        w2.respawn_points,
        w1.alive.len() as int,
        w2.alive.len() as int,
    )
    &&& grows_within(w1.hydrated, w2.hydrated, 0, w2.alive.len() as int)
    &&& grows_within(w1.spawned, w2.spawned, 0, w1.alive.len() as int)
    &&& forall|j: int|
        w1.alive.len() <= j < w2.alive.len() ==> #[trigger] w2.instance_ok(j)
    &&& forall|j: int|
        k1 <= j < k2 && #[trigger] hydration_resolves(w1, j) ==> w2.hydrated.dom().contains(j)
    &&& forall|j: int|
        k2 <= j ==> (#[trigger] hydration_resolves(w2, j) <==> hydration_resolves(w1, j))
}

/// Hydration prefixes persist: see [`hydrate_persists`].
pub proof fn lemma_hydrate_upto_persists(v: SessionView, k1: nat, k2: nat)
    requires
        k1 <= k2,
    ensures
        hydrate_persists(v, k1, k2),
    decreases k2 - k1,
{
    if k2 == k1 {
    } else {
        lemma_hydrate_upto_persists(v, k1, (k2 - 1) as nat);
        let w1 = spec_hydrate_upto(v, k1);
        let wp = spec_hydrate_upto(v, (k2 - 1) as nat);
        let w2 = spec_hydrate_upto(v, k2);
        let m = (k2 - 1) as int;
        if hydration_resolves(wp, m) {
            assert(w2 == spec_hydrate_step(wp, m));
            let i = wp.alive.len() as int;
            assert forall|j: int| 0 <= j < w1.alive.len() implies #[trigger] same_at(
                w2.element_handles,
                w1.element_handles,
                j,
            ) by {
                assert(same_at(wp.element_handles, w1.element_handles, j));
            }
            assert forall|j: int| 0 <= j < w1.alive.len() implies #[trigger] same_at(
                w2.transforms,
                w1.transforms,
                j,
            ) by {
                assert(same_at(wp.transforms, w1.transforms, j));
            }
            assert forall|j: int| 0 <= j < w1.alive.len() implies #[trigger] same_at(
                w2.bodies,
                w1.bodies,
                j,
            ) by {
                assert(same_at(wp.bodies, w1.bodies, j));
            }
            assert forall|j: int| 0 <= j < w1.alive.len() implies #[trigger] same_at(
                w2.idle_bombs,
                w1.idle_bombs,
                j,
            ) by {
                assert(same_at(wp.idle_bombs, w1.idle_bombs, j));
            }
            assert forall|j: int| 0 <= j < w1.alive.len() implies #[trigger] same_at(
                w2.bomb_metas,
                w1.bomb_metas,
                j,
            ) by {
                assert(same_at(wp.bomb_metas, w1.bomb_metas, j));
            }
            assert forall|j: int| 0 <= j < w1.alive.len() implies #[trigger] same_at(
                w2.items,
                w1.items,
                j,
            ) by {
                assert(same_at(wp.items, w1.items, j));
            }
            assert forall|j: int| 0 <= j < w1.alive.len() implies #[trigger] same_at(
                w2.item_throws,
                w1.item_throws,
                j,
            ) by {
                assert(same_at(wp.item_throws, w1.item_throws, j));
            }
            assert forall|j: int| 0 <= j < w1.alive.len() implies #[trigger] same_at(
                w2.item_grabs,
                w1.item_grabs,
                j,
            ) by {
                assert(same_at(wp.item_grabs, w1.item_grabs, j));
            }
            assert forall|j: int| 0 <= j < w1.alive.len() implies #[trigger] same_at(
                w2.atlas_sprites,
                w1.atlas_sprites,
                j,
            ) by {
                assert(same_at(wp.atlas_sprites, w1.atlas_sprites, j));
            }
            assert forall|j: int| 0 <= j < w1.alive.len() implies #[trigger] same_at(
                w2.animated_sprites,
                w1.animated_sprites,
                j,
            ) by {
                assert(same_at(wp.animated_sprites, w1.animated_sprites, j));
            }
            assert forall|j: int| 0 <= j < w1.alive.len() implies #[trigger] same_at(
                w2.respawn_points,
                w1.respawn_points,
                j,
            ) by {
                assert(same_at(wp.respawn_points, w1.respawn_points, j));
            }
            assert forall|j: int|
                j < w1.alive.len() && !(k1 <= j < k2 && hydration_resolves(w1, j)) implies #[trigger] same_at(
                w2.hydrated,
                w1.hydrated,
                j,
            ) by {
                if j == m {
                    assert(hydration_resolves(wp, m) <==> hydration_resolves(w1, m));
                    assert(false);
                } else {
                    assert(same_at(wp.hydrated, w1.hydrated, j));
                }
            }
            assert forall|j: int| j < k1 || k2 <= j implies #[trigger] same_at(
                w2.spawned,
                w1.spawned,
                j,
            ) by {
                assert(same_at(wp.spawned, w1.spawned, j));
            }
            assert forall|j: int|
                k1 <= j < k2 && #[trigger] hydration_resolves(w1, j) implies w2.hydrated.dom()
                    .contains(j) by {
                if j < k2 - 1 {
                    assert(wp.hydrated.dom().contains(j));
                } else {
                    assert(hydration_resolves(wp, j) <==> hydration_resolves(w1, j));
                }
            }
            assert forall|j: int| #[trigger] w2.element_handles.dom().contains(j) implies w1
                .element_handles.dom().contains(j) || (w1.alive.len() <= j < w2.alive.len()) by {
                if j != i {
                    assert(wp.element_handles.dom().contains(j));
                }
            }
            assert forall|j: int| #[trigger] w2.transforms.dom().contains(j) implies w1.transforms
                .dom().contains(j) || (w1.alive.len() <= j < w2.alive.len()) by {
                if j != i {
                    assert(wp.transforms.dom().contains(j));
                }
            }
            assert forall|j: int| #[trigger] w2.bodies.dom().contains(j) implies w1.bodies.dom()
                .contains(j) || (w1.alive.len() <= j < w2.alive.len()) by {
                if j != i {
                    assert(wp.bodies.dom().contains(j));
                }
            }
            assert forall|j: int| #[trigger] w2.bomb_metas.dom().contains(j) implies w1.bomb_metas
                .dom().contains(j) || (w1.alive.len() <= j < w2.alive.len()) by {
                if j != i {
                    assert(wp.bomb_metas.dom().contains(j));
                }
            }
            assert forall|j: int| #[trigger] w2.items.dom().contains(j) implies w1.items.dom()
                .contains(j) || (w1.alive.len() <= j < w2.alive.len()) by {
                if j != i {
                    assert(wp.items.dom().contains(j));
                }
            }
            assert forall|j: int| #[trigger] w2.item_throws.dom().contains(j) implies w1
                .item_throws.dom().contains(j) || (w1.alive.len() <= j < w2.alive.len()) by {
                if j != i {
                    assert(wp.item_throws.dom().contains(j));
                }
            }
            assert forall|j: int| #[trigger] w2.item_grabs.dom().contains(j) implies w1.item_grabs
                .dom().contains(j) || (w1.alive.len() <= j < w2.alive.len()) by {
                if j != i {
                    assert(wp.item_grabs.dom().contains(j));
                }
            }
            assert forall|j: int| #[trigger] w2.atlas_sprites.dom().contains(j) implies w1
                .atlas_sprites.dom().contains(j) || (w1.alive.len() <= j < w2.alive.len()) by {
                if j != i {
                    assert(wp.atlas_sprites.dom().contains(j));
                }
            }
            assert forall|j: int| #[trigger] w2.animated_sprites.dom().contains(j) implies w1
                .animated_sprites.dom().contains(j) || (w1.alive.len() <= j < w2.alive.len()) by {
                if j != i {
                    assert(wp.animated_sprites.dom().contains(j));
                }
            }
            assert forall|j: int| #[trigger] w2.respawn_points.dom().contains(j) implies w1
                .respawn_points.dom().contains(j) || (w1.alive.len() <= j < w2.alive.len()) by {
                if j != i {
                    assert(wp.respawn_points.dom().contains(j));
                }
            }
            assert forall|j: int| #[trigger] w2.hydrated.dom().contains(j) implies w1.hydrated
                .dom().contains(j) || (0 <= j < w2.alive.len()) by {
                if j != i && j != m {
                    assert(wp.hydrated.dom().contains(j));
                }
            }
            assert forall|j: int| #[trigger] w2.spawned.dom().contains(j) implies w1.spawned.dom()
                .contains(j) || (0 <= j < w1.alive.len()) by {
                if j != m {
                    assert(wp.spawned.dom().contains(j));
                }
            }
            assert forall|j: int|
                w1.alive.len() <= j < w2.alive.len() implies #[trigger] w2.instance_ok(j) by {
                if j < wp.alive.len() {
                    assert(wp.instance_ok(j));
                }
            }
            assert forall|j: int| k2 <= j implies (#[trigger] hydration_resolves(w2, j)
                <==> hydration_resolves(w1, j)) by {
                assert(hydration_resolves(wp, j) <==> hydration_resolves(w1, j));
                if j == i {
                    assert(w2.hydrated.dom().contains(j));
                    assert(!hydration_resolves(w2, j));
                    assert(!(j < wp.alive.len()));
                    assert(!hydration_resolves(wp, j));
                } else if j > i {
                    assert(!(j < w2.alive.len()));
                    assert(!hydration_resolves(w2, j));
                    assert(!hydration_resolves(wp, j));
                } else {
                    assert(same_at(w2.hydrated, wp.hydrated, j));
                    assert(same_at(w2.element_handles, wp.element_handles, j));
                    assert(same_at(w2.transforms, wp.transforms, j));
                }
            }
        } else {
            assert(w2 == wp);
            assert forall|j: int|
                k1 <= j < k2 && #[trigger] hydration_resolves(w1, j) implies w2.hydrated.dom()
                    .contains(j) by {
                if j == k2 - 1 {
                    assert(hydration_resolves(wp, j) <==> hydration_resolves(w1, j));
                }
            }
        }
    }
}

/// After the hydration pass, no marker is both eligible and resolvable: the
/// pass is exhaustive, so nothing is left for a second run.
pub proof fn lemma_hydrate_exhaustive(v: SessionView)
    ensures
        forall|m: int| !#[trigger] hydration_resolves(spec_hydrate(v), m),
{
    lemma_hydrate_upto_persists(v, 0, v.alive.len());
    let w = spec_hydrate(v);
    assert forall|m: int| !#[trigger] hydration_resolves(w, m) by {
        if 0 <= m < v.alive.len() {
            if hydration_resolves(v, m) {
                assert(w.hydrated.dom().contains(m));
            } else {
                assert(same_at(w.hydrated, v.hydrated, m));
                assert(same_at(w.element_handles, v.element_handles, m));
                assert(same_at(w.transforms, v.transforms, m));
            }
        } else if v.alive.len() <= m < w.alive.len() {
            assert(w.hydrated.dom().contains(m));
        }
    }
}

/// On a world with nothing both eligible and resolvable, the hydration pass
/// is a no-op.
pub proof fn lemma_hydrate_noop_upto(v: SessionView, k: nat)
    requires
        forall|m: int| !#[trigger] hydration_resolves(v, m),
    ensures
        spec_hydrate_upto(v, k) == v,
    decreases k,
{
    if k > 0 {
        lemma_hydrate_noop_upto(v, (k - 1) as nat);
    }
}

/// Idempotent hydration: running the hydration pass twice on an unchanged
/// world is the same as running it once — the second run is a no-op, and in
/// particular creates no second runtime instance for any marker.
pub proof fn lemma_hydration_idempotent(v: SessionView)
    ensures
        spec_hydrate(spec_hydrate(v)) == spec_hydrate(v),
{
    lemma_hydrate_exhaustive(v);
    lemma_hydrate_noop_upto(spec_hydrate(v), spec_hydrate(v).alive.len());
}

/// The runtime instance that hydrating marker `m` creates: the identifier
/// allocated right after the markers before `m` have been processed.
pub open spec fn hydrated_instance_of(v: SessionView, m: int) -> Entity {
    Entity { idx: spec_hydrate_upto(v, m as nat).alive.len() as usize }
}

/// Respawn identity: hydrating a world in which marker `m` is un-hydrated
/// and resolvable spawns exactly one fresh instance for `m` — the spawner
/// table maps `m` to that one instance — and the instance is live, idle (not
/// lit), at the marker's original transform, with a fresh default body at
/// zero velocity, the resolved metadata, and the back-reference to `m`.
pub proof fn lemma_respawn_fresh_instance(v: SessionView, m: int)
    requires
        0 <= m < v.alive.len(),
        hydration_resolves(v, m),
        crate::session::dom_bounded(v.lit_bombs, v.alive.len() as int),
        // the identifier space of a real session cannot overflow
        v.alive.len() + v.alive.len() <= usize::MAX,
    ensures
        ({
            let w = spec_hydrate(v);
            let meta = kick_bomb_meta_of(v.assets, v.element_handles[m]);
            let inst = hydrated_instance_of(v, m);
            let i = inst.idx as int;
            &&& w.hydrated.dom().contains(m)
            &&& w.spawned.dom().contains(m)
            &&& w.spawned[m] == seq![inst]
            &&& v.alive.len() <= i < w.alive.len()
            &&& w.is_alive(i)
            &&& w.idle_bombs.dom().contains(i)
            &&& !w.lit_bombs.dom().contains(i)
            &&& w.transforms.dom().contains(i)
            &&& w.transforms[i] == v.transforms[m]
            &&& w.bodies.dom().contains(i)
            &&& w.bodies[i] == body_from_meta(meta, v.gravity)
            &&& w.bodies[i].velocity_x == 0
            &&& w.bodies[i].velocity_y == 0
            &&& w.bomb_metas.dom().contains(i)
            &&& w.bomb_metas[i] == meta
            &&& w.respawn_points.dom().contains(i)
            &&& w.respawn_points[i] == DehydrateOutOfBounds(Entity { idx: m as usize })
            &&& w.hydrated.dom().contains(i)
        }),
{
    let n = v.alive.len();
    lemma_hydrate_upto_persists(v, 0, m as nat);
    let wm = spec_hydrate_upto(v, m as nat);
    assert(hydration_resolves(wm, m));
    assert(same_at(wm.element_handles, v.element_handles, m));
    assert(same_at(wm.transforms, v.transforms, m));
    let wm1 = spec_hydrate_upto(v, (m + 1) as nat);
    assert(wm1 == spec_hydrate_step(wm, m));
    lemma_hydrate_upto_persists(v, (m + 1) as nat, n);
    let w = spec_hydrate(v);
    let inst = hydrated_instance_of(v, m);
    let i = inst.idx as int;
    assert(same_at(w.spawned, wm1.spawned, m));
    assert(same_at(w.idle_bombs, wm1.idle_bombs, i));
    assert(same_at(w.transforms, wm1.transforms, i));
    assert(same_at(w.bodies, wm1.bodies, i));
    assert(same_at(w.bomb_metas, wm1.bomb_metas, i));
    assert(same_at(w.respawn_points, wm1.respawn_points, i));
    assert(w.lit_bombs == v.lit_bombs);
}

/// What the flush makes of one explosion sequence: the marker's hydrated
/// flag is cleared (enabling respawn), the bomb entity is destroyed, the
/// sound and the camera shake reach their sinks, and exactly two entities
/// are created — one carrying the damage region, one the cosmetic
/// animation, each at the explosion transform with its own lifetime.
pub proof fn lemma_explosion_block_applied(
    v: SessionView,
    e: int,
    spawner: Entity,
    t: Transform,
    meta: KickBombMeta,
)
    requires
        // the identifier space of a real session fits the machine
        v.alive.len() <= usize::MAX,
    ensures
        ({
            let block = spec_explosion_commands(e, spawner, t, meta);
            let w = spec_apply_upto(v, block, block.len());
            let region = v.alive.len() as int;
            let visual = v.alive.len() + 1;
            &&& w.hydrated == v.hydrated.remove(spawner.idx as int)
            &&& !w.hydrated.dom().contains(spawner.idx as int)
            &&& w.alive.len() == v.alive.len() + 2
            &&& 0 <= e < v.alive.len() ==> !w.is_alive(e)
            &&& w.audio_events == v.audio_events.push(
                AudioEvent { sound: meta.explosion_sound, volume: meta.explosion_volume },
            )
            &&& w.trauma_events == v.trauma_events.push(EXPLOSION_TRAUMA_TENTHS)
            &&& w.damage_regions == v.damage_regions.insert(
                region,
                DamageRegion { width: meta.damage_region_width, height: meta.damage_region_height },
            )
            &&& w.transforms[region] == spec_explosion_transform(t)
            &&& w.lifetimes[region] == Lifetime(meta.damage_region_lifetime)
            &&& w.is_alive(region)
            &&& w.atlas_sprites[visual as int] == (AtlasSprite {
                atlas: meta.explosion_atlas,
                flip_x: false,
            })
            &&& w.animated_sprites[visual as int] == (AnimatedSprite {
                frame_start: 0,
                frame_count: meta.explosion_frames,
                fps: meta.explosion_fps,
                repeat: false,
            })
            &&& w.transforms[visual as int] == spec_explosion_transform(t)
            &&& w.lifetimes[visual as int] == Lifetime(meta.explosion_lifetime)
            &&& w.is_alive(visual as int)
            &&& w.idle_bombs == v.idle_bombs
            &&& w.lit_bombs == v.lit_bombs
        }),
{
    let block = spec_explosion_commands(e, spawner, t, meta);
    assert(block.len() == 6);
    let w = spec_apply_upto(v, block, block.len());
    assert(w == spec_apply(
        spec_apply(
            spec_apply(
                spec_apply(
                    spec_apply(spec_apply(spec_apply_upto(v, block, 0), block[0]), block[1]),
                    block[2],
                ),
                block[3],
            ),
            block[4],
        ),
        block[5],
    )) by {
        reveal_with_fuel(spec_apply_upto, 8);
    }
}

/// No entity carries both the idle and the lit marker.
pub open spec fn mutually_exclusive(v: SessionView) -> bool {
    forall|e: int| !(#[trigger] v.idle_bombs.dom().contains(e) && v.lit_bombs.dom().contains(e))
}

/// Every idle-to-lit swap pending on the bus targets an allocated entity.
pub open spec fn swap_targets_bounded(cs: Seq<Command>, n: int) -> bool {
    forall|k: int|
        0 <= k < cs.len() ==> (#[trigger] cs[k] matches Command::SwapIdleToLit { entity, .. }
            ==> entity.idx < n)
}

/// The tick invariant that carries mutual exclusion: no entity is both idle
/// and lit, the idle and lit stores name only allocated entities, and every
/// pending swap targets an allocated entity.
pub open spec fn tick_inv(v: SessionView) -> bool {
    &&& mutually_exclusive(v)
    &&& dom_bounded(v.idle_bombs, v.alive.len() as int)
    &&& dom_bounded(v.lit_bombs, v.alive.len() as int)
    &&& swap_targets_bounded(v.commands, v.alive.len() as int)
}

/// The hydration pass preserves the tick invariant: new instances are
/// fresh, so they are idle and not lit.
pub proof fn lemma_hydrate_preserves_inv(v: SessionView)
    requires
        tick_inv(v),
    ensures
        tick_inv(spec_hydrate(v)),
        spec_hydrate(v).commands == v.commands,
        v.alive.len() <= spec_hydrate(v).alive.len(),
{
    lemma_hydrate_upto_persists(v, 0, v.alive.len());
    let w = spec_hydrate(v);
    assert forall|e: int| !(#[trigger] w.idle_bombs.dom().contains(e) && w.lit_bombs.dom().contains(
        e,
    )) by {
        if w.idle_bombs.dom().contains(e) && w.lit_bombs.dom().contains(e) {
            assert(w.lit_bombs == v.lit_bombs);
            assert(e < v.alive.len());
            assert(same_at(w.idle_bombs, v.idle_bombs, e));
        }
    }
    assert forall|e: int| #[trigger] w.idle_bombs.dom().contains(e) implies 0 <= e
        < w.alive.len() by {
        if e < v.alive.len() {
            assert(same_at(w.idle_bombs, v.idle_bombs, e));
        }
    }
}

/// A deferred idle-to-lit swap whose target is an allocated entity.
pub open spec fn is_bounded_swap(c: Command, n: int) -> bool {
    c matches Command::SwapIdleToLit { entity, .. } && entity.idx < n
}

/// What the idle pass preserves: the entity registry and the idle and lit
/// stores are untouched (the swap is deferred); it writes only the burning
/// animation (on allocated entities), clears used triggers, plays sounds;
/// the bus keeps its prefix and gains only idle-to-lit swaps of allocated
/// entities.
pub proof fn lemma_idle_upto_frame(v: SessionView, k: nat)
    ensures
        ({
            let w = spec_idle_upto(v, k);
            &&& w.alive == v.alive
            &&& w.idle_bombs == v.idle_bombs
            &&& w.lit_bombs == v.lit_bombs
            &&& w.assets == v.assets
            &&& w.gravity == v.gravity
            &&& w.element_handles == v.element_handles
            &&& w.hydrated == v.hydrated
            &&& w.transforms == v.transforms
            &&& w.bodies == v.bodies
            &&& w.bomb_metas == v.bomb_metas
            &&& w.items == v.items
            &&& w.item_throws == v.item_throws
            &&& w.item_grabs == v.item_grabs
            &&& w.atlas_sprites == v.atlas_sprites
            &&& w.respawn_points == v.respawn_points
            &&& w.player_indexes == v.player_indexes
            &&& w.inventories == v.inventories
            &&& w.invincibles == v.invincibles
            &&& w.player_layers == v.player_layers
            &&& w.attachments == v.attachments
            &&& w.damage_regions == v.damage_regions
            &&& w.lifetimes == v.lifetimes
            &&& w.cameras == v.cameras
            &&& w.spawned == v.spawned
            &&& w.trauma_events == v.trauma_events
            &&& w.pre_update == v.pre_update
            &&& w.post_update == v.post_update
            &&& grows_within(v.animated_sprites, w.animated_sprites, 0, v.alive.len() as int)
            &&& forall|j: int|
                v.animated_sprites.dom().contains(j) ==> #[trigger] w.animated_sprites.dom()
                    .contains(j)
            &&& forall|j: int| #[trigger]
                w.items_used.dom().contains(j) ==> v.items_used.dom().contains(j)
            &&& v.commands.len() <= w.commands.len()
            &&& forall|j: int| 0 <= j < v.commands.len() ==> w.commands[j] == v.commands[j]
            &&& forall|j: int|
                v.commands.len() <= j < w.commands.len() ==> is_bounded_swap(
                    #[trigger] w.commands[j],
                    v.alive.len() as int,
                )
            &&& v.alive.len() <= usize::MAX ==> forall|j: int|
                v.commands.len() <= j < w.commands.len() ==> (#[trigger] w.commands[j] matches Command::SwapIdleToLit {
                    entity,
                    ..
                } ==> v.idle_bombs.dom().contains(entity.idx as int) && v.is_alive(
                    entity.idx as int,
                ))
        }),
    decreases k,
{
    if k > 0 {
        lemma_idle_upto_frame(v, (k - 1) as nat);
    }
}

/// What the lit pass preserves: the entity registry and the idle store are
/// untouched; the lit store keeps its domain (only timer values change, and
/// their well-formedness is kept); bodies, layers and attachments are
/// written only on allocated entities; the bus keeps its prefix and gains no
/// idle-to-lit swap — only explosion effects.
pub proof fn lemma_lit_upto_frame(v: SessionView, input: TickInput, k: nat)
    ensures
        ({
            let w = spec_lit_upto(v, input, k);
            &&& w.alive == v.alive
            &&& w.idle_bombs == v.idle_bombs
            &&& w.assets == v.assets
            &&& w.gravity == v.gravity
            &&& w.element_handles == v.element_handles
            &&& w.hydrated == v.hydrated
            &&& w.transforms == v.transforms
            &&& w.bomb_metas == v.bomb_metas
            &&& w.items == v.items
            &&& w.item_throws == v.item_throws
            &&& w.item_grabs == v.item_grabs
            &&& w.atlas_sprites == v.atlas_sprites
            &&& w.animated_sprites == v.animated_sprites
            &&& w.respawn_points == v.respawn_points
            &&& w.player_indexes == v.player_indexes
            &&& w.inventories == v.inventories
            &&& w.invincibles == v.invincibles
            &&& w.damage_regions == v.damage_regions
            &&& w.lifetimes == v.lifetimes
            &&& w.cameras == v.cameras
            &&& w.spawned == v.spawned
            &&& w.items_used == v.items_used
            &&& w.audio_events == v.audio_events
            &&& w.trauma_events == v.trauma_events
            &&& w.pre_update == v.pre_update
            &&& w.post_update == v.post_update
            &&& grows_within(v.bodies, w.bodies, 0, v.alive.len() as int)
            &&& grows_within(v.player_layers, w.player_layers, 0, v.alive.len() as int)
            &&& grows_within(v.attachments, w.attachments, 0, v.alive.len() as int)
            &&& forall|j: int|
                v.bodies.dom().contains(j) ==> #[trigger] w.bodies.dom().contains(j)
            &&& forall|j: int|
                v.player_layers.dom().contains(j) ==> #[trigger] w.player_layers.dom().contains(j)
            &&& forall|j: int|
                v.attachments.dom().contains(j) ==> #[trigger] w.attachments.dom().contains(j)
            &&& forall|j: int|
                #[trigger] w.lit_bombs.dom().contains(j) && v.lit_bombs[j].arm_delay.wf()
                    && v.lit_bombs[j].fuse_time.wf() ==> w.lit_bombs[j].arm_delay.wf()
                    && w.lit_bombs[j].fuse_time.wf()
            &&& forall|j: int| #[trigger]
                w.lit_bombs.dom().contains(j) <==> v.lit_bombs.dom().contains(j)
            &&& forall|j: int|
                #[trigger] w.lit_bombs.dom().contains(j)
                    && v.lit_bombs[j].fuse_time.spec_finished()
                    ==> w.lit_bombs[j].fuse_time.spec_finished()
            &&& forall|j: int|
                #[trigger] w.lit_bombs.dom().contains(j)
                    && v.lit_bombs[j].arm_delay.spec_finished()
                    ==> w.lit_bombs[j].arm_delay.spec_finished()
            &&& v.commands.len() <= w.commands.len()
            &&& forall|j: int| 0 <= j < v.commands.len() ==> w.commands[j] == v.commands[j]
            &&& forall|j: int|
                v.commands.len() <= j < w.commands.len() ==> !(#[trigger] w.commands[j]
                    is SwapIdleToLit)
        }),
    decreases k,
{
    if k > 0 {
        lemma_lit_upto_frame(v, input, (k - 1) as nat);
    }
}

/// The command bus flush preserves mutual exclusion and the store bounds:
/// a swap removes idle before inserting lit, spawns create fresh entities
/// with neither marker, and nothing else touches the two stores.
pub proof fn lemma_apply_upto_preserves_inv(v: SessionView, cs: Seq<Command>, k: nat)
    requires
        k <= cs.len(),
        mutually_exclusive(v),
        dom_bounded(v.idle_bombs, v.alive.len() as int),
        dom_bounded(v.lit_bombs, v.alive.len() as int),
        swap_targets_bounded(cs, v.alive.len() as int),
    ensures
        ({
            let w = spec_apply_upto(v, cs, k);
            &&& mutually_exclusive(w)
            &&& dom_bounded(w.idle_bombs, w.alive.len() as int)
            &&& dom_bounded(w.lit_bombs, w.alive.len() as int)
            &&& v.alive.len() <= w.alive.len()
        }),
    decreases k,
{
    if k > 0 {
        lemma_apply_upto_preserves_inv(v, cs, (k - 1) as nat);
        let wp = spec_apply_upto(v, cs, (k - 1) as nat);
        let w = spec_apply_upto(v, cs, k);
        let c = cs[k - 1];
        match c {
            Command::SwapIdleToLit { entity, .. } => {
                let t = entity.idx as int;
                assert(t < v.alive.len());
                assert forall|e: int| !(#[trigger] w.idle_bombs.dom().contains(e)
                    && w.lit_bombs.dom().contains(e)) by {
                    if e != t {
                        assert(!(wp.idle_bombs.dom().contains(e) && wp.lit_bombs.dom().contains(
                            e,
                        )));
                    }
                }
            },
            _ => {},
        }
    }
}

/// Every system of the kick-bomb element preserves the tick invariant, and
/// the entity space only grows.
pub proof fn lemma_run_system_preserves_inv(
    v: SessionView,
    id: crate::session::SystemId,
    input: TickInput,
)
    requires
        tick_inv(v),
    ensures
        tick_inv(crate::session::spec_run_system(v, id, input)),
        v.alive.len() <= crate::session::spec_run_system(v, id, input).alive.len(),
{
    let w = crate::session::spec_run_system(v, id, input);
    match id {
        crate::session::SystemId::Hydrate => {
            lemma_hydrate_preserves_inv(v);
        },
        crate::session::SystemId::UpdateIdleKickBombs => {
            lemma_idle_upto_frame(v, v.alive.len());
            assert forall|j: int|
                0 <= j < w.commands.len() implies (#[trigger] w.commands[j] matches Command::SwapIdleToLit {
                entity,
                ..
            } ==> entity.idx < w.alive.len()) by {
                if j < v.commands.len() {
                    assert(w.commands[j] == v.commands[j]);
                } else {
                    assert(is_bounded_swap(w.commands[j], v.alive.len() as int));
                }
            }
        },
        crate::session::SystemId::UpdateLitKickBombs => {
            lemma_lit_upto_frame(v, input, v.alive.len());
            assert forall|j: int|
                0 <= j < w.commands.len() implies (#[trigger] w.commands[j] matches Command::SwapIdleToLit {
                entity,
                ..
            } ==> entity.idx < w.alive.len()) by {
                if j < v.commands.len() {
                    assert(w.commands[j] == v.commands[j]);
                } else {
                    assert(!(w.commands[j] is SwapIdleToLit));
                }
            }
            assert forall|e: int| #[trigger] w.lit_bombs.dom().contains(e) implies 0 <= e
                < w.alive.len() by {
                assert(v.lit_bombs.dom().contains(e));
            }
            assert forall|e: int| !(#[trigger] w.idle_bombs.dom().contains(e)
                && w.lit_bombs.dom().contains(e)) by {
                assert(w.lit_bombs.dom().contains(e) ==> v.lit_bombs.dom().contains(e));
            }
        },
    }
}

/// A whole stage preserves the tick invariant.
pub proof fn lemma_run_upto_preserves_inv(
    v: SessionView,
    ids: Seq<crate::session::SystemId>,
    input: TickInput,
    k: nat,
)
    requires
        tick_inv(v),
    ensures
        tick_inv(crate::session::spec_run_upto(v, ids, input, k)),
        v.alive.len() <= crate::session::spec_run_upto(v, ids, input, k).alive.len(),
    decreases k,
{
    if k > 0 {
        lemma_run_upto_preserves_inv(v, ids, input, (k - 1) as nat);
        lemma_run_system_preserves_inv(
            crate::session::spec_run_upto(v, ids, input, (k - 1) as nat),
            ids[k - 1],
            input,
        );
    }
}

/// The flush never edits the lit state of an entity that no pending swap
/// targets: only an idle-to-lit swap writes the lit store.
pub proof fn lemma_apply_upto_lit_at(v: SessionView, cs: Seq<Command>, k: nat, e: int)
    requires
        k <= cs.len(),
        forall|i: int|
            0 <= i < cs.len() ==> (#[trigger] cs[i] matches Command::SwapIdleToLit { entity, .. }
                ==> entity.idx as int != e),
    ensures
        same_at(spec_apply_upto(v, cs, k).lit_bombs, v.lit_bombs, e),
    decreases k,
{
    if k > 0 {
        lemma_apply_upto_lit_at(v, cs, (k - 1) as nat, e);
    }
}

/// Timer monotonicity across whole ticks: on a session with the kick-bomb
/// schedule installed, once a lit bomb's fuse or arm delay has finished it
/// stays finished through every further tick, until the entity is
/// destroyed. (Destruction removes the whole lit state; nothing else ever
/// rewinds a clock.)
pub proof fn lemma_finished_stays_finished_over_tick(v: SessionView, input: TickInput, e: int)
    requires
        tick_inv(v),
        v.commands == Seq::<Command>::empty(),
        v.pre_update == seq![crate::session::SystemId::Hydrate],
        v.post_update == seq![
            crate::session::SystemId::UpdateIdleKickBombs,
            crate::session::SystemId::UpdateLitKickBombs,
        ],
        v.lit_bombs.dom().contains(e),
        // the identifier space of a real session cannot overflow
        v.alive.len() + v.alive.len() <= usize::MAX,
    ensures
        ({
            let w = crate::session::spec_session_tick(v, input);
            &&& w.lit_bombs.dom().contains(e)
            &&& v.lit_bombs[e].fuse_time.spec_finished()
                ==> w.lit_bombs[e].fuse_time.spec_finished()
            &&& v.lit_bombs[e].arm_delay.spec_finished()
                ==> w.lit_bombs[e].arm_delay.spec_finished()
        }),
{
    lemma_installed_tick_order(v, input);
    let w1 = spec_hydrate(v);
    lemma_hydrate_upto_persists(v, 0, v.alive.len());
    lemma_hydrate_preserves_inv(v);
    let w2 = crate::kick_bomb::spec_update_idle(w1);
    lemma_idle_upto_frame(w1, w1.alive.len());
    let w3 = crate::kick_bomb::spec_update_lit(w2, input);
    lemma_lit_upto_frame(w2, input, w2.alive.len());
    // the lit bomb is not idle when the idle pass runs, so no swap enqueued
    // this tick targets it
    assert(w1.lit_bombs == v.lit_bombs);
    assert(!w1.idle_bombs.dom().contains(e));
    assert(w1.alive.len() <= usize::MAX);
    assert(w1.commands == Seq::<Command>::empty());
    assert forall|i: int|
        0 <= i < w3.commands.len() implies (#[trigger] w3.commands[i] matches Command::SwapIdleToLit {
        entity,
        ..
    } ==> entity.idx as int != e) by {
        if i < w2.commands.len() {
            assert(w3.commands[i] == w2.commands[i]);
            match w2.commands[i] {
                Command::SwapIdleToLit { entity, .. } => {
                    assert(w1.idle_bombs.dom().contains(entity.idx as int));
                },
                _ => {},
            }
        } else {
            assert(!(w3.commands[i] is SwapIdleToLit));
        }
    }
    lemma_apply_upto_lit_at(w3, w3.commands, w3.commands.len(), e);
    assert(w2.lit_bombs == v.lit_bombs);
    assert(w3.lit_bombs.dom().contains(e));
    assert(same_at(
        spec_apply_upto(w3, w3.commands, w3.commands.len()).lit_bombs,
        w3.lit_bombs,
        e,
    ));
}

/// The installed schedule: one tick of a session with the kick-bomb
/// element installed runs hydration first, then the idle pass, then the lit
/// pass, then exactly one command flush — so a structural edit never
/// invalidates the pass that enqueued it, and new instances exist before
/// the state-machine passes run.
pub proof fn lemma_installed_tick_order(v: SessionView, input: TickInput)
    requires
        v.pre_update == seq![crate::session::SystemId::Hydrate],
        v.post_update == seq![
            crate::session::SystemId::UpdateIdleKickBombs,
            crate::session::SystemId::UpdateLitKickBombs,
        ],
    ensures
        crate::session::spec_session_tick(v, input) == crate::session::spec_flush(
            crate::kick_bomb::spec_update_lit(
                crate::kick_bomb::spec_update_idle(spec_hydrate(v)),
                input,
            ),
        ),
{
    lemma_hydrate_upto_persists(v, 0, v.alive.len());
    let v1 = crate::session::spec_run_upto(v, v.pre_update, input, v.pre_update.len());
    assert(v1 == spec_hydrate(v)) by {
        reveal_with_fuel(crate::session::spec_run_upto, 2);
    }
    assert(v1.post_update == v.post_update);
    let v2 = crate::session::spec_run_upto(v1, v1.post_update, input, v1.post_update.len());
    assert(v2 == crate::kick_bomb::spec_update_lit(
        crate::kick_bomb::spec_update_idle(spec_hydrate(v)),
        input,
    )) by {
        reveal_with_fuel(crate::session::spec_run_upto, 3);
    }
}

/// The hydration pass preserves session well-formedness: it creates only
/// complete, idle instances and touches nothing else.
pub proof fn lemma_hydrate_preserves_wf(v: SessionView)
    requires
        v.wf(),
    ensures
        spec_hydrate(v).wf(),
{
    lemma_hydrate_upto_persists(v, 0, v.alive.len());
    let w = spec_hydrate(v);
    assert forall|e: int| !(#[trigger] w.idle_bombs.dom().contains(e) && w.lit_bombs.dom().contains(
        e,
    )) by {
        if w.idle_bombs.dom().contains(e) && w.lit_bombs.dom().contains(e) {
            assert(w.lit_bombs == v.lit_bombs);
            assert(e < v.alive.len());
            assert(same_at(w.idle_bombs, v.idle_bombs, e));
        }
    }
    assert forall|e: int|
        w.is_alive(e) && #[trigger] w.idle_bombs.dom().contains(e) implies w.instance_ok(e) by {
        if e < v.alive.len() {
            assert(same_at(w.idle_bombs, v.idle_bombs, e));
            assert(v.is_alive(e));
            assert(v.instance_ok(e));
            assert(same_at(w.bomb_metas, v.bomb_metas, e));
            assert(same_at(w.bodies, v.bodies, e));
            assert(same_at(w.transforms, v.transforms, e));
            assert(same_at(w.respawn_points, v.respawn_points, e));
            assert(same_at(w.animated_sprites, v.animated_sprites, e));
            assert(same_at(w.atlas_sprites, v.atlas_sprites, e));
        } else {
            assert(w.instance_ok(e));
        }
    }
    assert forall|e: int|
        w.is_alive(e) && #[trigger] w.lit_bombs.dom().contains(e) implies w.instance_ok(e) by {
        assert(w.lit_bombs == v.lit_bombs);
        assert(e < v.alive.len());
        assert(v.is_alive(e));
        assert(v.instance_ok(e));
        assert(same_at(w.bomb_metas, v.bomb_metas, e));
        assert(same_at(w.bodies, v.bodies, e));
        assert(same_at(w.transforms, v.transforms, e));
        assert(same_at(w.respawn_points, v.respawn_points, e));
        assert(same_at(w.animated_sprites, v.animated_sprites, e));
        assert(same_at(w.atlas_sprites, v.atlas_sprites, e));
    }
    assert forall|p: int|
        w.is_alive(p) && #[trigger] w.player_indexes.dom().contains(p) implies w.player_ok(p) by {
        assert(w.player_indexes == v.player_indexes);
        assert(p < v.alive.len());
        assert(v.is_alive(p));
        assert(v.player_ok(p));
        assert(same_at(w.atlas_sprites, v.atlas_sprites, p));
        assert(same_at(w.transforms, v.transforms, p));
    }
}

/// Every pending swap targets an allocated entity that carries the full set
/// of instance components — as every swap the idle pass enqueues does.
pub open spec fn swaps_wf(v: SessionView, cs: Seq<Command>) -> bool {
    forall|i: int|
        0 <= i < cs.len() ==> (#[trigger] cs[i] matches Command::SwapIdleToLit { entity, .. }
            ==> entity.idx < v.alive.len() && v.instance_ok(entity.idx as int))
}

/// The command bus flush preserves session well-formedness, provided every
/// pending swap targets a complete instance. Instance and player components
/// are never removed by the flush, so the premise is stable through it.
pub proof fn lemma_apply_upto_preserves_wf(v: SessionView, cs: Seq<Command>, k: nat)
    requires
        k <= cs.len(),
        v.wf(),
        swaps_wf(v, cs),
    ensures
        ({
            let w = spec_apply_upto(v, cs, k);
            &&& w.wf()
            &&& v.alive.len() <= w.alive.len()
            &&& forall|j: int|
                v.bomb_metas.dom().contains(j) ==> #[trigger] w.bomb_metas.dom().contains(j)
            &&& forall|j: int| v.bodies.dom().contains(j) ==> #[trigger] w.bodies.dom().contains(j)
            &&& forall|j: int|
                v.transforms.dom().contains(j) ==> #[trigger] w.transforms.dom().contains(j)
            &&& forall|j: int|
                v.respawn_points.dom().contains(j) ==> #[trigger] w.respawn_points.dom().contains(
                    j,
                )
            &&& forall|j: int|
                v.animated_sprites.dom().contains(j) ==> #[trigger] w.animated_sprites.dom()
                    .contains(j)
            &&& forall|j: int|
                v.atlas_sprites.dom().contains(j) ==> #[trigger] w.atlas_sprites.dom().contains(j)
            &&& forall|j: int|
                v.player_layers.dom().contains(j) ==> #[trigger] w.player_layers.dom().contains(j)
            &&& w.player_indexes == v.player_indexes
        }),
    decreases k,
{
    if k > 0 {
        lemma_apply_upto_preserves_wf(v, cs, (k - 1) as nat);
        let wp = spec_apply_upto(v, cs, (k - 1) as nat);
        let w = spec_apply_upto(v, cs, k);
        match cs[k - 1] {
            Command::SwapIdleToLit { entity, .. } => {
                let t = entity.idx as int;
                assert(t < v.alive.len());
                assert(v.instance_ok(t));
                assert forall|e: int| !(#[trigger] w.idle_bombs.dom().contains(e)
                    && w.lit_bombs.dom().contains(e)) by {
                    if e != t {
                        assert(!(wp.idle_bombs.dom().contains(e) && wp.lit_bombs.dom().contains(
                            e,
                        )));
                    }
                }
                assert forall|e: int|
                    w.is_alive(e) && #[trigger] w.lit_bombs.dom().contains(e) implies w.instance_ok(
                    e,
                ) by {
                    if e != t {
                        assert(wp.lit_bombs.dom().contains(e));
                        assert(wp.instance_ok(e));
                    }
                }
            },
            _ => {},
        }
    }
}

/// A whole tick of a session with the kick-bomb schedule installed
/// preserves session well-formedness, and leaves the bus empty again:
/// hydration creates only complete instances, the passes defer their
/// structural edits, and the flush swaps only entities the idle pass saw as
/// complete idle instances.
pub proof fn lemma_tick_preserves_wf(v: SessionView, input: TickInput)
    requires
        v.wf(),
        v.commands == Seq::<Command>::empty(),
        v.pre_update == seq![crate::session::SystemId::Hydrate],
        v.post_update == seq![
            crate::session::SystemId::UpdateIdleKickBombs,
            crate::session::SystemId::UpdateLitKickBombs,
        ],
        // the identifier space of a real session cannot overflow
        v.alive.len() + v.alive.len() <= usize::MAX,
    ensures
        crate::session::spec_session_tick(v, input).wf(),
        crate::session::spec_session_tick(v, input).commands == Seq::<Command>::empty(),
{
    lemma_installed_tick_order(v, input);
    let w1 = spec_hydrate(v);
    lemma_hydrate_upto_persists(v, 0, v.alive.len());
    lemma_hydrate_preserves_wf(v);
    assert(w1.commands == Seq::<Command>::empty());
    assert(w1.alive.len() <= usize::MAX);

    let w2 = crate::kick_bomb::spec_update_idle(w1);
    lemma_idle_upto_frame(w1, w1.alive.len());
    assert(w2.wf()) by {
        assert forall|e: int|
            w2.is_alive(e) && #[trigger] w2.idle_bombs.dom().contains(e) implies w2.instance_ok(
            e,
        ) by {
            assert(w1.instance_ok(e));
        }
        assert forall|e: int|
            w2.is_alive(e) && #[trigger] w2.lit_bombs.dom().contains(e) implies w2.instance_ok(
            e,
        ) by {
            assert(w1.instance_ok(e));
        }
    }

    let w3 = crate::kick_bomb::spec_update_lit(w2, input);
    lemma_lit_upto_frame(w2, input, w2.alive.len());
    assert(w3.wf()) by {
        assert forall|e: int|
            w3.is_alive(e) && #[trigger] w3.idle_bombs.dom().contains(e) implies w3.instance_ok(
            e,
        ) by {
            assert(w2.instance_ok(e));
        }
        assert forall|e: int|
            w3.is_alive(e) && #[trigger] w3.lit_bombs.dom().contains(e) implies w3.instance_ok(
            e,
        ) by {
            assert(w2.lit_bombs.dom().contains(e));
            assert(w2.instance_ok(e));
        }
        assert forall|p: int|
            w3.is_alive(p) && #[trigger] w3.player_indexes.dom().contains(p) implies w3.player_ok(
            p,
        ) by {
            assert(w2.player_ok(p));
        }
    }

    // every pending swap was enqueued by the idle pass on a live, complete
    // idle instance, and the lit pass appended no swap
    assert(swaps_wf(w3, w3.commands)) by {
        assert forall|i: int|
            0 <= i < w3.commands.len() implies (#[trigger] w3.commands[i] matches Command::SwapIdleToLit {
            entity,
            ..
        } ==> entity.idx < w3.alive.len() && w3.instance_ok(entity.idx as int)) by {
            if i < w2.commands.len() {
                assert(w3.commands[i] == w2.commands[i]);
                match w2.commands[i] {
                    Command::SwapIdleToLit { entity, .. } => {
                        let t = entity.idx as int;
                        assert(w1.idle_bombs.dom().contains(t) && w1.is_alive(t));
                        assert(w1.instance_ok(t));
                    },
                    _ => {},
                }
            } else {
                assert(!(w3.commands[i] is SwapIdleToLit));
            }
        }
    }
    lemma_apply_upto_preserves_wf(w3, w3.commands, w3.commands.len());
}

/// Mutual exclusion at every tick boundary: a session satisfying the tick
/// invariant with an empty bus — as a fresh session does, and as every tick
/// leaves it — satisfies both again after a full tick. No entity ever
/// carries both `IdleKickBomb` and `LitKickBomb` at a tick boundary.
pub proof fn lemma_tick_mutual_exclusion(v: SessionView, input: TickInput)
    requires
        tick_inv(v),
        v.commands == Seq::<Command>::empty(),
    ensures
        tick_inv(crate::session::spec_session_tick(v, input)),
        crate::session::spec_session_tick(v, input).commands == Seq::<Command>::empty(),
        mutually_exclusive(crate::session::spec_session_tick(v, input)),
{
    let v1 = crate::session::spec_run_upto(v, v.pre_update, input, v.pre_update.len());
    lemma_run_upto_preserves_inv(v, v.pre_update, input, v.pre_update.len());
    let v2 = crate::session::spec_run_upto(v1, v1.post_update, input, v1.post_update.len());
    lemma_run_upto_preserves_inv(v1, v1.post_update, input, v1.post_update.len());
    lemma_apply_upto_preserves_inv(v2, v2.commands, v2.commands.len());
}

} // verus!
