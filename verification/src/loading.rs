//! Initial game-loading decisions: whether the core assets a menu load
//! needs have all resolved, and whether a load run may be skipped. The
//! asset I/O itself stays with the host loop; it hands these functions its
//! observed load state.

use vstd::prelude::*;

verus! {

/// Marker for the game-loading stage: the host registers the load and
/// hot-reload runs around the decisions of this module.
#[derive(Clone, Copy, Debug, PartialEq, Eq, Structural)]
pub struct JumpyLoadingPlugin;

/// Component added to the entities used to collect player input. The inner
/// `usize` is the player index. One collector exists per possible player,
/// so input reaches players that have not spawned yet.
#[derive(Clone, Copy, Debug, PartialEq, Eq, Structural)]
pub struct PlayerInputCollector(pub usize);

/// Which of one player's assets have resolved: the player metadata and the
/// three atlas layers the select screen draws.
#[derive(Clone, Copy, Debug, PartialEq, Eq, Structural)]
pub struct PlayerAssetStatus {
    pub meta_loaded: bool,
    pub body_atlas_loaded: bool,
    pub fin_atlas_loaded: bool,
    pub face_atlas_loaded: bool,
}

/// The observed load state of everything the menu load needs immediately;
/// the remaining assets keep loading in the background.
#[derive(Clone, Debug)]
pub struct CoreLoadState {
    pub game_loaded: bool,
    pub core_loaded: bool,
    pub players: Vec<PlayerAssetStatus>,
    pub tilesets_loaded: Vec<bool>,
    pub hats_loaded: Vec<bool>,
}

/// All four assets of one player have resolved.
pub open spec fn player_assets_ok(p: PlayerAssetStatus) -> bool {
    p.meta_loaded && p.body_atlas_loaded && p.fin_atlas_loaded && p.face_atlas_loaded
}

/// Whether every core asset has resolved: the game and core metadata, every
/// player's metadata and atlases, every map tileset, and every hat.
pub open spec fn spec_core_assets_loaded(s: CoreLoadState) -> bool {
    &&& s.game_loaded
    &&& s.core_loaded
    &&& forall|i: int| 0 <= i < s.players@.len() ==> player_assets_ok(#[trigger] s.players@[i])
    &&& forall|i: int| 0 <= i < s.tilesets_loaded@.len() ==> #[trigger] s.tilesets_loaded@[i]
    &&& forall|i: int| 0 <= i < s.hats_loaded@.len() ==> #[trigger] s.hats_loaded@[i]
}

/// Run criterion that waits until the core assets a menu load needs have
/// resolved. Returns true exactly when nothing is still pending.
pub fn core_assets_loaded(s: &CoreLoadState) -> (r: bool)
    ensures
        r == spec_core_assets_loaded(*s),
{
    if !s.game_loaded || !s.core_loaded {
        return false;
    }
    let n_players = s.players.len();
    for i in 0..n_players
        invariant
            n_players == s.players@.len(),
            forall|j: int| 0 <= j < i ==> player_assets_ok(#[trigger] s.players@[j]),
    {
        let p = s.players[i];
        if !(p.meta_loaded && p.body_atlas_loaded && p.fin_atlas_loaded && p.face_atlas_loaded) {
            return false;
        }
    }
    let n_tilesets = s.tilesets_loaded.len();
    for i in 0..n_tilesets
        invariant
            n_tilesets == s.tilesets_loaded@.len(),
            forall|j: int| 0 <= j < i ==> #[trigger] s.tilesets_loaded@[j],
    {
        if !s.tilesets_loaded[i] {
            return false;
        }
    }
    let n_hats = s.hats_loaded.len();
    for i in 0..n_hats
        invariant
            n_hats == s.hats_loaded@.len(),
            forall|j: int| 0 <= j < i ==> #[trigger] s.hats_loaded@[j],
    {
        if !s.hats_loaded[i] {
            return false;
        }
    }
    true
}

/// An asset event the hot-reload check reads.
#[derive(Clone, Copy, Debug, PartialEq, Eq, Structural)]
pub enum GameAssetEvent {
    Created,
    Modified,
    Removed,
}

/// How many of the events report a modified asset.
pub open spec fn modified_count(s: Seq<GameAssetEvent>) -> nat
    decreases s.len(),
{
    if s.len() == 0 {
        0
    } else {
        modified_count(s.drop_last()) + (if s.last() is Modified {
            1nat
        } else {
            0nat
        })
    }
}

/// The load/hot-reload driver state the loading decisions read. The asset
/// tables and UI handles stay with the host loop.
pub struct GameLoader {
    /// Set when the loader itself modified the game asset, so that the next
    /// asset-modified event must not trigger another reload.
    pub skip_next_asset_update_event: bool,
}

impl GameLoader {
    /// Whether a load run should be skipped: an initial load never is; a
    /// hot-reload run is skipped unless a modified-asset event arrived that
    /// the skip flag does not consume. The flag consumes exactly one
    /// modified event and is cleared by it.
    pub fn should_skip_run(&mut self, is_hot_reload: bool, events: &Vec<GameAssetEvent>) -> (r:
        bool)
        ensures
            ({
                let c = modified_count(events@);
                let threshold: nat = if old(self).skip_next_asset_update_event {
                    2
                } else {
                    1
                };
                &&& is_hot_reload ==> r == (c < threshold)
                &&& is_hot_reload ==> final(self).skip_next_asset_update_event == (old(
                    self,
                ).skip_next_asset_update_event && c == 0)
                &&& !is_hot_reload ==> r == false && *final(self) == *old(self)
            }),
    {
        if is_hot_reload {
            let ghost flag0 = self.skip_next_asset_update_event;
            let mut has_update = false;
            let n = events.len();
            for i in 0..n
                invariant
                    n == events@.len(),
                    self.skip_next_asset_update_event == (flag0 && modified_count(
                        events@.take(i as int),
                    ) == 0),
                    has_update == (modified_count(events@.take(i as int)) >= (if flag0 {
                        2nat
                    } else {
                        1nat
                    })),
            {
                let is_modified = match events[i] {
                    GameAssetEvent::Modified => true,
                    _ => false,
                };
                if is_modified {
                    if self.skip_next_asset_update_event {
                        self.skip_next_asset_update_event = false;
                    } else {
                        has_update = true;
                    }
                }
                proof {
                    assert(events@.take(i + 1).drop_last() =~= events@.take(i as int));
                    assert(events@.take(i + 1).last() == events@[i as int]);
                }
            }
            proof {
                assert(events@.take(n as int) =~= events@);
            }
            !has_update
        } else {
            false
        }
    }
}

} // verus!
