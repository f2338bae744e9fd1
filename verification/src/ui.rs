//! Decision logic of the menu screens: which player slots are ready, when
//! the player-select screen may continue, and what the map-select screen
//! answers to input. The drawing itself is presentation and stays with the
//! host UI loop; it hands these functions plain values.

use vstd::prelude::*;

verus! {

/// Number of player slots on the select screen.
pub const MAX_PLAYERS: usize = 4;

/// The input device a player slot is bound to. A slot without one is
/// driven by the computer.
#[derive(Clone, Copy, Debug, PartialEq, Eq, Structural)]
pub enum ControlSource {
    Keyboard1,
    Keyboard2,
    Gamepad(u32),
}

/// One slot of the player-select screen.
#[derive(Default, Clone, Copy, Debug, PartialEq, Eq, Structural)]
pub struct PlayerSlot {
    pub active: bool,
    pub confirmed: bool,
    /// Stable handle of the selected player skin.
    pub selected_player: u32,
    /// Stable handle of the selected hat, if any.
    pub selected_hat: Option<u32>,
    pub control_source: Option<ControlSource>,
}

impl PlayerSlot {
    /// Whether this slot is driven by the computer: it has no control
    /// source.
    pub fn is_ai(&self) -> (r: bool)
        ensures
            r == (self.control_source is None),
    {
        self.control_source.is_none()
    }
}

/// The state of the player-select screen.
#[derive(Clone, Copy, Debug)]
pub struct PlayerSelectState {
    pub slots: [PlayerSlot; MAX_PLAYERS],
}

impl Default for PlayerSelectState {
    /// All slots empty.
    fn default() -> (r: PlayerSelectState)
        ensures
            forall|i: int| 0 <= i < MAX_PLAYERS ==> r.slots@[i] == PlayerSlot::default_spec(),
    {
        PlayerSelectState {
            slots: [
                PlayerSlot {
                    active: false,
                    confirmed: false,
                    selected_player: 0,
                    selected_hat: None,
                    control_source: None,
                },
                PlayerSlot {
                    active: false,
                    confirmed: false,
                    selected_player: 0,
                    selected_hat: None,
                    control_source: None,
                },
                PlayerSlot {
                    active: false,
                    confirmed: false,
                    selected_player: 0,
                    selected_hat: None,
                    control_source: None,
                },
                PlayerSlot {
                    active: false,
                    confirmed: false,
                    selected_player: 0,
                    selected_hat: None,
                    control_source: None,
                },
            ],
        }
    }
}

impl PlayerSlot {
    /// The empty slot every screen starts from.
    pub open spec fn default_spec() -> PlayerSlot {
        PlayerSlot {
            active: false,
            confirmed: false,
            selected_player: 0,
            selected_hat: None,
            control_source: None,
        }
    }
}

/// How many of the slots are confirmed and ready.
pub open spec fn ready_count(s: Seq<PlayerSlot>) -> nat
    decreases s.len(),
{
    if s.len() == 0 {
        0
    } else {
        ready_count(s.drop_last()) + (if s.last().confirmed {
            1nat
        } else {
            0nat
        })
    }
}

/// How many of the slots are active but not yet confirmed.
pub open spec fn unconfirmed_count(s: Seq<PlayerSlot>) -> nat
    decreases s.len(),
{
    if s.len() == 0 {
        0
    } else {
        unconfirmed_count(s.drop_last()) + (if s.last().active && !s.last().confirmed {
            1nat
        } else {
            0nat
        })
    }
}

impl PlayerSelectState {
    /// Whether the select screen may continue into the game: at least one
    /// slot is confirmed and no active slot is still unconfirmed.
    pub fn may_continue(&self) -> (r: bool)
        ensures
            r == (ready_count(self.slots@) >= 1 && unconfirmed_count(self.slots@) == 0),
    {
        let mut ready: usize = 0;
        let mut unconfirmed: usize = 0;
        for i in 0..MAX_PLAYERS
            invariant
                ready == ready_count(self.slots@.take(i as int)),
                unconfirmed == unconfirmed_count(self.slots@.take(i as int)),
                ready <= i,
                unconfirmed <= i,
        {
            let slot = self.slots[i];
            if slot.confirmed {
                ready = ready + 1;
            } else if slot.active {
                unconfirmed = unconfirmed + 1;
            }
            proof {
                assert(self.slots@.take(i + 1).drop_last() =~= self.slots@.take(i as int));
                assert(self.slots@.take(i + 1).last() == self.slots@[i as int]);
            }
        }
        proof {
            assert(self.slots@.take(MAX_PLAYERS as int) =~= self.slots@);
        }
        ready >= 1 && unconfirmed == 0
    }
}

/// Static metadata of a selectable map, by stable handle.
#[derive(Clone, Copy, Debug, PartialEq, Eq, Structural)]
pub struct MapMeta {
    pub handle: u32,
}

/// What the map-select menu answers.
#[derive(Clone, Copy, Debug, PartialEq, Eq, Structural, Default)]
pub enum MapSelectAction {
    #[default]
    NoAction,
    SelectMap(MapMeta),
    GoBack,
}

/// The per-player menu controls the map-select screen reads.
#[derive(Clone, Copy, Debug, PartialEq, Eq, Structural)]
pub struct PlayerControl {
    pub menu_back_just_pressed: bool,
}

/// The action the map-select menu decides on: going back wins over any
/// click; a click on a listed map selects it; anything else is no action.
pub open spec fn spec_map_select_action(
    controls: Seq<PlayerControl>,
    clicked: Option<usize>,
    maps: Seq<MapMeta>,
) -> MapSelectAction {
    if exists|i: int| 0 <= i < controls.len() && controls[i].menu_back_just_pressed {
        MapSelectAction::GoBack
    } else if clicked is Some && clicked->0 < maps.len() {
        MapSelectAction::SelectMap(maps[clicked->0 as int])
    } else {
        MapSelectAction::NoAction
    }
}

/// The map-select menu: answers `GoBack` when any player pressed the menu
/// back control this frame, the clicked map when one of the listed maps was
/// clicked, and no action otherwise.
pub fn map_select_menu(
    controls: &Vec<PlayerControl>,
    clicked: Option<usize>,
    stable_maps: &Vec<MapMeta>,
) -> (r: MapSelectAction)
    ensures
        r == spec_map_select_action(controls@, clicked, stable_maps@),
{
    let n = controls.len();
    for i in 0..n
        invariant
            n == controls@.len(),
            forall|j: int| 0 <= j < i ==> !controls@[j].menu_back_just_pressed,
    {
        if controls[i].menu_back_just_pressed {
            return MapSelectAction::GoBack;
        }
    }
    match clicked {
        Some(i) => {
            if i < stable_maps.len() {
                MapSelectAction::SelectMap(stable_maps[i])
            } else {
                MapSelectAction::NoAction
            }
        },
        None => MapSelectAction::NoAction,
    }
}

} // verus!
