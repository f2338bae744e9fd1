use jumpy_core::jellyfish::MountStatus;
use jumpy_core::loading::{
    core_assets_loaded, CoreLoadState, GameAssetEvent, GameLoader, PlayerAssetStatus,
};
use jumpy_core::ui::{
    map_select_menu, ControlSource, MapMeta, MapSelectAction, PlayerControl, PlayerSelectState,
    PlayerSlot,
};

fn loaded_player() -> PlayerAssetStatus {
    PlayerAssetStatus {
        meta_loaded: true,
        body_atlas_loaded: true,
        fin_atlas_loaded: true,
        face_atlas_loaded: true,
    }
}

fn all_loaded() -> CoreLoadState {
    CoreLoadState {
        game_loaded: true,
        core_loaded: true,
        players: vec![loaded_player(), loaded_player()],
        tilesets_loaded: vec![true, true, true],
        hats_loaded: vec![true],
    }
}

#[test]
fn core_assets_loaded_when_nothing_pends() {
    assert!(core_assets_loaded(&all_loaded()));
}

#[test]
fn core_assets_wait_for_game_meta() {
    let mut s = all_loaded();
    s.game_loaded = false;
    assert!(!core_assets_loaded(&s));
}

#[test]
fn core_assets_wait_for_each_player_atlas() {
    let mut s = all_loaded();
    s.players[1].fin_atlas_loaded = false;
    assert!(!core_assets_loaded(&s));
}

#[test]
fn core_assets_wait_for_tilesets_and_hats() {
    let mut s = all_loaded();
    s.tilesets_loaded[2] = false;
    assert!(!core_assets_loaded(&s));
    let mut s = all_loaded();
    s.hats_loaded[0] = false;
    assert!(!core_assets_loaded(&s));
}

#[test]
fn initial_load_never_skips() {
    let mut loader = GameLoader { skip_next_asset_update_event: true };
    let skipped = loader.should_skip_run(false, &vec![GameAssetEvent::Modified]);
    assert!(!skipped);
    assert!(loader.skip_next_asset_update_event);
}

#[test]
fn hot_reload_without_updates_skips() {
    let mut loader = GameLoader { skip_next_asset_update_event: false };
    let skipped = loader.should_skip_run(true, &vec![GameAssetEvent::Created]);
    assert!(skipped);
}

#[test]
fn hot_reload_with_update_runs() {
    let mut loader = GameLoader { skip_next_asset_update_event: false };
    let skipped = loader.should_skip_run(true, &vec![GameAssetEvent::Modified]);
    assert!(!skipped);
}

#[test]
fn skip_flag_consumes_exactly_one_modified_event() {
    let mut loader = GameLoader { skip_next_asset_update_event: true };
    let skipped = loader.should_skip_run(true, &vec![GameAssetEvent::Modified]);
    assert!(skipped);
    assert!(!loader.skip_next_asset_update_event);
    let mut loader = GameLoader { skip_next_asset_update_event: true };
    let skipped = loader.should_skip_run(
        true,
        &vec![GameAssetEvent::Modified, GameAssetEvent::Modified],
    );
    assert!(!skipped);
}

#[test]
fn slot_without_control_source_is_ai() {
    let mut slot = PlayerSlot::default();
    assert!(slot.is_ai());
    slot.control_source = Some(ControlSource::Keyboard1);
    assert!(!slot.is_ai());
    slot.control_source = Some(ControlSource::Gamepad(1));
    assert!(!slot.is_ai());
}

#[test]
fn may_continue_needs_one_ready_and_none_pending() {
    let mut state = PlayerSelectState::default();
    assert!(!state.may_continue());
    state.slots[0].active = true;
    state.slots[0].confirmed = true;
    assert!(state.may_continue());
    state.slots[2].active = true;
    assert!(!state.may_continue());
    state.slots[2].confirmed = true;
    assert!(state.may_continue());
}

#[test]
fn map_select_back_wins_over_click() {
    let controls = vec![
        PlayerControl { menu_back_just_pressed: false },
        PlayerControl { menu_back_just_pressed: true },
    ];
    let maps = vec![MapMeta { handle: 4 }, MapMeta { handle: 5 }];
    let action = map_select_menu(&controls, Some(1), &maps);
    assert!(matches!(action, MapSelectAction::GoBack));
}

#[test]
fn map_select_click_selects_the_listed_map() {
    let controls = vec![PlayerControl { menu_back_just_pressed: false }];
    let maps = vec![MapMeta { handle: 4 }, MapMeta { handle: 5 }];
    let action = map_select_menu(&controls, Some(1), &maps);
    assert!(matches!(action, MapSelectAction::SelectMap(MapMeta { handle: 5 })));
}

#[test]
fn map_select_ignores_out_of_range_clicks() {
    let controls = vec![PlayerControl { menu_back_just_pressed: false }];
    let maps = vec![MapMeta { handle: 4 }];
    assert!(matches!(map_select_menu(&controls, Some(3), &maps), MapSelectAction::NoAction));
    assert!(matches!(map_select_menu(&controls, None, &maps), MapSelectAction::NoAction));
}

#[test]
fn only_dropped_jellyfish_counts_as_thrown() {
    assert!(MountStatus::Dropped.is_thrown());
    assert!(!MountStatus::Mounted.is_thrown());
    assert!(!MountStatus::Driving.is_thrown());
    assert!(!MountStatus::Dismounted.is_thrown());
}
