use tinto::app::{App, DeviceCommand, NavResponse, RoomView, Tab};
use tinto::snapshot::{Light, Room, Scene, Snapshot, Zone};

fn light(name: &str, color_capable: bool) -> Light {
    Light { name: name.to_string(), color_capable }
}

fn room(name: &str, scenes: Vec<Scene>, lights: Vec<Light>) -> Room {
    Room { name: name.to_string(), scenes, lights }
}

fn scene(name: &str) -> Scene {
    Scene { name: name.to_string() }
}

/// Three rooms; room 1 has 2 scenes and 4 lights, 2 of them color-capable.
fn demo_snapshot() -> Snapshot {
    Snapshot {
        rooms: vec![
            room("Hall", vec![], vec![light("Spot", false)]),
            room(
                "Studio",
                vec![scene("Dusk"), scene("Focus")],
                vec![
                    light("Desk", false),
                    light("Strip", true),
                    light("Bulb", true),
                    light("Shelf", false),
                ],
            ),
            room("Porch", vec![scene("Night")], vec![]),
        ],
        zones: vec![Zone { name: "Upstairs".to_string() }],
    }
}

#[test]
fn initial_state_is_room_list() {
    let app = App::new();
    assert!(app.running);
    assert_eq!(app.view.active_tab, Tab::Areas);
    assert_eq!(app.view.room_active_view, RoomView::RoomList);
    assert_eq!(app.view.room_cursor, None);
    assert_eq!(app.view.light_cursor, None);
}

#[test]
fn quit_stops_running_and_keeps_view() {
    let mut app = App::new();
    let before = app.view.clone();
    app.quit();
    assert!(!app.running);
    assert_eq!(app.view, before);
}

#[test]
fn views_advance_one_level_at_a_time() {
    let snap = demo_snapshot();
    let mut app = App::new();
    app.next_view(&snap);
    assert_eq!(app.view.room_active_view, RoomView::ZoneList);
    app.next_view(&snap);
    assert_eq!(app.view.room_active_view, RoomView::SceneList);
    app.next_view(&snap);
    assert_eq!(app.view.room_active_view, RoomView::LightPanel);
}

#[test]
fn advance_at_light_panel_moves_light_cursor_not_view() {
    let snap = demo_snapshot();
    let mut app = App::new();
    app.view.room_active_view = RoomView::LightPanel;
    app.view.room_cursor = Some(1);
    app.next_view(&snap);
    assert_eq!(app.view.room_active_view, RoomView::LightPanel);
    assert_eq!(app.view.light_cursor, Some(0));
    app.next_view(&snap);
    assert_eq!(app.view.light_cursor, Some(1));
}

// Retreating from a light cursor at rest pops exactly one view level;
// retreating from a non-zero cursor only decrements it.
#[test]
fn retreat_from_rest_pops_one_level() {
    let mut app = App::new();
    app.view.room_active_view = RoomView::LightPanel;
    app.view.light_cursor = Some(0);
    app.prev_view();
    assert_eq!(app.view.room_active_view, RoomView::SceneList);
    assert_eq!(app.view.light_cursor, Some(0));

    let mut app = App::new();
    app.view.room_active_view = RoomView::LightPanel;
    app.view.light_cursor = None;
    app.prev_view();
    assert_eq!(app.view.room_active_view, RoomView::SceneList);
}

#[test]
fn retreat_from_nonzero_light_cursor_only_decrements() {
    let mut app = App::new();
    app.view.room_active_view = RoomView::LightPanel;
    app.view.light_cursor = Some(2);
    app.prev_view();
    assert_eq!(app.view.room_active_view, RoomView::LightPanel);
    assert_eq!(app.view.light_cursor, Some(1));
}

// Moving the room or zone cursor always clears the scene cursor.
#[test]
fn room_moves_clear_scene_cursor() {
    let snap = demo_snapshot();
    let mut app = App::new();
    app.view.scene_cursor = Some(1);
    app.next_list_item(&snap);
    assert_eq!(app.view.scene_cursor, None);

    app.view.scene_cursor = Some(0);
    app.prev_list_item(&snap);
    assert_eq!(app.view.scene_cursor, None);
}

#[test]
fn zone_moves_clear_scene_cursor() {
    let snap = demo_snapshot();
    let mut app = App::new();
    app.view.room_active_view = RoomView::ZoneList;
    app.view.scene_cursor = Some(1);
    app.next_list_item(&snap);
    assert_eq!(app.view.scene_cursor, None);

    app.view.scene_cursor = Some(1);
    app.prev_list_item(&snap);
    assert_eq!(app.view.scene_cursor, None);
}

#[test]
fn room_cursor_clamps_to_room_count() {
    let snap = demo_snapshot();
    let mut app = App::new();
    for _ in 0..10 {
        app.next_list_item(&snap);
    }
    assert_eq!(app.view.room_cursor, Some(2));
}

#[test]
fn activate_room_list_toggles_room_group() {
    let snap = demo_snapshot();
    let mut app = App::new();
    app.view.room_cursor = Some(2);
    assert_eq!(
        app.activate_current(&snap),
        Some(DeviceCommand::ToggleRoom { room: 2 })
    );
}

#[test]
fn activate_zone_list_toggles_zone_group() {
    let snap = demo_snapshot();
    let mut app = App::new();
    app.view.room_active_view = RoomView::ZoneList;
    app.view.zone_cursor = Some(0);
    assert_eq!(
        app.activate_current(&snap),
        Some(DeviceCommand::ToggleZone { zone: 0 })
    );
}

#[test]
fn activate_scene_list_recalls_scene() {
    let snap = demo_snapshot();
    let mut app = App::new();
    app.view.room_active_view = RoomView::SceneList;
    app.view.room_cursor = Some(1);
    app.view.scene_cursor = Some(1);
    assert_eq!(
        app.activate_current(&snap),
        Some(DeviceCommand::RecallScene { room: 1, scene: 1 })
    );
}

// Activating the light panel with no cursor signals the group; with the
// cursor on 0 it toggles the first light in canonical order.
#[test]
fn activate_light_panel_without_selection_signals_group() {
    let snap = demo_snapshot();
    let mut app = App::new();
    app.view.room_active_view = RoomView::LightPanel;
    app.view.room_cursor = Some(1);
    app.view.light_cursor = None;
    assert_eq!(
        app.activate_current(&snap),
        Some(DeviceCommand::SignalRoom { room: 1 })
    );
}

#[test]
fn activate_light_panel_with_first_position_toggles_first_canonical() {
    let snap = demo_snapshot();
    let mut app = App::new();
    app.view.room_active_view = RoomView::LightPanel;
    app.view.room_cursor = Some(1);
    app.view.light_cursor = Some(0);
    // canonical order of room 1: Bulb (2), Strip (1), Desk (0), Shelf (3)
    assert_eq!(
        app.activate_current(&snap),
        Some(DeviceCommand::ToggleLight { room: 1, light: 2 })
    );
}

#[test]
fn activate_with_stale_cursor_does_nothing() {
    let snap = demo_snapshot();
    let mut app = App::new();
    app.view.room_cursor = Some(7);
    assert_eq!(app.activate_current(&snap), None);

    app.view.room_cursor = Some(1);
    app.view.room_active_view = RoomView::LightPanel;
    app.view.light_cursor = Some(9);
    assert_eq!(app.activate_current(&snap), None);
}

// Scenario: select room 1, drill down to the light panel, press "next"
// once: the cursor lands on 0 and a dim-down goes to the first canonical
// light; a view retreat from position 0 then pops to the scene list.
#[test]
fn drill_down_dim_and_pop_scenario() {
    let snap = demo_snapshot();
    let mut app = App::new();
    app.view.room_cursor = Some(1);
    app.next_view(&snap);
    app.next_view(&snap);
    app.next_view(&snap);
    assert_eq!(app.view.room_active_view, RoomView::LightPanel);
    assert_eq!(app.view.light_cursor, None);

    let r = app.next_list_item(&snap);
    assert_eq!(app.view.light_cursor, Some(0));
    assert_eq!(
        r,
        NavResponse::Dispatched(DeviceCommand::DimLight {
            room: 1,
            light: 2,
            increase: false,
        })
    );

    app.prev_view();
    assert_eq!(app.view.room_active_view, RoomView::SceneList);
}

#[test]
fn prev_item_on_light_panel_dims_up() {
    let snap = demo_snapshot();
    let mut app = App::new();
    app.view.room_active_view = RoomView::LightPanel;
    app.view.room_cursor = Some(1);
    app.view.light_cursor = Some(2);
    let r = app.prev_list_item(&snap);
    assert_eq!(app.view.light_cursor, Some(1));
    // canonical position 1 of room 1 is "Strip" at inventory index 1
    assert_eq!(
        r,
        NavResponse::Dispatched(DeviceCommand::DimLight {
            room: 1,
            light: 1,
            increase: true,
        })
    );
}

// Resolution against a snapshot the selected room has vanished from
// returns no selection, not a stale room.
#[test]
fn removed_room_resolves_to_none() {
    let snap = demo_snapshot();
    let mut app = App::new();
    app.view.room_cursor = Some(1);
    assert_eq!(app.current_room(&snap), Some(1));

    let shrunk = Snapshot {
        rooms: vec![room("Hall", vec![], vec![light("Spot", false)])],
        zones: vec![],
    };
    assert_eq!(app.current_room(&shrunk), None);
    assert_eq!(app.activate_current(&shrunk), None);
}

#[test]
fn current_scene_needs_resolved_room() {
    let snap = demo_snapshot();
    let mut app = App::new();
    app.view.room_cursor = Some(1);
    app.view.scene_cursor = Some(1);
    assert_eq!(app.current_scene(&snap), Some(1));

    app.view.scene_cursor = Some(5);
    assert_eq!(app.current_scene(&snap), None);

    app.view.room_cursor = None;
    app.view.scene_cursor = Some(0);
    assert_eq!(app.current_scene(&snap), None);
}

#[test]
fn navigation_outside_areas_is_unsupported_and_changes_nothing() {
    let snap = demo_snapshot();
    let mut app = App::new();
    app.view.active_tab = Tab::Sensors;
    let before = app.clone();
    assert_eq!(app.next_view(&snap), NavResponse::Unsupported);
    assert_eq!(app.prev_view(), NavResponse::Unsupported);
    assert_eq!(app.next_list_item(&snap), NavResponse::Unsupported);
    assert_eq!(app.prev_list_item(&snap), NavResponse::Unsupported);
    assert_eq!(app.activate_current(&snap), None);
    assert_eq!(app, before);
}

#[test]
fn tab_state_persists_across_switches() {
    let snap = demo_snapshot();
    let mut app = App::new();
    app.view.room_cursor = Some(1);
    app.next_view(&snap);
    let areas_view = app.view.clone();
    app.view.active_tab = Tab::Lights;
    app.view.active_tab = Tab::Areas;
    assert_eq!(app.view, areas_view);
}

#[test]
fn tab_index_matches_fixed_row() {
    assert_eq!(Tab::Areas.index_of(), 0);
    assert_eq!(Tab::Lights.index_of(), 1);
    assert_eq!(Tab::Sensors.index_of(), 2);
    assert_eq!(Tab::Routines.index_of(), 3);
}

#[test]
fn tab_labels() {
    assert_eq!(Tab::Areas.label(), "AREA");
    assert_eq!(Tab::Lights.label(), "LGTS");
    assert_eq!(Tab::Sensors.label(), "SENS");
    assert_eq!(Tab::Routines.label(), "RTNS");
}

#[test]
fn snapshot_counts() {
    let empty = Snapshot::new();
    assert_eq!(empty.n_rooms(), 0);
    assert_eq!(empty.n_zones(), 0);
    let snap = demo_snapshot();
    assert_eq!(snap.n_rooms(), 3);
    assert_eq!(snap.n_zones(), 1);
}
