use tinto::app::{App, DeviceCommand, RoomView, Tab};
use tinto::handler::{handle_key_events, Key, KeyInput};
use tinto::snapshot::{Light, Room, Snapshot, Zone};

fn key(k: Key) -> KeyInput {
    KeyInput { key: k, shift: false, control: false }
}

fn shifted(k: Key) -> KeyInput {
    KeyInput { key: k, shift: true, control: false }
}

fn snap() -> Snapshot {
    Snapshot {
        rooms: vec![Room {
            name: "Hall".to_string(),
            scenes: vec![],
            lights: vec![
                Light { name: "Spot".to_string(), color_capable: false },
                Light { name: "Glow".to_string(), color_capable: true },
            ],
        }],
        zones: vec![Zone { name: "Upstairs".to_string() }],
    }
}

#[test]
fn escape_quits() {
    let s = snap();
    let mut app = App::new();
    let r = handle_key_events(key(Key::Esc), &mut app, &s);
    assert!(!app.running);
    assert_eq!(r, None);
}

#[test]
fn q_quits() {
    let s = snap();
    let mut app = App::new();
    handle_key_events(key(Key::Char('q')), &mut app, &s);
    assert!(!app.running);
}

#[test]
fn ctrl_c_quits_but_plain_c_does_not() {
    let s = snap();
    let mut app = App::new();
    handle_key_events(key(Key::Char('c')), &mut app, &s);
    assert!(app.running);
    let ctrl_c = KeyInput { key: Key::Char('c'), shift: false, control: true };
    handle_key_events(ctrl_c, &mut app, &s);
    assert!(!app.running);
}

#[test]
fn tab_key_advances_and_shift_tab_retreats() {
    let s = snap();
    let mut app = App::new();
    handle_key_events(key(Key::Tab), &mut app, &s);
    assert_eq!(app.view.room_active_view, RoomView::ZoneList);
    handle_key_events(shifted(Key::Tab), &mut app, &s);
    assert_eq!(app.view.room_active_view, RoomView::RoomList);
}

#[test]
fn arrows_move_views_and_lists() {
    let s = snap();
    let mut app = App::new();
    handle_key_events(key(Key::Right), &mut app, &s);
    assert_eq!(app.view.room_active_view, RoomView::ZoneList);
    handle_key_events(key(Key::Left), &mut app, &s);
    assert_eq!(app.view.room_active_view, RoomView::RoomList);
    handle_key_events(key(Key::Down), &mut app, &s);
    assert_eq!(app.view.room_cursor, Some(0));
    handle_key_events(key(Key::Up), &mut app, &s);
    assert_eq!(app.view.room_cursor, Some(0));
}

#[test]
fn vi_keys_match_arrows() {
    let s = snap();
    let mut app = App::new();
    handle_key_events(key(Key::Char('l')), &mut app, &s);
    assert_eq!(app.view.room_active_view, RoomView::ZoneList);
    handle_key_events(key(Key::Char('h')), &mut app, &s);
    assert_eq!(app.view.room_active_view, RoomView::RoomList);
    handle_key_events(key(Key::Char('j')), &mut app, &s);
    assert_eq!(app.view.room_cursor, Some(0));
    handle_key_events(key(Key::Char('k')), &mut app, &s);
    assert_eq!(app.view.room_cursor, Some(0));
}

#[test]
fn enter_activates_current_selection() {
    let s = snap();
    let mut app = App::new();
    app.view.room_cursor = Some(0);
    let r = handle_key_events(key(Key::Enter), &mut app, &s);
    assert_eq!(r, Some(DeviceCommand::ToggleRoom { room: 0 }));
}

#[test]
fn space_activates_like_enter() {
    let s = snap();
    let mut app = App::new();
    app.view.room_cursor = Some(0);
    let r = handle_key_events(key(Key::Char(' ')), &mut app, &s);
    assert_eq!(r, Some(DeviceCommand::ToggleRoom { room: 0 }));
}

#[test]
fn down_on_light_panel_dispatches_dim() {
    let s = snap();
    let mut app = App::new();
    app.view.room_cursor = Some(0);
    app.view.room_active_view = RoomView::LightPanel;
    let r = handle_key_events(key(Key::Down), &mut app, &s);
    assert_eq!(app.view.light_cursor, Some(0));
    // first canonical light of the room is "Glow" at inventory index 1
    assert_eq!(
        r,
        Some(DeviceCommand::DimLight { room: 0, light: 1, increase: false })
    );
}

#[test]
fn tab_hotkeys_switch_tabs() {
    let s = snap();
    let mut app = App::new();
    handle_key_events(key(Key::Char('g')), &mut app, &s);
    assert_eq!(app.view.active_tab, Tab::Lights);
    handle_key_events(key(Key::Char('a')), &mut app, &s);
    assert_eq!(app.view.active_tab, Tab::Areas);
}

#[test]
fn view_hotkeys_jump_to_views_only_on_areas() {
    let s = snap();
    let mut app = App::new();
    handle_key_events(key(Key::Char('s')), &mut app, &s);
    assert_eq!(app.view.room_active_view, RoomView::SceneList);
    handle_key_events(key(Key::Char('x')), &mut app, &s);
    assert_eq!(app.view.room_active_view, RoomView::LightPanel);
    handle_key_events(key(Key::Char('z')), &mut app, &s);
    assert_eq!(app.view.room_active_view, RoomView::ZoneList);
    handle_key_events(key(Key::Char('r')), &mut app, &s);
    assert_eq!(app.view.room_active_view, RoomView::RoomList);

    app.view.active_tab = Tab::Sensors;
    app.view.room_active_view = RoomView::SceneList;
    handle_key_events(key(Key::Char('r')), &mut app, &s);
    assert_eq!(app.view.room_active_view, RoomView::SceneList);
}

#[test]
fn unmapped_keys_do_nothing() {
    let s = snap();
    let mut app = App::new();
    let before = app.clone();
    assert_eq!(handle_key_events(key(Key::Other), &mut app, &s), None);
    assert_eq!(handle_key_events(key(Key::Char('y')), &mut app, &s), None);
    assert_eq!(app, before);
}
