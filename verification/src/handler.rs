//! Classified key input and its effect on the session. The surrounding
//! program decodes raw terminal events into a `KeyInput`; this module owns
//! the mapping from keys to navigation steps, tab switches, quitting, and
//! the device command a key may issue.

use vstd::prelude::*;

use crate::app::{spec_activate, spec_next_item, spec_next_view, spec_prev_item, spec_prev_view};
use crate::app::{App, DeviceCommand, NavResponse, RoomView, Tab, ViewState};
use crate::snapshot::Snapshot;

verus! {

/// A decoded key, reduced to the keys the dashboard reacts to.
#[derive(Clone, Copy, Debug, PartialEq, Eq, Structural)]
pub enum Key {
    Esc,
    Char(char),
    Tab,
    Right,
    Left,
    Up,
    Down,
    Enter,
    /// Any key the dashboard does not react to.
    Other,
}

/// A key press together with its modifiers.
#[derive(Clone, Copy, Debug, PartialEq, Eq, Structural)]
pub struct KeyInput {
    pub key: Key,
    pub shift: bool,
    pub control: bool,
}

/// Advancing the view, as the handler applies it: a no-op outside Areas.
pub open spec fn spec_step_next_view(a: App, snap: Snapshot) -> App {
    if a.view.active_tab is Areas {
        App { view: spec_next_view(a.view, snap), ..a }
    } else {
        a
    }
}

/// Retreating the view, as the handler applies it: a no-op outside Areas.
pub open spec fn spec_step_prev_view(a: App) -> App {
    if a.view.active_tab is Areas {
        App { view: spec_prev_view(a.view), ..a }
    } else {
        a
    }
}

/// Moving the active list forward, as the handler applies it.
pub open spec fn spec_step_next_item(a: App, snap: Snapshot) -> (App, Option<DeviceCommand>) {
    if a.view.active_tab is Areas {
        let (v2, cmd) = spec_next_item(a.view, snap);
        (App { view: v2, ..a }, cmd)
    } else {
        (a, None)
    }
}

/// Moving the active list back, as the handler applies it.
pub open spec fn spec_step_prev_item(a: App, snap: Snapshot) -> (App, Option<DeviceCommand>) {
    if a.view.active_tab is Areas {
        let (v2, cmd) = spec_prev_item(a.view, snap);
        (App { view: v2, ..a }, cmd)
    } else {
        (a, None)
    }
}

/// Switching the drill-down view directly, as the view hotkeys do: only
/// meaningful on the Areas tab, a no-op elsewhere.
pub open spec fn spec_step_set_view(a: App, rv: RoomView) -> App {
    if a.view.active_tab is Areas {
        App { view: ViewState { room_active_view: rv, ..a.view }, ..a }
    } else {
        a
    }
}

/// Switching the active tab: nothing else changes, each tab's navigation
/// state persists across switches.
pub open spec fn spec_step_set_tab(a: App, t: Tab) -> App {
    App { view: ViewState { active_tab: t, ..a.view }, ..a }
}

/// What one key press does to the session, and which device command it
/// issues, if any.
pub open spec fn spec_handle_key(k: KeyInput, a: App, snap: Snapshot) -> (App, Option<
    DeviceCommand,
>) {
    match k.key {
        Key::Esc => (App { running: false, ..a }, None),
        Key::Tab => if k.shift {
            (spec_step_prev_view(a), None)
        } else {
            (spec_step_next_view(a, snap), None)
        },
        Key::Right => if !k.shift {
            (spec_step_next_view(a, snap), None)
        } else {
            (a, None)
        },
        Key::Left => if !k.shift {
            (spec_step_prev_view(a), None)
        } else {
            (a, None)
        },
        Key::Up => spec_step_prev_item(a, snap),
        Key::Down => spec_step_next_item(a, snap),
        Key::Enter => (a, spec_activate(a.view, snap)),
        Key::Char(c) => if c == 'q' {
            (App { running: false, ..a }, None)
        } else if (c == 'c' || c == 'C') && k.control {
            (App { running: false, ..a }, None)
        } else if c == 'l' && !k.shift {
            (spec_step_next_view(a, snap), None)
        } else if c == 'h' && !k.shift {
            (spec_step_prev_view(a), None)
        } else if c == 'k' {
            spec_step_prev_item(a, snap)
        } else if c == 'j' {
            spec_step_next_item(a, snap)
        } else if c == ' ' {
            (a, spec_activate(a.view, snap))
        } else if c == 'a' || c == 'A' {
            (spec_step_set_tab(a, Tab::Areas), None)
        } else if c == 'g' || c == 'G' {
            (spec_step_set_tab(a, Tab::Lights), None)
        } else if c == 'r' || c == 'R' {
            (spec_step_set_view(a, RoomView::RoomList), None)
        } else if c == 's' || c == 'S' {
            (spec_step_set_view(a, RoomView::SceneList), None)
        } else if c == 'x' || c == 'X' {
            (spec_step_set_view(a, RoomView::LightPanel), None)
        } else if c == 'z' || c == 'Z' {
            (spec_step_set_view(a, RoomView::ZoneList), None)
        } else {
            (a, None)
        },
        Key::Other => (a, None),
    }
}

/// Apply one key press to the session. Returns the device command the key
/// issues, if any; sending it is the caller's business and its outcome
/// never rolls the navigation state back.
pub fn handle_key_events(key: KeyInput, app: &mut App, snap: &Snapshot) -> (r: Option<
    DeviceCommand,
>)
    ensures
        *final(app) == spec_handle_key(key, *old(app), *snap).0,
        r == spec_handle_key(key, *old(app), *snap).1,
{
    match key.key {
        Key::Esc => {
            app.quit();
            None
        },
        Key::Tab => {
            if key.shift {
                app.prev_view();
            } else {
                app.next_view(snap);
            }
            None
        },
        Key::Right => {
            if !key.shift {
                app.next_view(snap);
            }
            None
        },
        Key::Left => {
            if !key.shift {
                app.prev_view();
            }
            None
        },
        Key::Up => {
            match app.prev_list_item(snap) {
                NavResponse::Dispatched(c) => Some(c),
                _ => None,
            }
        },
        Key::Down => {
            match app.next_list_item(snap) {
                NavResponse::Dispatched(c) => Some(c),
                _ => None,
            }
        },
        Key::Enter => app.activate_current(snap),
        Key::Char(c) => {
            if c == 'q' {
                app.quit();
                None
            } else if (c == 'c' || c == 'C') && key.control {
                app.quit();
                None
            } else if c == 'l' && !key.shift {
                app.next_view(snap);
                None
            } else if c == 'h' && !key.shift {
                app.prev_view();
                None
            } else if c == 'k' {
                match app.prev_list_item(snap) {
                    NavResponse::Dispatched(cmd) => Some(cmd),
                    _ => None,
                }
            } else if c == 'j' {
                match app.next_list_item(snap) {
                    NavResponse::Dispatched(cmd) => Some(cmd),
                    _ => None,
                }
            } else if c == ' ' {
                app.activate_current(snap)
            } else if c == 'a' || c == 'A' {
                app.view.active_tab = Tab::Areas;
                None
            } else if c == 'g' || c == 'G' {
                app.view.active_tab = Tab::Lights;
                None
            } else if c == 'r' || c == 'R' {
                if app.active_tab() == Tab::Areas {
                    app.view.room_active_view = RoomView::RoomList;
                }
                None
            } else if c == 's' || c == 'S' {
                if app.active_tab() == Tab::Areas {
                    app.view.room_active_view = RoomView::SceneList;
                }
                None
            } else if c == 'x' || c == 'X' {
                if app.active_tab() == Tab::Areas {
                    app.view.room_active_view = RoomView::LightPanel;
                }
                None
            } else if c == 'z' || c == 'Z' {
                if app.active_tab() == Tab::Areas {
                    app.view.room_active_view = RoomView::ZoneList;
                }
                None
            } else {
                None
            }
        },
        Key::Other => None,
    }
}

} // verus!
