//! The interactive session: top-level tabs, the drill-down view of the
//! Areas tab, one selection cursor per list level, and the translation of a
//! confirmed selection into a device command intent. Every transition is
//! a pure step from the old state and the current snapshot to the new
//! state, and every command names its target by snapshot indices, with
//! lights addressed through the canonical order.

use vstd::prelude::*;

use crate::cursor;
use crate::order::canonical_of;
use crate::resolve;
use crate::snapshot::Snapshot;

verus! {

/// The fixed set of top-level modes. Each keeps its own view state; only
/// Areas has a populated drill-down machine, navigation in the others is an
/// explicit unsupported outcome.
#[derive(Clone, Copy, Debug, PartialEq, Eq, Structural)]
pub enum Tab {
    Areas,
    Lights,
    Sensors,
    Routines,
}

impl Tab {
    pub open spec fn spec_index_of(self) -> int {
        match self {
            Tab::Areas => 0,
            Tab::Lights => 1,
            Tab::Sensors => 2,
            Tab::Routines => 3,
        }
    }

    /// Position of the tab in the fixed tab row.
    pub fn index_of(&self) -> (r: usize)
        ensures
            r == self.spec_index_of(),
    {
        match self {
            Tab::Areas => 0,
            Tab::Lights => 1,
            Tab::Sensors => 2,
            Tab::Routines => 3,
        }
    }

    /// Short title of the tab as shown in the tab row.
    pub fn label(&self) -> (r: String)
        ensures
            *self is Areas ==> r@ == "AREA"@,
            *self is Lights ==> r@ == "LGTS"@,
            *self is Sensors ==> r@ == "SENS"@,
            *self is Routines ==> r@ == "RTNS"@,
    {
        match self {
            Tab::Areas => "AREA".to_owned(),
            Tab::Lights => "LGTS".to_owned(),
            Tab::Sensors => "SENS".to_owned(),
            Tab::Routines => "RTNS".to_owned(),
        }
    }
}

impl Default for Tab {
    fn default() -> (r: Self)
        ensures
            r is Areas,
    {
        Tab::Areas
    }
}

/// The drill-down views of the Areas tab, in depth order: room list at the
/// root, then zone list, scene list, and the light panel as the deepest
/// leaf. Advancing or retreating moves exactly one depth at a time.
#[derive(Clone, Copy, Debug, PartialEq, Eq, Structural)]
pub enum RoomView {
    RoomList,
    ZoneList,
    SceneList,
    LightPanel,
}

impl Default for RoomView {
    fn default() -> (r: Self)
        ensures
            r is RoomList,
    {
        RoomView::RoomList
    }
}

/// Navigation state of the session: the active tab, the drill-down view of
/// the Areas tab, and one selection cursor per list level.
#[derive(Clone, Copy, Debug, PartialEq, Eq)]
pub struct ViewState {
    pub active_tab: Tab,
    pub room_active_view: RoomView,
    pub room_cursor: Option<usize>,
    pub zone_cursor: Option<usize>,
    pub scene_cursor: Option<usize>,
    pub light_cursor: Option<usize>,
}

impl Default for ViewState {
    /// Initial state: Areas tab at the room list, nothing selected.
    fn default() -> (r: Self)
        ensures
            r.active_tab is Areas,
            r.room_active_view is RoomList,
            r.room_cursor is None,
            r.zone_cursor is None,
            r.scene_cursor is None,
            r.light_cursor is None,
    {
        ViewState {
            active_tab: Tab::Areas,
            room_active_view: RoomView::RoomList,
            room_cursor: None,
            zone_cursor: None,
            scene_cursor: None,
            light_cursor: None,
        }
    }
}

/// A command intent addressed to a device or group, named by indices into
/// the snapshot it was resolved against. Lights are indices into the
/// owning room's light list in inventory order (the canonical order is
/// applied during resolution).
#[derive(Clone, Copy, Debug, PartialEq, Eq, Structural)]
pub enum DeviceCommand {
    /// Toggle the room's group on or off.
    ToggleRoom { room: usize },
    /// Toggle the zone's group on or off.
    ToggleZone { zone: usize },
    /// Recall (apply) a scene of a room.
    RecallScene { room: usize, scene: usize },
    /// Toggle a single light of a room.
    ToggleLight { room: usize, light: usize },
    /// Change a light's brightness by one fixed step.
    DimLight { room: usize, light: usize, increase: bool },
    /// Ask the room's group for a visible attention effect.
    SignalRoom { room: usize },
}

/// Outcome of a navigation operation.
#[derive(Clone, Copy, Debug, PartialEq, Eq, Structural)]
pub enum NavResponse {
    /// The active tab has no drill-down behavior; nothing changed.
    Unsupported,
    /// The view or a cursor moved (possibly to the same place).
    Moved,
    /// The move is coupled to a device command that should be sent.
    Dispatched(DeviceCommand),
}

/// The application: whether the session keeps running, and the navigation
/// state.
#[derive(Clone, Copy, Debug, PartialEq, Eq)]
pub struct App {
    pub running: bool,
    pub view: ViewState,
}

/// Number of rooms a cursor on the room list ranges over.
pub open spec fn spec_room_count(snap: Snapshot) -> usize {
    snap.rooms@.len() as usize
}

/// Number of zones a cursor on the zone list ranges over.
pub open spec fn spec_zone_count(snap: Snapshot) -> usize {
    snap.zones@.len() as usize
}

/// Number of scenes of the currently resolved room, 0 when none resolves.
pub open spec fn spec_scene_count(v: ViewState, snap: Snapshot) -> usize {
    match resolve::spec_resolve_room(v, snap) {
        Some(ri) => snap.rooms@[ri as int].scenes@.len() as usize,
        None => 0,
    }
}

/// Number of lights of the currently resolved room, 0 when none resolves.
pub open spec fn spec_light_count(v: ViewState, snap: Snapshot) -> usize {
    match resolve::spec_resolve_room(v, snap) {
        Some(ri) => snap.rooms@[ri as int].lights@.len() as usize,
        None => 0,
    }
}

/// Advance the view one level deeper; at the light panel the advance is
/// redefined to move the light cursor within the panel instead.
pub open spec fn spec_next_view(v: ViewState, snap: Snapshot) -> ViewState {
    match v.room_active_view {
        RoomView::RoomList => ViewState { room_active_view: RoomView::ZoneList, ..v },
        RoomView::ZoneList => ViewState { room_active_view: RoomView::SceneList, ..v },
        RoomView::SceneList => ViewState { room_active_view: RoomView::LightPanel, ..v },
        RoomView::LightPanel => ViewState {
            light_cursor: cursor::spec_advance(v.light_cursor, spec_light_count(v, snap)),
            ..v
        },
    }
}

/// Retreat the view one level; at the light panel a light cursor at rest
/// (none, or index 0) pops to the scene list, otherwise only the cursor
/// decrements.
pub open spec fn spec_prev_view(v: ViewState) -> ViewState {
    match v.room_active_view {
        RoomView::LightPanel => match v.light_cursor {
            None => ViewState { room_active_view: RoomView::SceneList, ..v },
            Some(i) => if i == 0 {
                ViewState { room_active_view: RoomView::SceneList, ..v }
            } else {
                ViewState { light_cursor: Some((i - 1) as usize), ..v }
            },
        },
        RoomView::SceneList => ViewState { room_active_view: RoomView::ZoneList, ..v },
        _ => ViewState { room_active_view: RoomView::RoomList, ..v },
    }
}

/// Move the cursor of the active list one forward. Moving the room or zone
/// cursor clears the scene cursor (a new parent invalidates the child
/// selection). On the light panel the move additionally dims the light the
/// cursor comes to rest on, one step down.
pub open spec fn spec_next_item(v: ViewState, snap: Snapshot) -> (ViewState, Option<
    DeviceCommand,
>) {
    match v.room_active_view {
        RoomView::RoomList => (
            ViewState {
                room_cursor: cursor::spec_advance(v.room_cursor, spec_room_count(snap)),
                scene_cursor: None,
                ..v
            },
            None,
        ),
        RoomView::ZoneList => (
            ViewState {
                zone_cursor: cursor::spec_advance(v.zone_cursor, spec_zone_count(snap)),
                scene_cursor: None,
                ..v
            },
            None,
        ),
        RoomView::SceneList => (
            ViewState {
                scene_cursor: cursor::spec_advance(v.scene_cursor, spec_scene_count(v, snap)),
                ..v
            },
            None,
        ),
        RoomView::LightPanel => {
            let c2 = cursor::spec_advance(v.light_cursor, spec_light_count(v, snap));
            let cmd = match (resolve::spec_resolve_room(v, snap), c2) {
                (Some(ri), Some(li)) => {
                    let lights = snap.rooms@[ri as int].lights@;
                    if (li as int) < lights.len() {
                        Some(
                            DeviceCommand::DimLight {
                                room: ri,
                                light: canonical_of(lights)[li as int],
                                increase: false,
                            },
                        )
                    } else {
                        None
                    }
                },
                _ => None,
            };
            (ViewState { light_cursor: c2, ..v }, cmd)
        },
    }
}

/// Move the cursor of the active list one back (staying on the first item
/// at the boundary). Clears the scene cursor from the room and zone lists;
/// on the light panel the move additionally dims the light the cursor
/// comes to rest on, one step up.
pub open spec fn spec_prev_item(v: ViewState, snap: Snapshot) -> (ViewState, Option<
    DeviceCommand,
>) {
    match v.room_active_view {
        RoomView::RoomList => (
            ViewState {
                room_cursor: cursor::spec_retreat_stay(v.room_cursor, spec_room_count(snap)),
                scene_cursor: None,
                ..v
            },
            None,
        ),
        RoomView::ZoneList => (
            ViewState {
                zone_cursor: cursor::spec_retreat_stay(v.zone_cursor, spec_zone_count(snap)),
                scene_cursor: None,
                ..v
            },
            None,
        ),
        RoomView::SceneList => (
            ViewState {
                scene_cursor: cursor::spec_retreat_stay(v.scene_cursor, spec_scene_count(v, snap)),
                ..v
            },
            None,
        ),
        RoomView::LightPanel => {
            let c2 = cursor::spec_retreat_stay(v.light_cursor, spec_light_count(v, snap));
            let cmd = match (resolve::spec_resolve_room(v, snap), c2) {
                (Some(ri), Some(li)) => {
                    let lights = snap.rooms@[ri as int].lights@;
                    if (li as int) < lights.len() {
                        Some(
                            DeviceCommand::DimLight {
                                room: ri,
                                light: canonical_of(lights)[li as int],
                                increase: true,
                            },
                        )
                    } else {
                        None
                    }
                },
                _ => None,
            };
            (ViewState { light_cursor: c2, ..v }, cmd)
        },
    }
}

/// The command a confirmed selection issues: room and zone lists toggle
/// the group, the scene list recalls the scene, the light panel toggles
/// the selected light — or, with no light selected, asks the room's group
/// for an attention signal instead.
pub open spec fn spec_activate(v: ViewState, snap: Snapshot) -> Option<DeviceCommand> {
    if !(v.active_tab is Areas) {
        None
    } else {
        match v.room_active_view {
            RoomView::RoomList => match resolve::spec_resolve_room(v, snap) {
                Some(ri) => Some(DeviceCommand::ToggleRoom { room: ri }),
                None => None,
            },
            RoomView::ZoneList => match v.zone_cursor {
                Some(zi) => if (zi as int) < snap.zones@.len() {
                    Some(DeviceCommand::ToggleZone { zone: zi })
                } else {
                    None
                },
                None => None,
            },
            RoomView::SceneList => match (
                resolve::spec_resolve_room(v, snap),
                resolve::spec_resolve_scene(v, snap),
            ) {
                (Some(ri), Some(si)) => Some(DeviceCommand::RecallScene { room: ri, scene: si }),
                _ => None,
            },
            RoomView::LightPanel => match resolve::spec_resolve_room(v, snap) {
                Some(ri) => match v.light_cursor {
                    Some(li) => match resolve::spec_resolve_light(v, snap) {
                        Some(l) => Some(DeviceCommand::ToggleLight { room: ri, light: l }),
                        None => None,
                    },
                    None => Some(DeviceCommand::SignalRoom { room: ri }),
                },
                None => None,
            },
        }
    }
}

impl App {
    /// A fresh session: running, Areas tab at the room list, nothing
    /// selected.
    pub fn new() -> (a: App)
        ensures
            a.running,
            a.view.active_tab is Areas,
            a.view.room_active_view is RoomList,
            a.view.room_cursor is None,
            a.view.zone_cursor is None,
            a.view.scene_cursor is None,
            a.view.light_cursor is None,
    {
        App { running: true, view: ViewState::default() }
    }

    /// Periodic tick; the navigation state is untouched by time.
    pub fn tick(&self) {
    }

    /// Stop accepting input; in-flight device commands are not awaited.
    pub fn quit(&mut self)
        ensures
            !final(self).running,
            final(self).view == old(self).view,
    {
        self.running = false;
    }

    pub fn active_tab(&self) -> (t: Tab)
        ensures
            t == self.view.active_tab,
    {
        self.view.active_tab
    }

    /// The room the current selection denotes, if any (see
    /// `resolve::spec_resolve_room`).
    pub fn current_room(&self, snap: &Snapshot) -> (r: Option<usize>)
        ensures
            r == resolve::spec_resolve_room(self.view, *snap),
    {
        resolve::resolve_current_room(&self.view, snap)
    }

    /// The scene the current selection denotes, if any (see
    /// `resolve::spec_resolve_scene`).
    pub fn current_scene(&self, snap: &Snapshot) -> (r: Option<usize>)
        ensures
            r == resolve::spec_resolve_scene(self.view, *snap),
    {
        resolve::resolve_current_scene(&self.view, snap)
    }

    /// Advance the drill-down view (or, at the light panel, the light
    /// cursor). Outside the Areas tab this is an explicit no-op.
    pub fn next_view(&mut self, snap: &Snapshot) -> (r: NavResponse)
        ensures
            old(self).view.active_tab is Areas ==> r is Moved && final(self).view
                == spec_next_view(old(self).view, *snap) && final(self).running == old(
                self,
            ).running,
            !(old(self).view.active_tab is Areas) ==> r is Unsupported && *final(self) == *old(
                self,
            ),
    {
        match self.view.active_tab {
            Tab::Areas => {
                match self.view.room_active_view {
                    RoomView::RoomList => {
                        self.view.room_active_view = RoomView::ZoneList;
                    },
                    RoomView::ZoneList => {
                        self.view.room_active_view = RoomView::SceneList;
                    },
                    RoomView::SceneList => {
                        self.view.room_active_view = RoomView::LightPanel;
                    },
                    RoomView::LightPanel => {
                        let count = self.light_count(snap);
                        self.view.light_cursor = cursor::advance(self.view.light_cursor, count);
                    },
                }
                NavResponse::Moved
            },
            _ => NavResponse::Unsupported,
        }
    }

    /// Retreat the drill-down view; at the light panel a light cursor at
    /// rest pops to the scene list, otherwise only the cursor decrements.
    /// Outside the Areas tab this is an explicit no-op.
    pub fn prev_view(&mut self) -> (r: NavResponse)
        ensures
            old(self).view.active_tab is Areas ==> r is Moved && final(self).view
                == spec_prev_view(old(self).view) && final(self).running == old(self).running,
            !(old(self).view.active_tab is Areas) ==> r is Unsupported && *final(self) == *old(
                self,
            ),
    {
        match self.view.active_tab {
            Tab::Areas => {
                match self.view.room_active_view {
                    RoomView::LightPanel => {
                        match self.view.light_cursor {
                            None => {
                                self.view.room_active_view = RoomView::SceneList;
                            },
                            Some(i) => {
                                if i == 0 {
                                    self.view.room_active_view = RoomView::SceneList;
                                } else {
                                    self.view.light_cursor = Some(i - 1);
                                }
                            },
                        }
                    },
                    RoomView::SceneList => {
                        self.view.room_active_view = RoomView::ZoneList;
                    },
                    _ => {
                        self.view.room_active_view = RoomView::RoomList;
                    },
                }
                NavResponse::Moved
            },
            _ => NavResponse::Unsupported,
        }
    }

    /// Number of lights the light cursor currently ranges over.
    fn light_count(&self, snap: &Snapshot) -> (n: usize)
        ensures
            n == spec_light_count(self.view, *snap),
    {
        match resolve::resolve_current_room(&self.view, snap) {
            Some(ri) => snap.rooms[ri].lights.len(),
            None => 0,
        }
    }

    /// Number of scenes the scene cursor currently ranges over.
    fn scene_count(&self, snap: &Snapshot) -> (n: usize)
        ensures
            n == spec_scene_count(self.view, *snap),
    {
        match resolve::resolve_current_room(&self.view, snap) {
            Some(ri) => snap.rooms[ri].scenes.len(),
            None => 0,
        }
    }

    /// Move the active list's cursor one forward (see `spec_next_item`).
    pub fn next_list_item(&mut self, snap: &Snapshot) -> (r: NavResponse)
        ensures
            old(self).view.active_tab is Areas ==> ({
                let (v2, cmd) = spec_next_item(old(self).view, *snap);
                &&& final(self).view == v2
                &&& final(self).running == old(self).running
                &&& (cmd matches Some(c) ==> r == NavResponse::Dispatched(c))
                &&& (cmd is None ==> r is Moved)
            }),
            !(old(self).view.active_tab is Areas) ==> r is Unsupported && *final(self) == *old(
                self,
            ),
    {
        match self.view.active_tab {
            Tab::Areas => {
                match self.view.room_active_view {
                    RoomView::RoomList => {
                        self.view.room_cursor = cursor::advance(
                            self.view.room_cursor,
                            snap.rooms.len(),
                        );
                        self.view.scene_cursor = None;
                        NavResponse::Moved
                    },
                    RoomView::ZoneList => {
                        self.view.zone_cursor = cursor::advance(
                            self.view.zone_cursor,
                            snap.zones.len(),
                        );
                        self.view.scene_cursor = None;
                        NavResponse::Moved
                    },
                    RoomView::SceneList => {
                        let count = self.scene_count(snap);
                        self.view.scene_cursor = cursor::advance(self.view.scene_cursor, count);
                        NavResponse::Moved
                    },
                    RoomView::LightPanel => {
                        let ri_opt = resolve::resolve_current_room(&self.view, snap);
                        let count = self.light_count(snap);
                        self.view.light_cursor = cursor::advance(self.view.light_cursor, count);
                        self.dim_command(snap, ri_opt, false)
                    },
                }
            },
            _ => NavResponse::Unsupported,
        }
    }

    /// Move the active list's cursor one back (see `spec_prev_item`).
    pub fn prev_list_item(&mut self, snap: &Snapshot) -> (r: NavResponse)
        ensures
            old(self).view.active_tab is Areas ==> ({
                let (v2, cmd) = spec_prev_item(old(self).view, *snap);
                &&& final(self).view == v2
                &&& final(self).running == old(self).running
                &&& (cmd matches Some(c) ==> r == NavResponse::Dispatched(c))
                &&& (cmd is None ==> r is Moved)
            }),
            !(old(self).view.active_tab is Areas) ==> r is Unsupported && *final(self) == *old(
                self,
            ),
    {
        match self.view.active_tab {
            Tab::Areas => {
                match self.view.room_active_view {
                    RoomView::RoomList => {
                        self.view.room_cursor = cursor::retreat_stay(
                            self.view.room_cursor,
                            snap.rooms.len(),
                        );
                        self.view.scene_cursor = None;
                        NavResponse::Moved
                    },
                    RoomView::ZoneList => {
                        self.view.zone_cursor = cursor::retreat_stay(
                            self.view.zone_cursor,
                            snap.zones.len(),
                        );
                        self.view.scene_cursor = None;
                        NavResponse::Moved
                    },
                    RoomView::SceneList => {
                        let count = self.scene_count(snap);
                        self.view.scene_cursor = cursor::retreat_stay(
                            self.view.scene_cursor,
                            count,
                        );
                        NavResponse::Moved
                    },
                    RoomView::LightPanel => {
                        let ri_opt = resolve::resolve_current_room(&self.view, snap);
                        let count = self.light_count(snap);
                        self.view.light_cursor = cursor::retreat_stay(
                            self.view.light_cursor,
                            count,
                        );
                        self.dim_command(snap, ri_opt, true)
                    },
                }
            },
            _ => NavResponse::Unsupported,
        }
    }

    /// The dim command coupled to a light-panel cursor move, addressed to
    /// the light the (already updated) cursor rests on.
    fn dim_command(&self, snap: &Snapshot, ri_opt: Option<usize>, increase: bool) -> (r:
        NavResponse)
        requires
            ri_opt matches Some(ri) ==> (ri as int) < snap.rooms@.len(),
        ensures
            ({
                let cmd = match (ri_opt, self.view.light_cursor) {
                    (Some(ri), Some(li)) => {
                        let lights = snap.rooms@[ri as int].lights@;
                        if (li as int) < lights.len() {
                            Some(
                                DeviceCommand::DimLight {
                                    room: ri,
                                    light: canonical_of(lights)[li as int],
                                    increase,
                                },
                            )
                        } else {
                            None
                        }
                    },
                    _ => None,
                };
                &&& (cmd matches Some(c) ==> r == NavResponse::Dispatched(c))
                &&& (cmd is None ==> r is Moved)
            }),
    {
        match ri_opt {
            Some(ri) => {
                let room = &snap.rooms[ri];
                match self.view.light_cursor {
                    Some(li) => {
                        if li < room.lights.len() {
                            let ord = crate::order::canonical_order(&room.lights);
                            NavResponse::Dispatched(
                                DeviceCommand::DimLight { room: ri, light: ord[li], increase },
                            )
                        } else {
                            NavResponse::Moved
                        }
                    },
                    None => NavResponse::Moved,
                }
            },
            None => NavResponse::Moved,
        }
    }

    /// The command the current selection would issue on activation (see
    /// `spec_activate`); the navigation state itself is untouched.
    pub fn activate_current(&self, snap: &Snapshot) -> (r: Option<DeviceCommand>)
        ensures
            r == spec_activate(self.view, *snap),
    {
        match self.view.active_tab {
            Tab::Areas => {
                match self.view.room_active_view {
                    RoomView::RoomList => {
                        match resolve::resolve_current_room(&self.view, snap) {
                            Some(ri) => Some(DeviceCommand::ToggleRoom { room: ri }),
                            None => None,
                        }
                    },
                    RoomView::ZoneList => {
                        match self.view.zone_cursor {
                            Some(zi) => if zi < snap.zones.len() {
                                Some(DeviceCommand::ToggleZone { zone: zi })
                            } else {
                                None
                            },
                            None => None,
                        }
                    },
                    RoomView::SceneList => {
                        match resolve::resolve_current_room(&self.view, snap) {
                            Some(ri) => match resolve::resolve_current_scene(&self.view, snap) {
                                Some(si) => Some(
                                    DeviceCommand::RecallScene { room: ri, scene: si },
                                ),
                                None => None,
                            },
                            None => None,
                        }
                    },
                    RoomView::LightPanel => {
                        match resolve::resolve_current_room(&self.view, snap) {
                            Some(ri) => match self.view.light_cursor {
                                Some(_li) => match resolve::resolve_current_light(
                                    &self.view,
                                    snap,
                                ) {
                                    Some(l) => Some(
                                        DeviceCommand::ToggleLight { room: ri, light: l },
                                    ),
                                    None => None,
                                },
                                None => Some(DeviceCommand::SignalRoom { room: ri }),
                            },
                            None => None,
                        }
                    },
                }
            },
            _ => None,
        }
    }
}

/// Retreating from a light cursor at rest (none, or index 0) at the
/// deepest view pops exactly one view level, to the scene list; retreating
/// from a non-zero light cursor only decrements it and changes no view.
pub proof fn lemma_light_panel_retreat(v: ViewState)
    requires
        v.room_active_view is LightPanel,
    ensures
        (v.light_cursor is None || v.light_cursor == Some(0usize)) ==> spec_prev_view(v)
            == (ViewState { room_active_view: RoomView::SceneList, ..v }),
        (v.light_cursor is Some && v.light_cursor->0 > 0) ==> spec_prev_view(v) == (ViewState {
            light_cursor: Some((v.light_cursor->0 - 1) as usize),
            ..v
        }),
{
}

/// Moving the room or zone cursor — in either direction, for every state
/// and snapshot — always clears the scene cursor: a new parent context
/// invalidates the child selection.
pub proof fn lemma_parent_move_clears_scene(v: ViewState, snap: Snapshot)
    requires
        v.room_active_view is RoomList || v.room_active_view is ZoneList,
    ensures
        spec_next_item(v, snap).0.scene_cursor is None,
        spec_prev_item(v, snap).0.scene_cursor is None,
{
}

/// Activating the light panel with no light selected signals the room's
/// group rather than toggling any light; with the cursor on position 0 it
/// toggles the first light in canonical order.
pub proof fn lemma_light_panel_activate(v: ViewState, snap: Snapshot, ri: usize)
    requires
        v.active_tab is Areas,
        v.room_active_view is LightPanel,
        resolve::spec_resolve_room(v, snap) == Some(ri),
    ensures
        v.light_cursor is None ==> spec_activate(v, snap) == Some(
            DeviceCommand::SignalRoom { room: ri },
        ),
        (v.light_cursor == Some(0usize) && snap.rooms@[ri as int].lights@.len() > 0)
            ==> spec_activate(v, snap) == Some(
            DeviceCommand::ToggleLight {
                room: ri,
                light: canonical_of(snap.rooms@[ri as int].lights@)[0],
            },
        ),
{
}

} // verus!
