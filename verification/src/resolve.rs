//! Entity resolution: from the current view state and an inventory
//! snapshot to the concrete room, scene or light a cursor denotes. A cursor
//! pointing past the current inventory (the snapshot may have shrunk since
//! the selection was made) resolves to no selection, never to a stale
//! entity and never to an error.

use vstd::prelude::*;

use crate::app::{Tab, ViewState};
use crate::order::{canonical_of, canonical_order};
use crate::snapshot::Snapshot;

verus! {

/// The room the room cursor denotes: only on the Areas tab, and only while
/// the index still lies within the snapshot.
pub open spec fn spec_resolve_room(v: ViewState, snap: Snapshot) -> Option<usize> {
    if v.active_tab is Areas {
        match v.room_cursor {
            Some(ri) => if (ri as int) < snap.rooms@.len() {
                Some(ri)
            } else {
                None
            },
            None => None,
        }
    } else {
        None
    }
}

/// The scene the scene cursor denotes, conditioned on a resolved room.
pub open spec fn spec_resolve_scene(v: ViewState, snap: Snapshot) -> Option<usize> {
    match spec_resolve_room(v, snap) {
        Some(ri) => match v.scene_cursor {
            Some(si) => if (si as int) < snap.rooms@[ri as int].scenes@.len() {
                Some(si)
            } else {
                None
            },
            None => None,
        },
        None => None,
    }
}

/// The light the light cursor denotes, as an index into the resolved
/// room's light list: the cursor counts positions of the canonical order
/// (color-capable first, then name), so position `li` denotes light
/// `canonical_of(lights)[li]`.
pub open spec fn spec_resolve_light(v: ViewState, snap: Snapshot) -> Option<usize> {
    match spec_resolve_room(v, snap) {
        Some(ri) => {
            let lights = snap.rooms@[ri as int].lights@;
            match v.light_cursor {
                Some(li) => if (li as int) < lights.len() {
                    Some(canonical_of(lights)[li as int])
                } else {
                    None
                },
                None => None,
            }
        },
        None => None,
    }
}

pub fn resolve_current_room(view: &ViewState, snap: &Snapshot) -> (r: Option<usize>)
    ensures
        r == spec_resolve_room(*view, *snap),
        r matches Some(ri) ==> (ri as int) < snap.rooms@.len(),
{
    match view.active_tab {
        Tab::Areas => match view.room_cursor {
            Some(ri) => if ri < snap.rooms.len() {
                Some(ri)
            } else {
                None
            },
            None => None,
        },
        _ => None,
    }
}

pub fn resolve_current_scene(view: &ViewState, snap: &Snapshot) -> (r: Option<usize>)
    ensures
        r == spec_resolve_scene(*view, *snap),
        r matches Some(si) ==> (spec_resolve_room(*view, *snap) matches Some(ri) && (si as int)
            < snap.rooms@[ri as int].scenes@.len()),
{
    match resolve_current_room(view, snap) {
        Some(ri) => match view.scene_cursor {
            Some(si) => if si < snap.rooms[ri].scenes.len() {
                Some(si)
            } else {
                None
            },
            None => None,
        },
        None => None,
    }
}

pub fn resolve_current_light(view: &ViewState, snap: &Snapshot) -> (r: Option<usize>)
    ensures
        r == spec_resolve_light(*view, *snap),
        r matches Some(l) ==> (spec_resolve_room(*view, *snap) matches Some(ri) && (l as int)
            < snap.rooms@[ri as int].lights@.len()),
{
    match resolve_current_room(view, snap) {
        Some(ri) => {
            let room = &snap.rooms[ri];
            match view.light_cursor {
                Some(li) => if li < room.lights.len() {
                    let ord = canonical_order(&room.lights);
                    let l = ord[li];
                    proof {
                        assert(ord@.contains(ord@[li as int]));
                    }
                    Some(l)
                } else {
                    None
                },
                None => None,
            }
        },
        None => None,
    }
}

} // verus!
