//! Read-only model of the device inventory: rooms, zones, and each room's
//! scenes and lights. A snapshot is built by the surrounding program from
//! whatever the bridge reported and is only ever read here; the cursors are
//! bounded against it anew at every use, so a stale snapshot can make a
//! selection miss but never an out-of-bounds access.

use vstd::prelude::*;

verus! {

/// One controllable light, reduced to what navigation needs: its display
/// name and whether it can show color (the primary sort key of the panel).
#[derive(Debug)]
pub struct Light {
    pub name: String,
    pub color_capable: bool,
}

/// A stored lighting configuration that a room can recall.
#[derive(Debug)]
pub struct Scene {
    pub name: String,
}

/// A named group of lights independent of the room grouping.
#[derive(Debug)]
pub struct Zone {
    pub name: String,
}

/// A room: a named group of lights with its recallable scenes.
#[derive(Debug)]
pub struct Room {
    pub name: String,
    pub scenes: Vec<Scene>,
    pub lights: Vec<Light>,
}

/// The whole inventory at one instant.
#[derive(Debug)]
pub struct Snapshot {
    pub rooms: Vec<Room>,
    pub zones: Vec<Zone>,
}

impl Snapshot {
    pub fn new() -> (s: Snapshot)
        ensures
            s.rooms@.len() == 0,
            s.zones@.len() == 0,
    {
        Snapshot { rooms: Vec::new(), zones: Vec::new() }
    }

    pub fn n_rooms(&self) -> (n: usize)
        ensures
            n == self.rooms@.len(),
    {
        self.rooms.len()
    }

    pub fn n_zones(&self) -> (n: usize)
        ensures
            n == self.zones@.len(),
    {
        self.zones.len()
    }
}

} // verus!
