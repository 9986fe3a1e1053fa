use vstd::prelude::*;

use crate::world::{Content, Tile};

verus! {

/// A notification from the world simulation.
#[derive(Clone, Copy, Debug)]
pub enum WorldEvent {
    Ready,
    Terminated,
    TimeChanged,
    DayChanged,
    EnergyRecharged(usize),
    EnergyConsumed(usize),
    Moved(Tile, (usize, usize)),
    TileContentUpdated(Tile, (usize, usize)),
    AddedToBackpack(Content, usize),
    RemovedFromBackpack(Content, usize),
}

/// An entry of the tile-grid visualisation queue.
#[derive(Clone, Debug)]
pub enum MyEvent {
    RobLib(WorldEvent),
    DiscoveredTiles(Vec<(usize, usize)>),
}

/// An entry of the richer visualisation queue.
#[derive(Debug)]
pub enum MyEvents2 {
    Event(WorldEvent),
    RobotSpawned((usize, usize)),
    UsedTool(Vec<Vec<Option<Tile>>>),
    ContentInteracted(Content, (usize, usize)),
}

/// World events that the tile-grid queue has no use for.
pub open spec fn is_ignored(e: WorldEvent) -> bool {
    e is Ready || e is TimeChanged || e is DayChanged
}

/// World events that the richer queue keeps.
pub open spec fn is_shown(e: WorldEvent) -> bool {
    e is Terminated || e is Moved || e is AddedToBackpack || e is RemovedFromBackpack
}

} // verus!
