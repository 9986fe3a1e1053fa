use vstd::prelude::*;

use crate::events::{is_ignored, MyEvent, WorldEvent};
use crate::grid::{cell, in_grid, is_square};
use crate::world::Tile;

verus! {

/// Where the robot started its run.
#[derive(Clone, Copy, Debug)]
pub struct InitialData {
    pub robot_spawn_position: (usize, usize),
}

/// What a run leaves for the visualisers: every tile as first discovered, in
/// a grid with `None` where nothing was seen yet, the tile-grid event queue
/// and the spawn position.
#[derive(Clone, Debug)]
pub struct SimulationRecord {
    pub initial_map: Vec<Vec<Option<Tile>>>,
    pub simulation_events: Vec<MyEvent>,
    pub setup_data: InitialData,
}

impl SimulationRecord {
    /// The first-seen grid is square.
    pub open spec fn wf(&self) -> bool {
        is_square(self.initial_map@)
    }

    pub fn new() -> (r: SimulationRecord)
        ensures
            r.wf(),
            r.initial_map@.len() == 0,
            r.simulation_events@.len() == 0,
            r.setup_data.robot_spawn_position == (0usize, 0usize),
    {
        SimulationRecord {
            initial_map: Vec::new(),
            simulation_events: Vec::new(),
            setup_data: InitialData { robot_spawn_position: (0, 0) },
        }
    }
}

/// The tile first recorded at `p`, if any.
pub open spec fn recorded(g: Seq<Vec<Option<Tile>>>, p: (usize, usize)) -> Option<Tile> {
    if p.0 < g.len() && p.1 < g[p.0 as int]@.len() {
        g[p.0 as int]@[p.1 as int]
    } else {
        None
    }
}

/// Queues an event for the tile-grid visualiser; readiness and clock events
/// are dropped.
pub fn push_event(record: &mut SimulationRecord, event: MyEvent)
    ensures
        final(record).initial_map == old(record).initial_map,
        final(record).setup_data == old(record).setup_data,
        (event matches MyEvent::RobLib(e) && is_ignored(e)) ==> final(record).simulation_events@
            == old(record).simulation_events@,
        !(event matches MyEvent::RobLib(e) && is_ignored(e)) ==> final(record).simulation_events@
            == old(record).simulation_events@.push(event),
{
    match &event {
        MyEvent::RobLib(WorldEvent::Ready) | MyEvent::RobLib(WorldEvent::TimeChanged) | MyEvent::RobLib(
            WorldEvent::DayChanged,
        ) => {},
        _ => record.simulation_events.push(event),
    }
}

fn recorded_at(g: &Vec<Vec<Option<Tile>>>, p: (usize, usize)) -> (r: Option<Tile>)
    ensures
        r == recorded(g@, p),
{
    if p.0 < g.len() {
        let row = &g[p.0];
        if p.1 < row.len() {
            return row[p.1];
        }
    }
    None
}

/// `q` comes before cell `(i, j)` in row-major order.
pub open spec fn before(q: (usize, usize), i: int, j: int) -> bool {
    q.0 < i || (q.0 == i && q.1 < j)
}

/// The first-seen tile of `p` once `map` has been merged into `g`.
pub open spec fn merged(g: Seq<Vec<Option<Tile>>>, map: Seq<Vec<Option<Tile>>>, p: (usize, usize)) -> Option<Tile> {
    if recorded(g, p) is Some || !in_grid(p, map.len() as int) {
        recorded(g, p)
    } else {
        cell(map, p)
    }
}

/// The cell is known in `map` and was not recorded in `g`.
pub open spec fn newly_found(g: Seq<Vec<Option<Tile>>>, map: Seq<Vec<Option<Tile>>>, p: (usize, usize)) -> bool {
    in_grid(p, map.len() as int) && cell(map, p) is Some && recorded(g, p) is None
}

/// Records every known tile of `robot_map` that was not recorded before, and,
/// when `discovered`, queues the set of those tiles for the visualiser.
pub fn update_initial_map(record: &mut SimulationRecord, robot_map: &Vec<Vec<Option<Tile>>>, discovered: bool)
    requires
        old(record).wf(),
        is_square(robot_map@),
    ensures
        final(record).wf(),
        final(record).setup_data == old(record).setup_data,
        forall|p: (usize, usize)| #[trigger]
            recorded(final(record).initial_map@, p) == merged(old(record).initial_map@, robot_map@, p),
        !discovered ==> final(record).simulation_events@ == old(record).simulation_events@,
        discovered ==> {
            &&& final(record).simulation_events@.len() == old(record).simulation_events@.len() + 1
            &&& final(record).simulation_events@.drop_last() == old(record).simulation_events@
            &&& final(record).simulation_events@.last() matches MyEvent::DiscoveredTiles(tiles) && forall|
                p: (usize, usize),
            | #[trigger] tiles@.contains(p) <==> newly_found(old(record).initial_map@, robot_map@, p)
        },
{
    let ghost old_map = record.initial_map@;
    let n = robot_map.len();
    let m = if record.initial_map.len() > n { record.initial_map.len() } else { n };
    let mut grid: Vec<Vec<Option<Tile>>> = Vec::new();
    let mut tiles: Vec<(usize, usize)> = Vec::new();
    let mut i: usize = 0;
    while i < m
        invariant
            n == robot_map@.len(),
            is_square(robot_map@),
            is_square(old_map),
            old_map == old(record).initial_map@,
            record.initial_map@ == old_map,
            m >= n && m >= old_map.len(),
            0 <= i <= m,
            grid@.len() == i,
            forall|a: int| 0 <= a < i ==> (#[trigger] grid@[a])@.len() == m,
            forall|p: (usize, usize)|
                p.0 < i && p.1 < m ==> #[trigger] recorded(grid@, p) == merged(old_map, robot_map@, p),
            forall|p: (usize, usize)| #[trigger]
                tiles@.contains(p) <==> before(p, i as int, 0) && newly_found(old_map, robot_map@, p),
        decreases m - i,
    {
        let mut row: Vec<Option<Tile>> = Vec::new();
        let mut j: usize = 0;
        while j < m
            invariant
                n == robot_map@.len(),
                is_square(robot_map@),
                is_square(old_map),
                old_map == old(record).initial_map@,
                record.initial_map@ == old_map,
                m >= n && m >= old_map.len(),
                0 <= i < m,
                0 <= j <= m,
                row@.len() == j,
                forall|b: int| 0 <= b < j ==> #[trigger] row@[b] == merged(old_map, robot_map@, (i, b as usize)),
                forall|p: (usize, usize)| #[trigger]
                    tiles@.contains(p) <==> before(p, i as int, j as int) && newly_found(old_map, robot_map@, p),
            decreases m - j,
        {
            let seen = recorded_at(&record.initial_map, (i, j));
            let ghost prev_tiles = tiles@;
            let c = if seen.is_some() {
                seen
            } else if i < n && j < n {
                let map_row = &robot_map[i];
                assert(map_row@ == robot_map@[i as int]@);
                let found = map_row[j];
                if found.is_some() {
                    tiles.push((i, j));
                }
                found
            } else {
                None
            };
            proof {
                assert(c == merged(old_map, robot_map@, (i, j)));
                assert forall|p: (usize, usize)| #[trigger]
                    tiles@.contains(p) <==> before(p, i as int, j + 1) && newly_found(old_map, robot_map@, p) by {
                    assert(prev_tiles.contains(p) == (before(p, i as int, j as int) && newly_found(old_map, robot_map@, p)));
                    if tiles@.len() > prev_tiles.len() {
                        assert(tiles@ == prev_tiles.push((i, j)));
                        if p == (i, j) {
                            assert(tiles@[tiles@.len() - 1] == p);
                        } else {
                            if tiles@.contains(p) {
                                let k = choose|k: int| 0 <= k < tiles@.len() && tiles@[k] == p;
                                assert(prev_tiles[k] == p);
                            }
                            if prev_tiles.contains(p) {
                                let k = choose|k: int| 0 <= k < prev_tiles.len() && prev_tiles[k] == p;
                                assert(tiles@[k] == p);
                            }
                        }
                    } else {
                        assert(tiles@ == prev_tiles);
                        assert(!newly_found(old_map, robot_map@, (i, j)));
                    }
                }
            }
            row.push(c);
            j = j + 1;
        }
        let ghost prev_grid = grid@;
        grid.push(row);
        proof {
            assert forall|p: (usize, usize)| p.0 < i + 1 && p.1 < m implies #[trigger] recorded(grid@, p) == merged(
                old_map,
                robot_map@,
                p,
            ) by {
                if p.0 < i {
                    assert(grid@[p.0 as int] == prev_grid[p.0 as int]);
                    assert(recorded(prev_grid, p) == merged(old_map, robot_map@, p));
                } else {
                    assert(grid@[p.0 as int]@[p.1 as int] == row@[p.1 as int]);
                }
            }
        }
        i = i + 1;
    }
    proof {
        assert forall|p: (usize, usize)| #[trigger] recorded(grid@, p) == merged(old_map, robot_map@, p) by {
            if !(p.0 < m && p.1 < m) {
                if p.0 < old_map.len() {
                    assert(old_map[p.0 as int]@.len() == old_map.len());
                }
            }
        }
        assert forall|p: (usize, usize)| #[trigger] tiles@.contains(p) == newly_found(old_map, robot_map@, p) by {
            assert(tiles@.contains(p) == (before(p, m as int, 0) && newly_found(old_map, robot_map@, p)));
        }
    }
    record.initial_map = grid;
    if discovered {
        push_event(record, MyEvent::DiscoveredTiles(tiles));
    }
}

/// Keeps the robot's spawn position for the visualisers.
pub fn save_initial_data(record: &mut SimulationRecord, robot_spawn_position: (usize, usize))
    ensures
        final(record).setup_data == (InitialData { robot_spawn_position }),
        final(record).initial_map == old(record).initial_map,
        final(record).simulation_events == old(record).simulation_events,
{
    record.setup_data = InitialData { robot_spawn_position };
}

/// Forgets the tiles and events of an earlier run.
pub fn clear_previous_data(record: &mut SimulationRecord)
    ensures
        final(record).wf(),
        final(record).initial_map@.len() == 0,
        final(record).simulation_events@.len() == 0,
        final(record).setup_data == old(record).setup_data,
{
    record.initial_map.clear();
    record.simulation_events.clear();
}

} // verus!
