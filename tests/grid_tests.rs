use coin_bot::charting::{update_map, ChartUpdate};
use coin_bot::data_storage::{
    clear_previous_data, push_event, save_initial_data, update_initial_map, SimulationRecord,
};
use coin_bot::events::{MyEvent, WorldEvent};
use coin_bot::grid::{
    check_nearings, combine_maps, direction_of, walk_step, distance_sq, farthest_index, find_unknown, match_coordinates, nearest_index, reach_end_street,
    Direction,
};
use coin_bot::showcase::World10X10;
use coin_bot::world::{Content, ContentKind, Tile, TileType};

fn t(tile_type: TileType) -> Option<Tile> {
    Some(Tile { tile_type, content: Content { kind: ContentKind::Nothing, amount: 0 }, elevation: 0 })
}

#[test]
fn steps_are_clamped_at_edges() {
    for y in 0..6 {
        assert_eq!(match_coordinates((0, y), Direction::Up, 6), (0, y));
        assert_eq!(match_coordinates((5, y), Direction::Down, 6), (5, y));
    }
    assert_eq!(match_coordinates((3, 0), Direction::Left, 6), (3, 0));
    assert_eq!(match_coordinates((3, 5), Direction::Right, 6), (3, 5));
    assert_eq!(match_coordinates((3, 3), Direction::Up, 6), (2, 3));
    assert_eq!(match_coordinates((3, 3), Direction::Down, 6), (4, 3));
    assert_eq!(match_coordinates((3, 3), Direction::Left, 6), (3, 2));
    assert_eq!(match_coordinates((3, 3), Direction::Right, 6), (3, 4));
}

#[test]
fn squared_distances() {
    assert_eq!(distance_sq((0, 0), (3, 4)), 25);
    assert_eq!(distance_sq((3, 4), (0, 0)), 25);
    assert_eq!(distance_sq((7, 7), (7, 7)), 0);
}

#[test]
fn nearest_and_farthest_break_ties_by_order() {
    assert_eq!(nearest_index(&vec![], (0, 0)), None);
    assert_eq!(nearest_index(&vec![(5, 5), (1, 0), (0, 1)], (0, 0)), Some(1));
    assert_eq!(farthest_index(&vec![None, None], (0, 0)), None);
    assert_eq!(farthest_index(&vec![None, Some((1, 0)), Some((0, 3)), Some((3, 0))], (0, 0)), Some(2));
}

#[test]
fn dry_neighbour_of_street() {
    let map = vec![
        vec![t(TileType::ShallowWater), t(TileType::Street), None],
        vec![t(TileType::Lava), t(TileType::Street), t(TileType::Sand)],
        vec![t(TileType::Grass), t(TileType::Hill), t(TileType::Snow)],
    ];
    assert_eq!(check_nearings(&map, (1, 1)), Some((2, 1)));
    assert_eq!(check_nearings(&map, (0, 1)), None);
    assert_eq!(check_nearings(&map, (2, 0)), Some((2, 1)));
}

#[test]
fn street_ends_by_rings() {
    let map = vec![
        vec![t(TileType::Street), t(TileType::Grass), t(TileType::DeepWater)],
        vec![t(TileType::Street), t(TileType::DeepWater), t(TileType::DeepWater)],
        vec![t(TileType::DeepWater), t(TileType::DeepWater), t(TileType::DeepWater)],
    ];
    assert_eq!(reach_end_street(&map, (1, 1)), vec![(0, 1), (0, 1)]);
    assert_eq!(reach_end_street(&vec![vec![t(TileType::Street)]], (0, 0)), vec![]);
}

#[test]
fn random_walk_finds_frontier() {
    let g = t(TileType::Grass);
    let known = vec![vec![g; 4]; 4];
    assert_eq!(find_unknown((2, 2), &known), None);
    let mut map = vec![vec![g; 3]; 3];
    map[0][0] = None;
    for _ in 0..10 {
        if let Some(p) = find_unknown((2, 2), &map) {
            assert!(p == (0, 1) || p == (1, 0));
        }
    }
}

#[test]
fn chart_refresh_updates() {
    let map = vec![
        vec![
            Some(Tile { tile_type: TileType::Grass, content: Content { kind: ContentKind::Bank, amount: 0 }, elevation: 0 }),
            Some(Tile { tile_type: TileType::Grass, content: Content { kind: ContentKind::Other, amount: 3 }, elevation: 0 }),
        ],
        vec![
            None,
            Some(Tile { tile_type: TileType::Grass, content: Content { kind: ContentKind::Coin, amount: 3 }, elevation: 0 }),
        ],
    ];
    let u = update_map(&map);
    assert_eq!(u.len(), 3);
    assert!(matches!(u[0], ChartUpdate::Remove(ContentKind::Bank, (0, 0))));
    assert!(matches!(u[1], ChartUpdate::Remove(ContentKind::Coin, (1, 1))));
    assert!(matches!(u[2], ChartUpdate::Save(c, (1, 1)) if c.amount == 3));
}

#[test]
fn record_keeps_first_seen_tiles() {
    let mut record = SimulationRecord::new();
    let first = vec![vec![t(TileType::Grass), None], vec![None, None]];
    update_initial_map(&mut record, &first, true);
    assert_eq!(record.initial_map[0][0], t(TileType::Grass));
    assert_eq!(record.initial_map[1][1], None);
    match &record.simulation_events[0] {
        MyEvent::DiscoveredTiles(tiles) => assert_eq!(tiles, &vec![(0, 0)]),
        _ => panic!("expected discovered tiles"),
    }
    let second = vec![vec![t(TileType::Sand), t(TileType::Hill)], vec![None, t(TileType::Snow)]];
    update_initial_map(&mut record, &second, true);
    assert_eq!(record.initial_map, vec![vec![t(TileType::Grass), t(TileType::Hill)], vec![None, t(TileType::Snow)]]);
    match &record.simulation_events[1] {
        MyEvent::DiscoveredTiles(tiles) => assert_eq!(tiles, &vec![(0, 1), (1, 1)]),
        _ => panic!("expected discovered tiles"),
    }
    update_initial_map(&mut record, &second, false);
    assert_eq!(record.simulation_events.len(), 2);
    save_initial_data(&mut record, (1, 0));
    assert_eq!(record.setup_data.robot_spawn_position, (1, 0));
    clear_previous_data(&mut record);
    assert!(record.initial_map.is_empty());
    assert!(record.simulation_events.is_empty());
    assert_eq!(record.setup_data.robot_spawn_position, (1, 0));
}

#[test]
fn event_queue_drops_clock_events() {
    let mut record = SimulationRecord::new();
    push_event(&mut record, MyEvent::RobLib(WorldEvent::Ready));
    push_event(&mut record, MyEvent::RobLib(WorldEvent::DayChanged));
    assert!(record.simulation_events.is_empty());
    push_event(&mut record, MyEvent::RobLib(WorldEvent::Terminated));
    push_event(&mut record, MyEvent::DiscoveredTiles(vec![]));
    assert_eq!(record.simulation_events.len(), 2);
}

#[test]
fn showcase_world_layout() {
    let (map, spawn) = World10X10::new().gen();
    assert_eq!(spawn, (0, 0));
    assert_eq!(map.len(), 10);
    assert!(map.iter().all(|r| r.len() == 10));
    assert_eq!(map[0][0].tile_type, TileType::Teleport(false));
    assert_eq!(map[0][0].elevation, 40);
    assert_eq!(map[1][0].content, Content { kind: ContentKind::Rock, amount: 5 });
    assert_eq!(map[2][7].content, Content { kind: ContentKind::Coin, amount: 2 });
    assert_eq!(map[3][2].tile_type, TileType::ShallowWater);
    assert_eq!(map[5][0].tile_type, TileType::Wall);
    assert_eq!(map[7][9].tile_type, TileType::DeepWater);
    assert_eq!(map[9][1].content, Content { kind: ContentKind::Market, amount: 100 });
    assert_eq!(map[9][8].content, Content { kind: ContentKind::Bank, amount: 100 });
    assert_eq!(map[9][5].tile_type, TileType::Teleport(false));
    assert_eq!(map[9][9].elevation, 4);
    for row in &map[..9] {
        assert_eq!(row[5].tile_type, TileType::Street);
    }
}

#[test]
fn snapshots_merge_first_known() {
    let a = t(TileType::Sand);
    let b = t(TileType::Grass);
    let c = t(TileType::Hill);
    let d = t(TileType::Snow);
    let maps = vec![vec![vec![None, a], vec![None, None]], vec![vec![b, c], vec![None, d]]];
    let merged = combine_maps(&maps, 2);
    assert_eq!(merged, vec![vec![b, a], vec![None, d]]);
    assert_eq!(combine_maps(&vec![], 1), vec![vec![None]]);
}

#[test]
fn walk_steps_stop_before_unknown() {
    let g = t(TileType::Grass);
    let map = vec![vec![None, g], vec![g, g]];
    assert_eq!(walk_step(&map, (1, 1), Direction::Up), Ok((0, 1)));
    assert_eq!(walk_step(&map, (0, 1), Direction::Left), Err((0, 1)));
    assert_eq!(walk_step(&map, (1, 1), Direction::Down), Ok((1, 1)));
    assert_eq!(direction_of(0), Direction::Up);
    assert_eq!(direction_of(3), Direction::Right);
}

#[test]
fn walk_from_surrounded_start_stays() {
    let mut map = vec![vec![None; 3]; 3];
    map[1][1] = t(TileType::Grass);
    for _ in 0..10 {
        assert_eq!(find_unknown((1, 1), &map), Some((1, 1)));
    }
}

#[test]
fn record_grows_to_larger_maps() {
    let mut record = SimulationRecord::new();
    update_initial_map(&mut record, &vec![vec![t(TileType::Sand)]], false);
    let bigger = vec![vec![t(TileType::Lava), None], vec![None, t(TileType::Hill)]];
    update_initial_map(&mut record, &bigger, false);
    assert_eq!(record.initial_map, vec![vec![t(TileType::Sand), None], vec![None, t(TileType::Hill)]]);
    assert!(record.simulation_events.is_empty());
}
