use coin_bot::actions::{
    deposit_outcome, destination, destroy_outcome, destroy_target, recycle_outcome, recycle_plan, sell_outcome,
    strike_direction, to_be_sold, ActionErr, ActionReport, PathStep, PathWalk, PlanTarget, ToolError,
};
use coin_bot::backpack::Backpack;
use coin_bot::explore::{
    frontier_target, mode_for, pick_frontier, street_exit, ExploreCommand, ExploreMode, NearingsRun,
};
use coin_bot::grid::Direction;
use coin_bot::world::{Content, ContentKind, Tile, TileType};

fn tile(tile_type: TileType, kind: ContentKind, amount: usize) -> Option<Tile> {
    Some(Tile { tile_type, content: Content { kind, amount }, elevation: 1 })
}

fn market_map() -> Vec<Vec<Option<Tile>>> {
    vec![
        vec![tile(TileType::Grass, ContentKind::Nothing, 0), tile(TileType::Street, ContentKind::Market, 7)],
        vec![tile(TileType::Grass, ContentKind::Nothing, 0), None],
    ]
}

#[test]
fn destroy_with_no_known_target_needs_exploring() {
    assert_eq!(destroy_target(&vec![], (3, 3)), Err(ActionErr::NeedsExploring));
    assert_eq!(destroy_target(&vec![], (usize::MAX, usize::MAX)), Err(ActionErr::NeedsExploring));
}

#[test]
fn destroy_picks_first_nearest() {
    let known = vec![(9, 9), (2, 3), (4, 3), (3, 4)];
    assert_eq!(destroy_target(&known, (3, 3)), Ok((2, 3)));
    assert_eq!(destroy_target(&vec![(0, 0)], (5, 5)), Ok((0, 0)));
}

#[test]
fn recycling_needs_five_garbage() {
    let b = Backpack { size: 20, contents: vec![(ContentKind::Garbage, 4)] };
    assert_eq!(recycle_plan(&b), Err(ActionErr::NotEnough));
    let b = Backpack { size: 20, contents: vec![(ContentKind::Coin, 1), (ContentKind::Garbage, 11)] };
    assert_eq!(recycle_plan(&b), Ok(2));
    assert!(matches!(recycle_outcome(Ok(())), Ok(ActionReport::Completed)));
    assert_eq!(recycle_outcome(Err(ToolError::Other)).err(), Some(ActionErr::NotEnough));
}

#[test]
fn market_target_prefers_best_known() {
    assert!(matches!(destination(Some((4, 5)), ContentKind::Market), PlanTarget::Coordinates((4, 5))));
    assert!(matches!(destination(None, ContentKind::Market), PlanTarget::NearestContent(ContentKind::Market)));
}

#[test]
fn path_walk_stops_before_destination() {
    assert_eq!(PathWalk::start(Err(ToolError::Other)).err(), Some(ActionErr::NeedsExploring));
    assert_eq!(PathWalk::start(Ok(vec![])).err(), Some(ActionErr::NeedsExploring));
    let steps = vec![PathStep::Go(Direction::Down), PathStep::Teleport((5, 5)), PathStep::Go(Direction::Right)];
    let mut w = PathWalk::start(Ok(steps)).unwrap();
    assert!(matches!(w.next_step(), Some(PathStep::Go(Direction::Down))));
    assert_eq!(w.step_done(true), Ok(()));
    assert!(matches!(w.next_step(), Some(PathStep::Teleport((5, 5)))));
    assert_eq!(w.step_done(true), Ok(()));
    assert!(w.next_step().is_none());
    assert_eq!(w.final_direction(), Ok(Direction::Right));
    let mut w = PathWalk::start(Ok(vec![PathStep::Go(Direction::Up), PathStep::Teleport((1, 1))])).unwrap();
    assert_eq!(w.step_done(false), Err(ActionErr::NotEnoughEnergy));
    assert_eq!(w.final_direction(), Err(ActionErr::NotFound));
}

#[test]
fn sell_lists_only_sellable_items() {
    let b = Backpack {
        size: 20,
        contents: vec![
            (ContentKind::Coin, 3),
            (ContentKind::Fish, 1),
            (ContentKind::Tree, 0),
            (ContentKind::Rock, 2),
            (ContentKind::Garbage, 5),
        ],
    };
    assert_eq!(to_be_sold(&b), vec![ContentKind::Fish, ContentKind::Rock]);
}

#[test]
fn sell_outcomes() {
    let map = market_map();
    let r = sell_outcome(Ok(vec![(ContentKind::Tree, 2), (ContentKind::Rock, 3)]), (0, 0), Direction::Right, &map);
    match r {
        Ok(ActionReport::Traded { amount, at, content }) => {
            assert_eq!(amount, 5);
            assert_eq!(at, (0, 1));
            assert_eq!(content, Content { kind: ContentKind::Market, amount: 7 });
        }
        _ => panic!("expected a trade"),
    }
    assert_eq!(sell_outcome(Ok(vec![]), (0, 0), Direction::Right, &map).err(), Some(ActionErr::NotEnough));
    assert_eq!(
        sell_outcome(Err(ToolError::NotEnoughSpace), (0, 0), Direction::Right, &map).err(),
        Some(ActionErr::Full)
    );
    assert_eq!(sell_outcome(Err(ToolError::Other), (0, 0), Direction::Right, &map).err(), Some(ActionErr::NotEnough));
}

#[test]
fn deposit_outcomes() {
    let map = market_map();
    match deposit_outcome(Ok(()), 6, (1, 0), Direction::Right, &map) {
        Ok(ActionReport::Traded { amount, at, content }) => {
            assert_eq!(amount, 6);
            assert_eq!(at, (1, 1));
            assert_eq!(content.kind, ContentKind::Nothing);
        }
        _ => panic!("expected a deposit"),
    }
    assert_eq!(deposit_outcome(Err(ToolError::Other), 6, (1, 0), Direction::Up, &map).err(), Some(ActionErr::NotFound));
}

#[test]
fn destroy_final_step() {
    assert_eq!(strike_direction(Err(ToolError::Other)), Err(ActionErr::NeedsExploring));
    assert_eq!(strike_direction(Ok(vec![PathStep::Go(Direction::Left)])), Ok(Direction::Left));
    assert_eq!(
        strike_direction(Ok(vec![PathStep::Go(Direction::Left), PathStep::Go(Direction::Up)])),
        Err(ActionErr::NotFound)
    );
    assert_eq!(strike_direction(Ok(vec![PathStep::Teleport((0, 0))])), Err(ActionErr::NotFound));
    assert!(matches!(destroy_outcome(Ok(()), (2, 2), Direction::Up, 5), Ok(ActionReport::DestroyedAt((1, 2)))));
    assert_eq!(destroy_outcome(Err(ToolError::NotEnoughSpace), (2, 2), Direction::Up, 5).err(), Some(ActionErr::Full));
    assert_eq!(
        destroy_outcome(Err(ToolError::Other), (2, 2), Direction::Up, 5).err(),
        Some(ActionErr::NeedsExploring)
    );
}

fn run_all(run: &mut NearingsRun, oks: &[bool]) -> Vec<(ExploreCommand, Option<Result<ActionReport, ActionErr>>)> {
    let mut seen = Vec::new();
    for ok in oks {
        let cmd = run.next_command().unwrap();
        let r = run.report(*ok);
        let done = r.is_some();
        seen.push((cmd, r));
        if done {
            break;
        }
    }
    seen
}

#[test]
fn sweep_covers_four_directions() {
    let mut run = NearingsRun::new(0, (4, 4), 5);
    assert_eq!(run.commands.len(), 9);
    let seen = run_all(&mut run, &[true; 9]);
    assert_eq!(seen.len(), 9);
    assert!(matches!(seen[0].0, ExploreCommand::StartCharting));
    assert!(matches!(seen[1].0, ExploreCommand::DiscoverLine(Direction::Up, 5)));
    assert!(matches!(seen[2].0, ExploreCommand::Recenter((4, 4))));
    assert!(matches!(seen[3].0, ExploreCommand::DiscoverLine(Direction::Down, 5)));
    assert!(matches!(seen[5].0, ExploreCommand::DiscoverLine(Direction::Left, 5)));
    assert!(matches!(seen[7].0, ExploreCommand::DiscoverLine(Direction::Right, 5)));
    assert!(matches!(seen[8].0, ExploreCommand::PublishTiles));
    assert!(matches!(seen[8].1, Some(Ok(ActionReport::Completed))));
    assert!(seen[..8].iter().all(|(_, r)| r.is_none()));
}

#[test]
fn lit_spotlight_publishes_then_completes() {
    let mut run = NearingsRun::new(3, (0, 0), 10);
    assert_eq!(run.commands.len(), 11);
    let seen = run_all(&mut run, &[true; 11]);
    assert_eq!(seen.len(), 2);
    assert!(matches!(seen[0], (ExploreCommand::Illuminate(10), None)));
    assert!(matches!(seen[1], (ExploreCommand::PublishTiles, Some(Ok(ActionReport::Completed)))));
}

#[test]
fn failed_spotlight_falls_back_to_sweep() {
    let mut run = NearingsRun::new(3, (2, 2), 10);
    let mut oks = vec![false];
    oks.extend([true; 10]);
    let seen = run_all(&mut run, &oks);
    assert_eq!(seen.len(), 11);
    assert!(matches!(seen[1], (ExploreCommand::PublishTiles, None)));
    assert!(matches!(seen[2].0, ExploreCommand::StartCharting));
    assert!(matches!(seen[3].0, ExploreCommand::DiscoverLine(Direction::Up, 10)));
    assert!(matches!(seen[10], (ExploreCommand::PublishTiles, Some(Ok(ActionReport::Completed)))));
}

#[test]
fn exploration_failures() {
    let mut run = NearingsRun::new(0, (1, 1), 5);
    let seen = run_all(&mut run, &[false]);
    assert_eq!(seen[0].1.unwrap().err(), Some(ActionErr::NotFound));
    let mut run = NearingsRun::new(0, (1, 1), 5);
    let seen = run_all(&mut run, &[true, true, false, true]);
    assert_eq!(seen.len(), 3);
    assert!(matches!(seen[2].0, ExploreCommand::Recenter((1, 1))));
    assert_eq!(seen[2].1.unwrap().err(), Some(ActionErr::NotEnoughEnergy));
}

#[test]
fn exploration_mode_by_draw() {
    assert_eq!(mode_for(0), ExploreMode::Street);
    assert_eq!(mode_for(1), ExploreMode::Frontier);
    assert_eq!(mode_for(19), ExploreMode::Frontier);
}

#[test]
fn farthest_sample_is_picked() {
    assert_eq!(pick_frontier(&vec![None, None, None, None], (0, 0)), Err(ActionErr::NeedsExploring));
    assert_eq!(pick_frontier(&vec![Some((1, 1)), None, Some((3, 0)), Some((0, 3))], (0, 0)), Ok((3, 0)));
}

#[test]
fn surrounded_robot_stays_put() {
    let g = tile(TileType::Grass, ContentKind::Nothing, 0);
    let mut map = vec![vec![None; 3]; 3];
    map[1][1] = g;
    assert_eq!(frontier_target((1, 1), &map), Ok((1, 1)));
}

#[test]
fn street_exit_picks_a_listed_exit() {
    assert_eq!(street_exit(&vec![]), Err(ActionErr::NeedsExploring));
    assert_eq!(street_exit(&vec![(7, 1)]), Ok((7, 1)));
    let exits = vec![(1, 1), (2, 2), (3, 3)];
    for _ in 0..20 {
        let e = street_exit(&exits).unwrap();
        assert!(exits.contains(&e));
    }
}

#[test]
fn frontier_on_known_world_fails() {
    let g = tile(TileType::Grass, ContentKind::Nothing, 0);
    let map = vec![vec![g; 3]; 3];
    assert_eq!(frontier_target((1, 1), &map), Err(ActionErr::NeedsExploring));
}

#[test]
fn frontier_next_to_unknown() {
    let g = tile(TileType::Grass, ContentKind::Nothing, 0);
    let map = vec![vec![g, None], vec![g, g]];
    for _ in 0..10 {
        match frontier_target((1, 0), &map) {
            Ok(p) => assert!(p == (0, 0) || p == (1, 1)),
            Err(e) => assert_eq!(e, ActionErr::NeedsExploring),
        }
    }
}
