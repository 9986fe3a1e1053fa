use coin_bot::actions::{ActionErr, ActionReport};
use coin_bot::agent::{classify_outcome, destroy_target_kind, MyRobot, TickPlan, ENERGY_THRESHOLD};
use coin_bot::backpack::{check_backpack, count_coins_and_items, full, quantity, Backpack};
use coin_bot::charting::ChartUpdate;
use coin_bot::data_storage::SimulationRecord;
use coin_bot::events::{MyEvent, MyEvents2, WorldEvent};
use coin_bot::states::{Action, States};
use coin_bot::world::{Content, ContentKind, Tile, TileType};

fn pack(size: usize, contents: &[(ContentKind, usize)]) -> Backpack {
    Backpack { size, contents: contents.to_vec() }
}

fn grass(kind: ContentKind, amount: usize) -> Option<Tile> {
    Some(Tile { tile_type: TileType::Grass, content: Content { kind, amount }, elevation: 0 })
}

fn known_tiles(record: &SimulationRecord) -> usize {
    record.initial_map.iter().flatten().filter(|c| c.is_some()).count()
}

fn small_map() -> Vec<Vec<Option<Tile>>> {
    vec![
        vec![grass(ContentKind::Nothing, 0), grass(ContentKind::Tree, 2)],
        vec![None, grass(ContentKind::Market, 0)],
    ]
}

#[test]
fn failed_sale_with_more_coins_is_coin_full() {
    let b = pack(4, &[(ContentKind::Coin, 3), (ContentKind::Tree, 1)]);
    assert_eq!(classify_outcome(Action::Sell, &Err(ActionErr::Full), &b), States::BackpackFullCoins);
    let b = pack(6, &[(ContentKind::Coin, 1), (ContentKind::Tree, 5)]);
    assert_eq!(classify_outcome(Action::Sell, &Err(ActionErr::Full), &b), States::BackpackFullItems);
}

#[test]
fn backpack_tie_counts_as_coins() {
    let b = pack(4, &[(ContentKind::Coin, 2), (ContentKind::Rock, 1), (ContentKind::Fish, 1)]);
    assert_eq!(count_coins_and_items(&b), (2, 2));
    assert_eq!(check_backpack(&b), States::BackpackFullCoins);
    let empty = pack(0, &[]);
    assert_eq!(check_backpack(&empty), States::BackpackFullCoins);
}

#[test]
fn backpack_fullness_and_quantities() {
    let b = pack(5, &[(ContentKind::Garbage, 3), (ContentKind::Coin, 2)]);
    assert!(full(&b));
    assert_eq!(quantity(&b, ContentKind::Garbage), 3);
    assert_eq!(quantity(&b, ContentKind::Fish), 0);
    let b = pack(6, &[(ContentKind::Garbage, 3), (ContentKind::Coin, 2)]);
    assert!(!full(&b));
}

#[test]
fn classification_of_each_action() {
    let roomy = pack(10, &[(ContentKind::Coin, 1)]);
    let packed = pack(3, &[(ContentKind::Tree, 3)]);
    let traded = |amount| Ok(ActionReport::Traded {
        amount,
        at: (1, 1),
        content: Content { kind: ContentKind::Market, amount: 4 },
    });
    assert_eq!(classify_outcome(Action::Recycle, &Ok(ActionReport::Completed), &roomy), States::Recycled);
    assert_eq!(classify_outcome(Action::Recycle, &Err(ActionErr::NotEnough), &roomy), States::NeedsExploring);
    assert_eq!(classify_outcome(Action::Sell, &traded(6), &roomy), States::Sold(6));
    assert_eq!(classify_outcome(Action::Sell, &Err(ActionErr::NotEnough), &packed), States::BackpackFullItems);
    assert_eq!(classify_outcome(Action::Sell, &Err(ActionErr::NotEnoughEnergy), &packed), States::NeedsExploring);
    assert_eq!(classify_outcome(Action::DepositInBank, &traded(4), &roomy), States::PutInBank(4));
    assert_eq!(classify_outcome(Action::DepositInBank, &traded(0), &packed), States::BackpackFullItems);
    assert_eq!(classify_outcome(Action::DepositInBank, &Err(ActionErr::Full), &packed), States::NeedsExploring);
    let destroyed = Ok(ActionReport::DestroyedAt((0, 1)));
    assert_eq!(classify_outcome(Action::DestroyRock, &destroyed, &roomy), States::Destroyed);
    assert_eq!(classify_outcome(Action::DestroyRock, &Err(ActionErr::Full), &packed), States::BackpackFullItems);
    assert_eq!(classify_outcome(Action::DestroyFish, &Err(ActionErr::NotFound), &packed), States::NeedsExploring);
    let done = Ok(ActionReport::Completed);
    assert_eq!(classify_outcome(Action::ExploreNearings, &done, &roomy), States::Neutral);
    assert_eq!(classify_outcome(Action::ExploreUnknown, &done, &packed), States::BackpackFullItems);
    assert_eq!(classify_outcome(Action::ExploreUnknown, &Err(ActionErr::NeedsExploring), &roomy), States::NeedsExploring);
}

#[test]
fn destroy_actions_name_their_target() {
    assert_eq!(destroy_target_kind(Action::DestroyCoin), Some(ContentKind::Coin));
    assert_eq!(destroy_target_kind(Action::DestroyTree), Some(ContentKind::Tree));
    assert_eq!(destroy_target_kind(Action::Sell), None);
}

#[test]
fn low_energy_tick_waits() {
    let mut robot = MyRobot::new();
    let mut record = SimulationRecord::new();
    let b = pack(10, &[]);
    let plan = robot.plan_tick(ENERGY_THRESHOLD, &b, small_map(), &mut record);
    assert_eq!(plan, TickPlan::Wait);
    assert_eq!(robot.actual_state, States::Neutral);
    assert!(robot.map.is_empty());
    assert!(record.initial_map.is_empty());
    let plan = robot.plan_tick(ENERGY_THRESHOLD + 1, &b, small_map(), &mut record);
    assert_eq!(plan, TickPlan::Perform(Action::ExploreNearings));
    assert_eq!(robot.map.len(), 1);
    assert_eq!(known_tiles(&record), 3);
}

#[test]
fn destroy_with_full_backpack_settles() {
    let mut robot = MyRobot::new();
    robot.actual_action = Action::DestroyGarbage;
    let mut record = SimulationRecord::new();
    let b = pack(4, &[(ContentKind::Coin, 3), (ContentKind::Tree, 1)]);
    let plan = robot.plan_tick(1000, &b, small_map(), &mut record);
    assert_eq!(plan, TickPlan::Settled(States::BackpackFullCoins));
    assert_eq!(robot.actual_state, States::BackpackFullCoins);
    robot.actual_action = Action::Sell;
    let plan = robot.plan_tick(1000, &b, small_map(), &mut record);
    assert_eq!(plan, TickPlan::Perform(Action::Sell));
}

#[test]
fn first_tick_records_spawn() {
    let mut robot = MyRobot::new();
    let mut record = SimulationRecord::new();
    record.simulation_events.push(MyEvent::RobLib(WorldEvent::Terminated));
    robot.begin_tick((3, 4), &mut record);
    assert!(record.simulation_events.is_empty());
    assert_eq!(record.setup_data.robot_spawn_position, (3, 4));
    assert!(matches!(robot.past_events[0], MyEvents2::RobotSpawned((3, 4))));
    robot.actual_state = States::Neutral;
    robot.begin_tick((5, 5), &mut record);
    assert_eq!(record.setup_data.robot_spawn_position, (3, 4));
    assert_eq!(robot.past_events.len(), 1);
}

#[test]
fn finished_sale_is_recorded() {
    let mut robot = MyRobot::new();
    robot.actual_action = Action::Sell;
    let mut record = SimulationRecord::new();
    let b = pack(10, &[]);
    let market = Content { kind: ContentKind::Market, amount: 3 };
    let outcome = Ok(ActionReport::Traded { amount: 2, at: (1, 1), content: market });
    let updates = robot.finish_tick(outcome, &b, small_map(), &mut record);
    assert_eq!(robot.actual_state, States::Sold(2));
    assert!(matches!(robot.past_events[0], MyEvents2::ContentInteracted(c, (1, 1)) if c == market));
    assert_eq!(known_tiles(&record), 3);
    assert_eq!(updates.len(), 3);
    assert!(matches!(updates[0], ChartUpdate::Remove(ContentKind::Tree, (0, 1))));
    assert!(matches!(updates[1], ChartUpdate::Save(c, (0, 1)) if c.kind == ContentKind::Tree && c.amount == 2));
    assert!(matches!(updates[2], ChartUpdate::Remove(ContentKind::Market, (1, 1))));
}

#[test]
fn failed_exploration_still_reports_tool() {
    let mut robot = MyRobot::new();
    robot.actual_action = Action::ExploreUnknown;
    let mut record = SimulationRecord::new();
    let b = pack(10, &[]);
    robot.finish_tick(Err(ActionErr::NeedsExploring), &b, small_map(), &mut record);
    assert_eq!(robot.actual_state, States::NeedsExploring);
    assert!(matches!(robot.past_events[0], MyEvents2::UsedTool(_)));
    assert!(record.initial_map.is_empty());
}

#[test]
fn empty_deposit_records_nothing() {
    let mut robot = MyRobot::new();
    robot.actual_action = Action::DepositInBank;
    let mut record = SimulationRecord::new();
    let b = pack(2, &[(ContentKind::Rock, 2)]);
    let bank = Content { kind: ContentKind::Bank, amount: 9 };
    let outcome = Ok(ActionReport::Traded { amount: 0, at: (0, 0), content: bank });
    robot.finish_tick(outcome, &b, small_map(), &mut record);
    assert_eq!(robot.actual_state, States::BackpackFullItems);
    assert!(robot.past_events.is_empty());
    assert!(record.initial_map.is_empty());
}

#[test]
fn world_events_are_routed() {
    let mut robot = MyRobot::new();
    let mut record = SimulationRecord::new();
    robot.handle_event(WorldEvent::Ready, &mut record);
    robot.handle_event(WorldEvent::TimeChanged, &mut record);
    assert!(record.simulation_events.is_empty());
    robot.handle_event(WorldEvent::EnergyConsumed(4), &mut record);
    assert_eq!(record.simulation_events.len(), 1);
    assert!(robot.past_events.is_empty());
    robot.handle_event(WorldEvent::AddedToBackpack(Content { kind: ContentKind::Coin, amount: 0 }, 1), &mut record);
    assert_eq!(record.simulation_events.len(), 2);
    assert_eq!(robot.past_events.len(), 1);
    robot.handle_event(WorldEvent::Terminated, &mut record);
    assert_eq!(robot.past_events.len(), 2);
}

#[test]
fn sale_of_nothing_is_not_a_sale() {
    let packed = pack(3, &[(ContentKind::Coin, 2), (ContentKind::Tree, 1)]);
    let nothing = Ok(ActionReport::Traded {
        amount: 0,
        at: (1, 1),
        content: Content { kind: ContentKind::Market, amount: 4 },
    });
    assert_eq!(classify_outcome(Action::Sell, &nothing, &packed), States::BackpackFullCoins);
    let mut robot = MyRobot::new();
    robot.actual_action = Action::Sell;
    let mut record = SimulationRecord::new();
    robot.finish_tick(nothing, &packed, small_map(), &mut record);
    assert_eq!(robot.actual_state, States::BackpackFullCoins);
    assert!(robot.past_events.is_empty());
    assert_eq!(known_tiles(&record), 0);
}

#[test]
fn destroyed_target_leaves_the_index() {
    let mut robot = MyRobot::new();
    robot.actual_action = Action::DestroyTree;
    let mut record = SimulationRecord::new();
    let b = pack(10, &[]);
    let updates = robot.finish_tick(Ok(ActionReport::DestroyedAt((0, 1))), &b, small_map(), &mut record);
    assert_eq!(robot.actual_state, States::Destroyed);
    assert_eq!(updates.len(), 4);
    assert!(matches!(updates[0], ChartUpdate::Remove(ContentKind::Tree, (0, 1))));
    assert!(matches!(updates[1], ChartUpdate::Remove(ContentKind::Tree, (0, 1))));
    assert!(matches!(robot.past_events[0], MyEvents2::ContentInteracted(c, (0, 1)) if c.kind == ContentKind::Nothing));
}
