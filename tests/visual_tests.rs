use coin_bot::visual::{
    animate_sprite, match_node_content, AnimationIndices, AnimationTimer, CoinsToDeposit, ContentNode, Coordinate,
    robot_speed, MoveRobotTimer, MyEnergy, TimeManager,
};
use coin_bot::world::ContentKind;

#[test]
fn energy_gauge() {
    let mut e = MyEnergy::default();
    assert_eq!(e.0, 1000);
    e.consume(300);
    assert_eq!(e.0, 700);
    e.recharge(100);
    assert_eq!(e.0, 800);
    e.recharge(500);
    assert_eq!(e.0, 1000);
}

#[test]
fn coins_counter_starts_empty() {
    let c = CoinsToDeposit::new(20);
    assert_eq!(c.total, 20);
    assert_eq!(c.deposited, 0);
}

#[test]
fn coordinates_nearness() {
    let a = Coordinate::new(3, 3);
    assert!(a.is_near(&Coordinate::new(4, 2)));
    assert!(a.is_near(&a));
    assert!(!a.is_near(&Coordinate::new(5, 3)));
    assert!(!Coordinate::new(0, 0).is_near(&Coordinate::new(0, 2)));
}

#[test]
fn replay_clock() {
    let mut tm = TimeManager::default();
    assert_eq!(tm.get_speed(), 4);
    assert_eq!(tm.get_speed_value(), 33);
    assert!(tm.should_update());
    tm.update();
    assert!(!tm.should_update());
    for _ in 0..10 {
        tm.change_speed(true);
    }
    assert_eq!(tm.get_speed(), 10);
    assert_eq!(tm.get_speed_value(), 1);
    assert!(tm.should_update());
    for _ in 0..12 {
        tm.change_speed(false);
    }
    assert_eq!(tm.get_speed(), 0);
}

#[test]
fn sprite_frames_loop() {
    let idx = AnimationIndices { first: 0, last: 7 };
    assert_eq!(idx.next_frame(3), 4);
    assert_eq!(idx.next_frame(7), 0);
    let mut timer = AnimationTimer { period_ms: 100, elapsed_ms: 0 };
    assert_eq!(animate_sprite(&idx, &mut timer, 7, 60), 7);
    assert_eq!(timer.elapsed_ms, 60);
    assert_eq!(animate_sprite(&idx, &mut timer, 7, 60), 0);
    assert_eq!(timer.elapsed_ms, 20);
    assert!(timer.tick(280));
    assert_eq!(timer.elapsed_ms, 0);
}

#[test]
fn move_timer_steps() {
    let mut m = MoveRobotTimer { millis: 800 };
    robot_speed(&mut m, true, false);
    assert_eq!(m.millis, 750);
    robot_speed(&mut m, false, true);
    assert_eq!(m.millis, 800);
    let mut m = MoveRobotTimer { millis: 1600 };
    robot_speed(&mut m, false, true);
    assert_eq!(m.millis, 1600);
    let mut m = MoveRobotTimer { millis: 10 };
    robot_speed(&mut m, true, false);
    assert_eq!(m.millis, 10);
}

#[test]
fn counters_show_their_content() {
    assert_eq!(match_node_content(&ContentNode::WoodNode), ContentKind::Tree);
    assert_eq!(match_node_content(&ContentNode::CoinNode), ContentKind::Coin);
    assert_eq!(match_node_content(&ContentNode::RockNode), ContentKind::Rock);
}
