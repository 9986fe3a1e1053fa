use vstd::prelude::*;

use crate::world::ContentKind;

verus! {

/// The highest energy level the robot can have.
pub const MAX_ENERGY_LEVEL: i32 = 1000;

/// The energy level shown while a run is replayed.
#[derive(Debug)]
pub struct MyEnergy(pub i32);

impl MyEnergy {
    /// Adds recharged energy, capped at the maximum level.
    pub fn recharge(&mut self, energy: usize)
        ensures
            final(self).0 == if old(self).0 + energy >= MAX_ENERGY_LEVEL {
                MAX_ENERGY_LEVEL as int
            } else {
                old(self).0 + energy
            },
    {
        let total: i128 = self.0 as i128 + energy as i128;
        if total >= MAX_ENERGY_LEVEL as i128 {
            self.0 = MAX_ENERGY_LEVEL;
        } else {
            self.0 = total as i32;
        }
    }

    /// Takes consumed energy off.
    pub fn consume(&mut self, energy: usize)
        requires
            old(self).0 - energy >= i32::MIN,
        ensures
            final(self).0 == old(self).0 - energy,
    {
        self.0 = (self.0 as i128 - energy as i128) as i32;
    }
}

impl Default for MyEnergy {
    fn default() -> (r: MyEnergy)
        ensures
            r.0 == MAX_ENERGY_LEVEL,
    {
        MyEnergy(MAX_ENERGY_LEVEL)
    }
}

/// The coins a run has to bank and those banked so far.
#[derive(Clone, Copy, Debug, PartialEq, Eq, Structural)]
pub struct CoinsToDeposit {
    pub total: usize,
    pub deposited: usize,
}

impl CoinsToDeposit {
    pub fn new(total: usize) -> (r: CoinsToDeposit)
        ensures
            r.total == total,
            r.deposited == 0,
    {
        CoinsToDeposit { total, deposited: 0 }
    }
}

/// A tile position in screen order: `x` left to right, `y` bottom to top.
#[derive(Clone, Copy, Debug, PartialEq, Eq, Hash, Structural)]
pub struct Coordinate {
    pub x: usize,
    pub y: usize,
}

pub open spec fn abs_diff(a: usize, b: usize) -> nat {
    if a >= b { (a - b) as nat } else { (b - a) as nat }
}

fn gap(a: usize, b: usize) -> (r: usize)
    ensures
        r == abs_diff(a, b),
{
    if a >= b {
        a - b
    } else {
        b - a
    }
}

impl Coordinate {
    pub fn new(x: usize, y: usize) -> (r: Coordinate)
        ensures
            r.x == x && r.y == y,
    {
        Coordinate { x, y }
    }

    /// The two positions are the same or touch, diagonals included.
    pub fn is_near(&self, other: &Self) -> (r: bool)
        ensures
            r == (abs_diff(self.x, other.x) < 2 && abs_diff(self.y, other.y) < 2),
    {
        gap(self.x, other.x) < 2 && gap(self.y, other.y) < 2
    }
}

/// Whether the tile at a position has been revealed yet.
#[derive(Clone, Copy, Debug, PartialEq, Eq, Structural)]
pub struct NotDiscovered(pub bool);

/// First and last frame of a looping animation.
#[derive(Clone, Copy, Debug, PartialEq, Eq, Structural)]
pub struct AnimationIndices {
    pub first: usize,
    pub last: usize,
}

impl AnimationIndices {
    /// The frame after `index`, wrapping from the last back to the first.
    pub fn next_frame(&self, index: usize) -> (r: usize)
        requires
            index <= self.last,
        ensures
            index == self.last ==> r == self.first,
            index != self.last ==> r == index + 1,
    {
        if index == self.last {
            self.first
        } else {
            index + 1
        }
    }
}

/// A repeating timer that paces an animation.
#[derive(Clone, Copy, Debug, PartialEq, Eq, Structural)]
pub struct AnimationTimer {
    pub period_ms: u64,
    pub elapsed_ms: u64,
}

impl AnimationTimer {
    pub open spec fn wf(&self) -> bool {
        0 < self.period_ms && self.elapsed_ms < self.period_ms
    }

    /// Lets `delta_ms` pass; returns whether the period ran out meanwhile,
    /// the timer then starting over with what is left.
    pub fn tick(&mut self, delta_ms: u64) -> (finished: bool)
        requires
            old(self).wf(),
        ensures
            final(self).wf(),
            final(self).period_ms == old(self).period_ms,
            finished == (old(self).elapsed_ms + delta_ms >= old(self).period_ms),
            final(self).elapsed_ms == (old(self).elapsed_ms + delta_ms) % (old(self).period_ms as int),
    {
        let rest = self.period_ms - self.elapsed_ms;
        if delta_ms >= rest {
            let over = delta_ms - rest;
            self.elapsed_ms = over % self.period_ms;
            assert((old(self).elapsed_ms + delta_ms) % (self.period_ms as int) == (over as int) % (self.period_ms as int)) by {
                assert(old(self).elapsed_ms + delta_ms == over + self.period_ms);
                vstd::arithmetic::div_mod::lemma_mod_add_multiples_vanish(over as int, self.period_ms as int);
            }
            true
        } else {
            self.elapsed_ms = self.elapsed_ms + delta_ms;
            proof {
                vstd::arithmetic::div_mod::lemma_small_mod(self.elapsed_ms as nat, self.period_ms as nat);
            }
            false
        }
    }
}

/// Advances a sprite by one frame each time its timer runs out.
pub fn animate_sprite(indices: &AnimationIndices, timer: &mut AnimationTimer, index: usize, delta_ms: u64) -> (r: usize)
    requires
        old(timer).wf(),
        index <= indices.last,
    ensures
        final(timer).wf(),
        old(timer).elapsed_ms + delta_ms >= old(timer).period_ms ==> r == if index == indices.last {
            indices.first as int
        } else {
            index + 1
        },
        old(timer).elapsed_ms + delta_ms < old(timer).period_ms ==> r == index,
{
    if timer.tick(delta_ms) {
        indices.next_frame(index)
    } else {
        index
    }
}

/// The backpack counters shown beside the map.
#[derive(Clone, Copy, Debug, PartialEq, Eq, Structural)]
pub enum ContentNode {
    RockNode,
    WoodNode,
    FishNode,
    GarbageNode,
    CoinNode,
}

pub open spec fn node_kind(node: ContentNode) -> ContentKind {
    match node {
        ContentNode::RockNode => ContentKind::Rock,
        ContentNode::WoodNode => ContentKind::Tree,
        ContentNode::FishNode => ContentKind::Fish,
        ContentNode::GarbageNode => ContentKind::Garbage,
        ContentNode::CoinNode => ContentKind::Coin,
    }
}

/// The content category a counter shows.
pub fn match_node_content(node: &ContentNode) -> (r: ContentKind)
    ensures
        r == node_kind(*node),
{
    match node {
        ContentNode::RockNode => ContentKind::Rock,
        ContentNode::WoodNode => ContentKind::Tree,
        ContentNode::FishNode => ContentKind::Fish,
        ContentNode::GarbageNode => ContentKind::Garbage,
        ContentNode::CoinNode => ContentKind::Coin,
    }
}

/// Fastest replay step, in milliseconds, that may still be shortened.
pub const FASTEST_STEP_MS: u64 = 10;

/// Slowest replay step, in milliseconds, that may still be lengthened.
pub const SLOWEST_STEP_MS: u64 = 1600;

/// The interval between two replayed robot moves.
#[derive(Clone, Copy, Debug, PartialEq, Eq, Structural)]
pub struct MoveRobotTimer {
    pub millis: u64,
}

/// Shortens the interval by 50 ms when asked to go faster (above the
/// fastest step, never below zero) and lengthens it by 50 ms when asked
/// to go slower (below the slowest step).
pub fn robot_speed(timer: &mut MoveRobotTimer, faster: bool, slower: bool)
    ensures
        ({
            let a: int = if faster && old(timer).millis > FASTEST_STEP_MS {
                if old(timer).millis >= 50 { old(timer).millis - 50 } else { 0 }
            } else {
                old(timer).millis as int
            };
            final(timer).millis == if slower && a < SLOWEST_STEP_MS { a + 50 } else { a }
        }),
{
    let mut millis = timer.millis;
    if faster && millis > FASTEST_STEP_MS {
        millis = if millis >= 50 { millis - 50 } else { 0 };
    }
    if slower && millis < SLOWEST_STEP_MS {
        millis = millis + 50;
    }
    timer.millis = millis;
}

/// The replay clock of the second visualiser and its selectable speeds.
pub struct TimeManager {
    pub current_time: usize,
    pub speed: usize,
    pub possible_speed: Vec<usize>,
}

impl TimeManager {
    pub open spec fn wf(&self) -> bool {
        &&& self.speed < self.possible_speed@.len()
        &&& forall|i: int| 0 <= i < self.possible_speed@.len() ==> #[trigger] self.possible_speed@[i] > 0
    }

    /// Index of the current speed.
    pub fn get_speed(&self) -> (r: usize)
        ensures
            r == self.speed,
    {
        self.speed
    }

    /// Frames between two updates at the current speed.
    pub fn get_speed_value(&self) -> (r: usize)
        requires
            self.wf(),
        ensures
            r == self.possible_speed@[self.speed as int],
            r > 0,
    {
        self.possible_speed[self.speed]
    }

    /// Whether enough frames have passed for the next update.
    pub fn should_update(&self) -> (r: bool)
        requires
            self.wf(),
        ensures
            r == (self.current_time % self.possible_speed@[self.speed as int] == 0),
    {
        self.current_time % self.get_speed_value() == 0
    }

    /// Advances the clock by one frame.
    pub fn update(&mut self)
        requires
            old(self).current_time < usize::MAX,
        ensures
            final(self).current_time == old(self).current_time + 1,
            final(self).speed == old(self).speed,
            final(self).possible_speed@ == old(self).possible_speed@,
    {
        self.current_time = self.current_time + 1;
    }

    /// Moves one speed up or down, staying within the selectable speeds.
    pub fn change_speed(&mut self, increase: bool)
        requires
            old(self).wf(),
        ensures
            final(self).wf(),
            final(self).current_time == old(self).current_time,
            final(self).possible_speed@ == old(self).possible_speed@,
            increase ==> final(self).speed == if old(self).speed + 1 < old(self).possible_speed@.len() {
                old(self).speed + 1
            } else {
                old(self).speed as int
            },
            !increase ==> final(self).speed == if old(self).speed > 0 {
                old(self).speed - 1
            } else {
                0int
            },
    {
        if increase {
            if self.speed < self.possible_speed.len() - 1 {
                self.speed = self.speed + 1;
            }
        } else if self.speed > 0 {
            self.speed = self.speed - 1;
        } else {
            self.speed = 0;
        }
    }
}

impl Default for TimeManager {
    fn default() -> (r: TimeManager)
        ensures
            r.wf(),
            r.current_time == 0,
            r.speed == 4,
            r.possible_speed@ == seq![usize::MAX, 100usize, 60, 45, 33, 25, 15, 10, 5, 2, 1],
    {
        let possible_speed = vec![usize::MAX, 100, 60, 45, 33, 25, 15, 10, 5, 2, 1];
        assert(possible_speed@ =~= seq![usize::MAX, 100usize, 60, 45, 33, 25, 15, 10, 5, 2, 1]);
        TimeManager { current_time: 0, speed: 4, possible_speed }
    }
}

} // verus!
