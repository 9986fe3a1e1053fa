use vstd::prelude::*;

use crate::chance::random_below;
use crate::states::{
    action_from_index, action_index, action_pos, state_index, state_pos, Action, States, NUM_ACTIONS,
};

verus! {

/// Number of entries of the reward vector.
pub const NUM_REWARDS: usize = 8;

/// Number of entries of a complete Q-table.
pub const Q_TABLE_LEN: usize = 100;

/// Coins the agent has to bank before the run ends: `⌊size² × 0.002⌋`.
pub open spec fn coins_target(world_size: nat) -> nat {
    (world_size * world_size) / 500
}

/// Slot of the reward vector that rewards a resulting state, or `None` for
/// `Neutral`, whose reward is fixed apart from the vector.
pub open spec fn reward_slot_of(s: States) -> Option<nat> {
    match s {
        States::Start => Some(0),
        States::Goal => Some(1),
        States::Destroyed => Some(2),
        States::Sold(_) => Some(3),
        States::PutInBank(_) => Some(4),
        States::Recycled => Some(5),
        States::NeedsExploring => Some(6),
        States::BackpackFullCoins | States::BackpackFullItems => Some(7),
        States::Neutral => None,
    }
}

pub open spec fn min_nat(a: nat, b: nat) -> nat {
    if a <= b { a } else { b }
}

/// Bookkeeping after a tick: a bank deposit lowers the coins still owed by what
/// it banked (never below zero); deposits and sales then count as
/// `NeedsExploring`.
pub open spec fn post_processed(resulting: States, remaining: nat) -> (States, nat) {
    match resulting {
        States::PutInBank(n) => (States::NeedsExploring, (remaining - min_nat(n as nat, remaining)) as nat),
        States::Sold(_) => (States::NeedsExploring, remaining),
        _ => (resulting, remaining),
    }
}

/// The trainer's state after observing `resulting`: the post-processed state,
/// or `Goal` once no coins are owed.
pub open spec fn next_trainer_state(resulting: States, remaining: nat) -> (States, nat) {
    let (s, r) = post_processed(resulting, remaining);
    if r == 0 {
        (States::Goal, r)
    } else {
        (s, r)
    }
}

/// The reward of a resulting state depends on its category alone: any two
/// sales, or any two deposits, share one reward slot, while the amount banked
/// still decides how far the coins owed drop.
pub proof fn reward_ignores_amount(n: usize, m: usize, remaining: nat)
    ensures
        reward_slot_of(States::Sold(n)) == reward_slot_of(States::Sold(m)),
        reward_slot_of(States::PutInBank(n)) == reward_slot_of(States::PutInBank(m)),
        post_processed(States::PutInBank(n), remaining).1 == remaining - min_nat(n as nat, remaining),
        post_processed(States::Sold(n), remaining).1 == remaining,
{
}

/// The coins owed never rise from one tick to the next, and the run turns to
/// `Goal` exactly when they reach zero (for any state a tick can end in, which
/// is never `Goal` itself).
pub proof fn coins_owed_only_fall(resulting: States, remaining: nat)
    ensures
        next_trainer_state(resulting, remaining).1 <= remaining,
        next_trainer_state(resulting, remaining).1 == 0 ==> next_trainer_state(resulting, remaining).0
            == States::Goal,
        resulting != States::Goal && next_trainer_state(resulting, remaining).0 == States::Goal
            ==> next_trainer_state(resulting, remaining).1 == 0,
{
}

/// Coins still owed after a run of ticks ending in `results`, from
/// `remaining` at the start.
pub open spec fn coins_after(results: Seq<States>, remaining: nat) -> nat
    decreases results.len(),
{
    if results.len() == 0 {
        remaining
    } else {
        next_trainer_state(results.last(), coins_after(results.drop_last(), remaining)).1
    }
}

/// Over any run of ticks the coins owed only fall: after more ticks they are
/// never above what they were after fewer.
pub proof fn coins_owed_fall_over_runs(results: Seq<States>, remaining: nat, i: int)
    requires
        0 <= i <= results.len(),
    ensures
        coins_after(results, remaining) <= coins_after(results.subrange(0, i), remaining),
        coins_after(results, remaining) <= remaining,
    decreases results.len(),
{
    if results.len() > 0 {
        coins_owed_only_fall(results.last(), coins_after(results.drop_last(), remaining));
        if i < results.len() {
            assert(results.drop_last().subrange(0, i) =~= results.subrange(0, i));
            coins_owed_fall_over_runs(results.drop_last(), remaining, i);
        } else {
            assert(results.subrange(0, i) =~= results);
            coins_owed_fall_over_runs(results.drop_last(), remaining, 0);
        }
    }
}

/// Probability of a random action is one in this many.
pub const EXPLORATION_ODDS: usize = 5;

/// Whether a draw from `0 .. EXPLORATION_ODDS` calls for a random action:
/// zero does, one time in five.
pub fn explores_for(draw: usize) -> (r: bool)
    ensures
        r == (draw == 0),
{
    draw == 0
}

/// Whether this step explores with a random action (one time in five) rather
/// than exploiting the table.
pub fn explores() -> (r: bool) {
    explores_for(random_below(EXPLORATION_ODDS))
}

/// An action drawn uniformly from the ten.
pub fn random_action() -> (r: Action) {
    action_from_index(random_below(NUM_ACTIONS))
}

/// Computes how many coins must be banked on a world of the given size.
pub fn coins_to_deposit(world_size: usize) -> (r: usize)
    requires
        world_size * world_size <= usize::MAX,
    ensures
        r == coins_target(world_size as nat),
{
    (world_size * world_size) / 500
}

/// Slot of the reward vector for a resulting state; `None` for `Neutral`.
pub fn reward_slot(s: States) -> (r: Option<usize>)
    ensures
        r matches Some(i) ==> reward_slot_of(s) == Some(i as nat) && i < NUM_REWARDS,
        r is None ==> reward_slot_of(s) is None,
{
    match s {
        States::Start => Some(0),
        States::Goal => Some(1),
        States::Destroyed => Some(2),
        States::Sold(_) => Some(3),
        States::PutInBank(_) => Some(4),
        States::Recycled => Some(5),
        States::NeedsExploring => Some(6),
        States::BackpackFullCoins | States::BackpackFullItems => Some(7),
        States::Neutral => None,
    }
}

/// Applies the deposit counter and the state folding of a tick's result.
pub fn post_process(resulting: States, remaining: usize) -> (r: (States, usize))
    ensures
        (r.0, r.1 as nat) == post_processed(resulting, remaining as nat),
{
    match resulting {
        States::PutInBank(n) => {
            let taken = if n <= remaining { n } else { remaining };
            (States::NeedsExploring, remaining - taken)
        },
        States::Sold(_) => (States::NeedsExploring, remaining),
        _ => (resulting, remaining),
    }
}

/// Why a training run cannot start or its table cannot be read.
#[derive(Clone, Copy, Debug, PartialEq, Eq, Structural)]
pub enum TrainError {
    /// The reward vector does not hold exactly eight values.
    BadRewards,
    /// The stored table does not hold one value per state and action.
    BadTable,
}

/// The learning loop's own state: the state the next action is taken from and
/// the coins still to bank.
#[derive(Clone, Copy, Debug, PartialEq, Eq, Structural)]
pub struct Trainer {
    pub initial_state: States,
    pub coins_to_deposit: usize,
    pub total_coins: usize,
}

impl Trainer {
    /// Starts a run on a world of `world_size`, given the length of the reward
    /// vector it will use.
    pub fn new(world_size: usize, rewards_len: usize) -> (r: Result<Trainer, TrainError>)
        requires
            world_size * world_size <= usize::MAX,
        ensures
            rewards_len != NUM_REWARDS <==> r is Err,
            r matches Err(e) ==> e == TrainError::BadRewards,
            r matches Ok(t) ==> {
                &&& t.initial_state == States::Start
                &&& t.coins_to_deposit == coins_target(world_size as nat)
                &&& t.total_coins == t.coins_to_deposit
            },
    {
        if rewards_len != NUM_REWARDS {
            return Err(TrainError::BadRewards);
        }
        let coins = coins_to_deposit(world_size);
        Ok(Trainer { initial_state: States::Start, coins_to_deposit: coins, total_coins: coins })
    }

    /// The loop goes on until the goal is reached.
    pub fn is_finished(&self) -> (r: bool)
        ensures
            r == (self.initial_state == States::Goal),
    {
        self.initial_state == States::Goal
    }

    /// Records the state a tick ended in. Returns the state the action was
    /// taken from, which keys the Q-table update.
    pub fn observe(&mut self, resulting: States) -> (from: States)
        ensures
            from == old(self).initial_state,
            final(self).total_coins == old(self).total_coins,
            (final(self).initial_state, final(self).coins_to_deposit as nat) == next_trainer_state(
                resulting,
                old(self).coins_to_deposit as nat,
            ),
            final(self).coins_to_deposit <= old(self).coins_to_deposit,
    {
        let from = self.initial_state;
        let (s, remaining) = post_process(resulting, self.coins_to_deposit);
        self.coins_to_deposit = remaining;
        if remaining == 0 {
            self.initial_state = States::Goal;
        } else {
            self.initial_state = s;
        }
        from
    }
}

/// The reward vector, one value per state category, held as opaque values.
pub struct RewardTable<T> {
    pub values: Vec<T>,
}

impl<T> RewardTable<T> {
    pub open spec fn wf(&self) -> bool {
        self.values@.len() == NUM_REWARDS
    }

    /// Accepts a reward vector of exactly eight values.
    pub fn new(values: Vec<T>) -> (r: Result<RewardTable<T>, TrainError>)
        ensures
            values@.len() != NUM_REWARDS <==> r is Err,
            r matches Err(e) ==> e == TrainError::BadRewards,
            r matches Ok(t) ==> t.wf() && t.values@ == values@,
    {
        if values.len() != NUM_REWARDS {
            return Err(TrainError::BadRewards);
        }
        Ok(RewardTable { values })
    }

    /// The reward for a resulting state; `None` for `Neutral`.
    pub fn reward(&self, s: States) -> (r: Option<&T>)
        requires
            self.wf(),
        ensures
            r matches Some(v) ==> reward_slot_of(s) matches Some(i) && *v == self.values@[i as int],
            r is None <==> reward_slot_of(s) is None,
    {
        match reward_slot(s) {
            Some(i) => Some(&self.values[i]),
            None => None,
        }
    }
}

/// Position of the pair `(s, a)` in the row-major table layout.
pub open spec fn q_pos(s: States, a: Action) -> nat {
    state_pos(s) * 10 + action_pos(a)
}

pub fn q_index(s: States, a: Action) -> (r: usize)
    ensures
        r == q_pos(s, a),
        r < Q_TABLE_LEN,
{
    state_index(s) * NUM_ACTIONS + action_index(a)
}

/// The learned values of every state category and action, held as opaque
/// values in row-major order over (state, action).
pub struct QTable<T> {
    pub values: Vec<T>,
}

impl<T> QTable<T> {
    pub open spec fn wf(&self) -> bool {
        self.values@.len() == Q_TABLE_LEN
    }

    pub open spec fn value(&self, s: States, a: Action) -> T {
        self.values@[q_pos(s, a) as int]
    }

    /// Builds the table from stored values in row-major order; anything but
    /// exactly one value per state and action is refused.
    pub fn from_values(values: Vec<T>) -> (r: Result<QTable<T>, TrainError>)
        ensures
            values@.len() != Q_TABLE_LEN <==> r is Err,
            r matches Err(e) ==> e == TrainError::BadTable,
            r matches Ok(t) ==> t.wf() && t.values@ == values@,
    {
        if values.len() != Q_TABLE_LEN {
            return Err(TrainError::BadTable);
        }
        Ok(QTable { values })
    }

    pub fn get(&self, s: States, a: Action) -> (r: &T)
        requires
            self.wf(),
        ensures
            *r == self.value(s, a),
    {
        &self.values[q_index(s, a)]
    }

    /// Replaces the value of one pair and keeps every other.
    pub fn set(&mut self, s: States, a: Action, v: T)
        requires
            old(self).wf(),
        ensures
            final(self).wf(),
            final(self).values@ == old(self).values@.update(q_pos(s, a) as int, v),
    {
        let i = q_index(s, a);
        self.values.set(i, v);
    }
}

} // verus!
