use vstd::prelude::*;

verus! {

/// The high-level actions the agent can choose from.
#[derive(Clone, Copy, Debug, PartialEq, Eq, Hash, Structural)]
pub enum Action {
    Recycle,
    Sell,
    DestroyTree,
    DestroyRock,
    DestroyGarbage,
    DestroyCoin,
    DestroyFish,
    DepositInBank,
    ExploreNearings,
    ExploreUnknown,
}

/// The simulation states that an agent tick can end in.
#[derive(Clone, Copy, Debug, PartialEq, Eq, Hash, Structural)]
pub enum States {
    Start,
    Goal,
    Destroyed,
    Sold(usize),
    PutInBank(usize),
    Recycled,
    NeedsExploring,
    BackpackFullCoins,
    BackpackFullItems,
    Neutral,
}

pub const NUM_ACTIONS: usize = 10;

pub const NUM_STATES: usize = 10;

/// Position of an action in the canonical action order.
pub open spec fn action_pos(a: Action) -> nat {
    match a {
        Action::Recycle => 0,
        Action::Sell => 1,
        Action::DestroyTree => 2,
        Action::DestroyRock => 3,
        Action::DestroyGarbage => 4,
        Action::DestroyCoin => 5,
        Action::DestroyFish => 6,
        Action::DepositInBank => 7,
        Action::ExploreNearings => 8,
        Action::ExploreUnknown => 9,
    }
}

/// Position of a state's category in the canonical state order (the payload
/// of `Sold` and `PutInBank` does not count).
pub open spec fn state_pos(s: States) -> nat {
    match s {
        States::Start => 0,
        States::Goal => 1,
        States::Destroyed => 2,
        States::Sold(_) => 3,
        States::PutInBank(_) => 4,
        States::Recycled => 5,
        States::NeedsExploring => 6,
        States::BackpackFullCoins => 7,
        States::BackpackFullItems => 8,
        States::Neutral => 9,
    }
}

/// The action at position `i` of the canonical order.
pub open spec fn action_at(i: nat) -> Action {
    if i == 0 {
        Action::Recycle
    } else if i == 1 {
        Action::Sell
    } else if i == 2 {
        Action::DestroyTree
    } else if i == 3 {
        Action::DestroyRock
    } else if i == 4 {
        Action::DestroyGarbage
    } else if i == 5 {
        Action::DestroyCoin
    } else if i == 6 {
        Action::DestroyFish
    } else if i == 7 {
        Action::DepositInBank
    } else if i == 8 {
        Action::ExploreNearings
    } else {
        Action::ExploreUnknown
    }
}

/// The representative state at position `i` of the canonical order.
pub open spec fn state_at(i: nat) -> States {
    if i == 0 {
        States::Start
    } else if i == 1 {
        States::Goal
    } else if i == 2 {
        States::Destroyed
    } else if i == 3 {
        States::Sold(0)
    } else if i == 4 {
        States::PutInBank(0)
    } else if i == 5 {
        States::Recycled
    } else if i == 6 {
        States::NeedsExploring
    } else if i == 7 {
        States::BackpackFullCoins
    } else if i == 8 {
        States::BackpackFullItems
    } else {
        States::Neutral
    }
}

pub fn action_index(a: Action) -> (r: usize)
    ensures
        r == action_pos(a),
        r < NUM_ACTIONS,
{
    match a {
        Action::Recycle => 0,
        Action::Sell => 1,
        Action::DestroyTree => 2,
        Action::DestroyRock => 3,
        Action::DestroyGarbage => 4,
        Action::DestroyCoin => 5,
        Action::DestroyFish => 6,
        Action::DepositInBank => 7,
        Action::ExploreNearings => 8,
        Action::ExploreUnknown => 9,
    }
}

pub fn state_index(s: States) -> (r: usize)
    ensures
        r == state_pos(s),
        r < NUM_STATES,
{
    match s {
        States::Start => 0,
        States::Goal => 1,
        States::Destroyed => 2,
        States::Sold(_) => 3,
        States::PutInBank(_) => 4,
        States::Recycled => 5,
        States::NeedsExploring => 6,
        States::BackpackFullCoins => 7,
        States::BackpackFullItems => 8,
        States::Neutral => 9,
    }
}

/// The action at position `i` of the canonical order.
pub fn action_from_index(i: usize) -> (r: Action)
    requires
        i < NUM_ACTIONS,
    ensures
        r == action_at(i as nat),
        action_pos(r) == i,
{
    if i == 0 {
        Action::Recycle
    } else if i == 1 {
        Action::Sell
    } else if i == 2 {
        Action::DestroyTree
    } else if i == 3 {
        Action::DestroyRock
    } else if i == 4 {
        Action::DestroyGarbage
    } else if i == 5 {
        Action::DestroyCoin
    } else if i == 6 {
        Action::DestroyFish
    } else if i == 7 {
        Action::DepositInBank
    } else if i == 8 {
        Action::ExploreNearings
    } else {
        Action::ExploreUnknown
    }
}

/// The representative state at position `i` of the canonical order.
pub fn state_from_index(i: usize) -> (r: States)
    requires
        i < NUM_STATES,
    ensures
        r == state_at(i as nat),
        state_pos(r) == i,
{
    if i == 0 {
        States::Start
    } else if i == 1 {
        States::Goal
    } else if i == 2 {
        States::Destroyed
    } else if i == 3 {
        States::Sold(0)
    } else if i == 4 {
        States::PutInBank(0)
    } else if i == 5 {
        States::Recycled
    } else if i == 6 {
        States::NeedsExploring
    } else if i == 7 {
        States::BackpackFullCoins
    } else if i == 8 {
        States::BackpackFullItems
    } else {
        States::Neutral
    }
}

} // verus!
