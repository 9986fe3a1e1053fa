use vstd::prelude::*;

use crate::actions::{ActionErr, ActionReport};
use crate::backpack::{check_backpack, full, full_state, Backpack};
use crate::charting::{grid_updates, update_map, ChartUpdate};
use crate::data_storage::{
    clear_previous_data, merged, push_event, recorded, save_initial_data, update_initial_map, InitialData,
    SimulationRecord,
};
use crate::events::{is_ignored, is_shown, MyEvent, MyEvents2, WorldEvent};
use crate::grid::is_square;
use crate::states::{Action, States};
use crate::world::{Content, ContentKind, Tile};

verus! {

/// A tick acts only above this energy level; at or below it the robot waits
/// for its energy to recharge.
pub const ENERGY_THRESHOLD: usize = 700;

/// What a tick does before any world action.
#[derive(Clone, Copy, Debug, PartialEq, Eq, Structural)]
pub enum TickPlan {
    /// Too little energy: the tick ends in `Neutral`.
    Wait,
    /// The tick ends in this state without acting.
    Settled(States),
    /// Carry out this action.
    Perform(Action),
}

pub open spec fn is_destroy(a: Action) -> bool {
    a is DestroyTree || a is DestroyRock || a is DestroyGarbage || a is DestroyCoin || a is DestroyFish
}

/// The content a destroy action goes after.
pub open spec fn target_of(a: Action) -> ContentKind {
    match a {
        Action::DestroyTree => ContentKind::Tree,
        Action::DestroyRock => ContentKind::Rock,
        Action::DestroyGarbage => ContentKind::Garbage,
        Action::DestroyCoin => ContentKind::Coin,
        Action::DestroyFish => ContentKind::Fish,
        _ => ContentKind::Nothing,
    }
}

/// The content category a destroy action goes after.
pub fn destroy_target_kind(a: Action) -> (r: Option<ContentKind>)
    ensures
        is_destroy(a) ==> r == Some(target_of(a)),
        !is_destroy(a) ==> r is None,
{
    match a {
        Action::DestroyTree => Some(ContentKind::Tree),
        Action::DestroyRock => Some(ContentKind::Rock),
        Action::DestroyGarbage => Some(ContentKind::Garbage),
        Action::DestroyCoin => Some(ContentKind::Coin),
        Action::DestroyFish => Some(ContentKind::Fish),
        _ => None,
    }
}

/// The admission gate: wait at low energy; a destroy action with a full
/// backpack settles straight into the backpack-full classification.
pub open spec fn planned(energy: usize, action: Action, backpack: Backpack) -> TickPlan {
    if energy <= ENERGY_THRESHOLD {
        TickPlan::Wait
    } else if is_destroy(action) && backpack.is_full() {
        TickPlan::Settled(full_state(backpack.coins(), backpack.items()))
    } else {
        TickPlan::Perform(action)
    }
}

/// Amount reported by a trade, zero for any other report.
pub open spec fn traded_amount(rep: ActionReport) -> usize {
    match rep {
        ActionReport::Traded { amount, .. } => amount,
        _ => 0,
    }
}

/// The state a performed action ends the tick in.
pub open spec fn tick_state(action: Action, outcome: Result<ActionReport, ActionErr>, after: Backpack) -> States {
    let packed = full_state(after.coins(), after.items());
    match action {
        Action::Recycle => if outcome is Ok {
            States::Recycled
        } else {
            States::NeedsExploring
        },
        Action::Sell => match outcome {
            Ok(rep) => if traded_amount(rep) > 0 {
                States::Sold(traded_amount(rep))
            } else {
                packed
            },
            Err(ActionErr::Full) | Err(ActionErr::NotEnough) => packed,
            Err(_) => States::NeedsExploring,
        },
        Action::DepositInBank => match outcome {
            Ok(rep) => if traded_amount(rep) > 0 {
                States::PutInBank(traded_amount(rep))
            } else {
                packed
            },
            Err(_) => States::NeedsExploring,
        },
        Action::ExploreNearings | Action::ExploreUnknown => match outcome {
            Ok(_) => if after.is_full() {
                packed
            } else {
                States::Neutral
            },
            Err(_) => States::NeedsExploring,
        },
        _ => match outcome {
            Ok(_) => States::Destroyed,
            Err(ActionErr::Full) => packed,
            Err(_) => States::NeedsExploring,
        },
    }
}

/// The states a tick can end in: never the start or the goal, and a sale or
/// deposit always of a positive amount.
pub open spec fn is_tick_result(s: States) -> bool {
    &&& s != States::Start
    &&& s != States::Goal
    &&& (s matches States::Sold(n) ==> n > 0)
    &&& (s matches States::PutInBank(n) ==> n > 0)
}

/// A tick never ends in `Start` or `Goal`, and never reports a sale or a
/// deposit of nothing: whatever the action and its result, and likewise when
/// the tick waits or settles on a full backpack.
pub proof fn tick_results_are_well_formed(
    energy: usize,
    action: Action,
    outcome: Result<ActionReport, ActionErr>,
    backpack: Backpack,
    after: Backpack,
)
    ensures
        is_tick_result(tick_state(action, outcome, after)),
        is_tick_result(States::Neutral),
        planned(energy, action, backpack) matches TickPlan::Settled(s) ==> is_tick_result(s),
{
}

/// The index entry that a successful destroy action makes stale.
pub open spec fn destroy_removal(action: Action, outcome: Result<ActionReport, ActionErr>) -> Seq<ChartUpdate> {
    match outcome {
        Ok(ActionReport::DestroyedAt(p)) => if is_destroy(action) {
            seq![ChartUpdate::Remove(target_of(action), p)]
        } else {
            Seq::empty()
        },
        _ => Seq::empty(),
    }
}

/// Where a performed action changed the world in view of the visualiser: the
/// content touched and its coordinate.
pub open spec fn interaction(action: Action, outcome: Result<ActionReport, ActionErr>) -> Option<(Content, (usize, usize))> {
    match outcome {
        Ok(ActionReport::Traded { amount, at, content }) => if ((action is Sell || action is DepositInBank)
            && amount > 0) {
            Some((content, at))
        } else {
            None
        },
        Ok(ActionReport::DestroyedAt(p)) => if is_destroy(action) {
            Some((Content { kind: ContentKind::Nothing, amount: 0 }, p))
        } else {
            None
        },
        _ => None,
    }
}

pub open spec fn is_explore(a: Action) -> bool {
    a is ExploreNearings || a is ExploreUnknown
}

/// The performed action's result brings newly seen tiles into the record.
pub open spec fn records_tiles(action: Action, outcome: Result<ActionReport, ActionErr>) -> bool {
    interaction(action, outcome) is Some || (is_explore(action) && outcome is Ok)
}

/// Classifies the result of the action performed in a tick.
pub fn classify_outcome(action: Action, outcome: &Result<ActionReport, ActionErr>, after: &Backpack) -> (r: States)
    requires
        after.wf(),
    ensures
        r == tick_state(action, *outcome, *after),
{
    match action {
        Action::Recycle => match outcome {
            Ok(_) => States::Recycled,
            Err(_) => States::NeedsExploring,
        },
        Action::Sell => match outcome {
            Ok(rep) => {
                let amount = match rep {
                    ActionReport::Traded { amount, .. } => *amount,
                    _ => 0,
                };
                if amount > 0 {
                    States::Sold(amount)
                } else {
                    check_backpack(after)
                }
            },
            Err(ActionErr::Full) | Err(ActionErr::NotEnough) => check_backpack(after),
            Err(_) => States::NeedsExploring,
        },
        Action::DepositInBank => match outcome {
            Ok(rep) => {
                let amount = match rep {
                    ActionReport::Traded { amount, .. } => *amount,
                    _ => 0,
                };
                if amount > 0 {
                    States::PutInBank(amount)
                } else {
                    check_backpack(after)
                }
            },
            Err(_) => States::NeedsExploring,
        },
        Action::ExploreNearings | Action::ExploreUnknown => match outcome {
            Ok(_) => if full(after) {
                check_backpack(after)
            } else {
                States::Neutral
            },
            Err(_) => States::NeedsExploring,
        },
        _ => match outcome {
            Ok(_) => States::Destroyed,
            Err(ActionErr::Full) => check_backpack(after),
            Err(_) => States::NeedsExploring,
        },
    }
}

fn interaction_of(action: Action, outcome: &Result<ActionReport, ActionErr>) -> (r: Option<(Content, (usize, usize))>)
    ensures
        r == interaction(action, *outcome),
{
    match outcome {
        Ok(ActionReport::Traded { amount, at, content }) => {
            if (action == Action::Sell || action == Action::DepositInBank) && *amount > 0 {
                Some((*content, *at))
            } else {
                None
            }
        },
        Ok(ActionReport::DestroyedAt(p)) => match destroy_target_kind(action) {
            Some(_) => Some((Content { kind: ContentKind::Nothing, amount: 0 }, *p)),
            None => None,
        },
        _ => None,
    }
}

/// The agent's side of a run: the action chosen for the next tick, the state
/// the last tick ended in, the richer visualisation queue and a snapshot of the
/// known grid for every tick that acted.
pub struct MyRobot {
    pub actual_action: Action,
    pub actual_state: States,
    pub past_events: Vec<MyEvents2>,
    pub map: Vec<Vec<Vec<Option<Tile>>>>,
}

impl MyRobot {
    pub fn new() -> (r: MyRobot)
        ensures
            r.actual_action == Action::ExploreNearings,
            r.actual_state == States::Start,
            r.past_events@.len() == 0,
            r.map@.len() == 0,
    {
        MyRobot {
            actual_action: Action::ExploreNearings,
            actual_state: States::Start,
            past_events: Vec::new(),
            map: Vec::new(),
        }
    }

    /// On the first tick of a run, forgets the previous run and records where
    /// the robot spawned.
    pub fn begin_tick(&mut self, spawn: (usize, usize), record: &mut SimulationRecord)
        requires
            old(record).wf(),
        ensures
            final(record).wf(),
            final(self).actual_action == old(self).actual_action,
            final(self).actual_state == old(self).actual_state,
            final(self).map == old(self).map,
            old(self).actual_state == States::Start ==> {
                &&& final(record).initial_map@.len() == 0
                &&& final(record).simulation_events@.len() == 0
                &&& final(record).setup_data == (InitialData { robot_spawn_position: spawn })
                &&& final(self).past_events@ == old(self).past_events@.push(MyEvents2::RobotSpawned(spawn))
            },
            old(self).actual_state != States::Start ==> {
                &&& *final(record) == *old(record)
                &&& final(self).past_events == old(self).past_events
            },
    {
        if self.actual_state == States::Start {
            clear_previous_data(record);
            save_initial_data(record, spawn);
            self.past_events.push(MyEvents2::RobotSpawned(spawn));
        }
    }

    /// The admission step of a tick. Waiting or settling sets the tick's
    /// state; otherwise the known grid is kept as a snapshot and merged into
    /// the record before the action is carried out.
    pub fn plan_tick(
        &mut self,
        energy: usize,
        backpack: &Backpack,
        known: Vec<Vec<Option<Tile>>>,
        record: &mut SimulationRecord,
    ) -> (r: TickPlan)
        requires
            backpack.wf(),
            is_square(known@),
            old(record).wf(),
        ensures
            final(record).wf(),
            r == planned(energy, old(self).actual_action, *backpack),
            final(self).actual_action == old(self).actual_action,
            final(self).past_events == old(self).past_events,
            final(record).simulation_events@ == old(record).simulation_events@,
            final(record).setup_data == old(record).setup_data,
            r matches TickPlan::Settled(s) ==> is_tick_result(s),
            r is Wait ==> final(self).actual_state == States::Neutral && final(self).map == old(self).map
                && final(record).initial_map == old(record).initial_map,
            r matches TickPlan::Settled(s) ==> final(self).actual_state == s,
            r is Perform ==> final(self).actual_state == old(self).actual_state,
            !(r is Wait) ==> {
                &&& final(self).map@ == old(self).map@.push(known)
                &&& forall|p: (usize, usize)| #[trigger]
                    recorded(final(record).initial_map@, p) == merged(old(record).initial_map@, known@, p)
            },
    {
        if energy <= ENERGY_THRESHOLD {
            self.actual_state = States::Neutral;
            return TickPlan::Wait;
        }
        update_initial_map(record, &known, false);
        self.map.push(known);
        let action = self.actual_action;
        match destroy_target_kind(action) {
            Some(_) => {
                if full(backpack) {
                    let s = check_backpack(backpack);
                    self.actual_state = s;
                    return TickPlan::Settled(s);
                }
            },
            None => {},
        }
        TickPlan::Perform(action)
    }

    /// Ends a tick that carried out the chosen action: classifies its result,
    /// records the tiles and the interaction it brought to light, and returns
    /// the changes to the index of known content: forgetting a destroyed
    /// target, then refreshing the index from the grid.
    pub fn finish_tick(
        &mut self,
        outcome: Result<ActionReport, ActionErr>,
        after: &Backpack,
        known: Vec<Vec<Option<Tile>>>,
        record: &mut SimulationRecord,
    ) -> (r: Vec<ChartUpdate>)
        requires
            after.wf(),
            is_square(known@),
            old(record).wf(),
        ensures
            final(record).wf(),
            r@ == destroy_removal(old(self).actual_action, outcome) + grid_updates(known@, known@.len() as int),
            final(self).actual_state == tick_state(old(self).actual_action, outcome, *after),
            is_tick_result(final(self).actual_state),
            final(self).actual_action == old(self).actual_action,
            final(self).map == old(self).map,
            final(record).simulation_events@ == old(record).simulation_events@,
            final(record).setup_data == old(record).setup_data,
            records_tiles(old(self).actual_action, outcome) ==> forall|p: (usize, usize)| #[trigger]
                recorded(final(record).initial_map@, p) == merged(old(record).initial_map@, known@, p),
            !records_tiles(old(self).actual_action, outcome) ==> final(record).initial_map
                == old(record).initial_map,
            interaction(old(self).actual_action, outcome) matches Some(i) ==> final(self).past_events@
                == old(self).past_events@.push(MyEvents2::ContentInteracted(i.0, i.1)),
            is_explore(old(self).actual_action) ==> final(self).past_events@ == old(self).past_events@.push(
                MyEvents2::UsedTool(known),
            ),
            interaction(old(self).actual_action, outcome) is None && !is_explore(old(self).actual_action)
                ==> final(self).past_events == old(self).past_events,
    {
        let action = self.actual_action;
        let state = classify_outcome(action, &outcome, after);
        self.actual_state = state;
        let mut updates: Vec<ChartUpdate> = Vec::new();
        match (&outcome, destroy_target_kind(action)) {
            (Ok(ActionReport::DestroyedAt(p)), Some(kind)) => updates.push(ChartUpdate::Remove(kind, *p)),
            _ => {},
        }
        let mut refresh = update_map(&known);
        updates.append(&mut refresh);
        proof {
            assert(updates@ =~= destroy_removal(action, outcome) + grid_updates(known@, known@.len() as int));
        }
        match interaction_of(action, &outcome) {
            Some(i) => {
                update_initial_map(record, &known, false);
                self.past_events.push(MyEvents2::ContentInteracted(i.0, i.1));
            },
            None => {
                if action == Action::ExploreNearings || action == Action::ExploreUnknown {
                    if outcome.is_ok() {
                        update_initial_map(record, &known, false);
                    }
                    self.past_events.push(MyEvents2::UsedTool(known));
                }
            },
        }
        updates
    }

    /// Passes a world event on to both visualisation queues, each keeping the
    /// kinds it shows.
    pub fn handle_event(&mut self, event: WorldEvent, record: &mut SimulationRecord)
        ensures
            old(record).wf() ==> final(record).wf(),
            final(self).actual_action == old(self).actual_action,
            final(self).actual_state == old(self).actual_state,
            final(self).map == old(self).map,
            final(record).initial_map == old(record).initial_map,
            final(record).setup_data == old(record).setup_data,
            is_ignored(event) ==> final(record).simulation_events@ == old(record).simulation_events@,
            !is_ignored(event) ==> final(record).simulation_events@ == old(record).simulation_events@.push(
                MyEvent::RobLib(event),
            ),
            is_shown(event) ==> final(self).past_events@ == old(self).past_events@.push(MyEvents2::Event(event)),
            !is_shown(event) ==> final(self).past_events == old(self).past_events,
    {
        push_event(record, MyEvent::RobLib(event));
        match event {
            WorldEvent::Terminated | WorldEvent::Moved(_, _) | WorldEvent::AddedToBackpack(_, _)
            | WorldEvent::RemovedFromBackpack(_, _) => {
                self.past_events.push(MyEvents2::Event(event));
            },
            _ => {},
        }
    }
}

} // verus!
