use vstd::prelude::*;

use crate::backpack::{quantity, quantity_of, Backpack};
use crate::grid::{cell, dist_sq, in_grid, is_square, match_coordinates, nearest_index, shifted, small, Direction};
use crate::world::{Content, ContentKind, Tile};

verus! {

/// Why an action could not be carried out.
#[derive(Clone, Copy, Debug, PartialEq, Eq, Structural)]
pub enum ActionErr {
    NotFound,
    NotEnough,
    NeedsExploring,
    NotEnoughEnergy,
    Full,
}

/// How a world primitive or tool failed: for lack of room in the backpack, or
/// otherwise.
#[derive(Clone, Copy, Debug, PartialEq, Eq, Structural)]
pub enum ToolError {
    NotEnoughSpace,
    Other,
}

/// One move of a planned route.
#[derive(Clone, Copy, Debug)]
pub enum PathStep {
    Go(Direction),
    Teleport((usize, usize)),
}

/// What a completed action reports.
#[derive(Clone, Copy, Debug)]
pub enum ActionReport {
    Completed,
    /// Items sold or coins banked, with the coordinate and content of the
    /// market or bank.
    Traded { amount: usize, at: (usize, usize), content: Content },
    /// The coordinate of the destroyed content.
    DestroyedAt((usize, usize)),
}

/// Where a route should lead.
#[derive(Clone, Copy, Debug)]
pub enum PlanTarget {
    Coordinates((usize, usize)),
    NearestContent(ContentKind),
}

/// The craftable units that a quantity of garbage yields.
pub open spec fn craftable_of(garbage: nat) -> nat {
    garbage / 5
}

/// Decides whether recycling can start: it needs garbage for at least one
/// craftable unit, and asks the recycling tool for all of them.
pub fn recycle_plan(backpack: &Backpack) -> (r: Result<usize, ActionErr>)
    requires
        backpack.wf(),
    ensures
        craftable_of(quantity_of(backpack.contents@, ContentKind::Garbage)) == 0 <==> r is Err,
        r matches Err(e) ==> e == ActionErr::NotEnough,
        r matches Ok(n) ==> n == craftable_of(quantity_of(backpack.contents@, ContentKind::Garbage)),
{
    let craftable = quantity(backpack, ContentKind::Garbage) / 5;
    if craftable > 0 {
        Ok(craftable)
    } else {
        Err(ActionErr::NotEnough)
    }
}

/// The result of recycling, given what the recycling tool answered.
pub fn recycle_outcome(tool: Result<(), ToolError>) -> (r: Result<ActionReport, ActionErr>)
    ensures
        tool is Ok ==> r matches Ok(ActionReport::Completed),
        tool is Err ==> r == Err::<ActionReport, ActionErr>(ActionErr::NotEnough),
{
    match tool {
        Ok(_) => Ok(ActionReport::Completed),
        Err(_) => Err(ActionErr::NotEnough),
    }
}

/// Where to head for a market or bank: the best known one, or else the nearest
/// tile holding that content.
pub fn destination(best: Option<(usize, usize)>, kind: ContentKind) -> (r: PlanTarget)
    ensures
        best matches Some(c) ==> r == PlanTarget::Coordinates(c),
        best is None ==> r == PlanTarget::NearestContent(kind),
{
    match best {
        Some(c) => PlanTarget::Coordinates(c),
        None => PlanTarget::NearestContent(kind),
    }
}

/// Walks a planned route up to the tile before its destination, one step at a
/// time.
pub struct PathWalk {
    pub steps: Vec<PathStep>,
    pub taken: usize,
}

impl PathWalk {
    pub open spec fn wf(&self) -> bool {
        0 < self.steps@.len() && self.taken < self.steps@.len()
    }

    /// Starts on a planned route; a failed plan or an empty route means the
    /// world must be explored more.
    pub fn start(plan: Result<Vec<PathStep>, ToolError>) -> (r: Result<PathWalk, ActionErr>)
        ensures
            (plan is Err || plan->Ok_0@.len() == 0) <==> r is Err,
            r matches Err(e) ==> e == ActionErr::NeedsExploring,
            r matches Ok(w) ==> w.wf() && w.taken == 0 && w.steps@ == plan->Ok_0@,
    {
        match plan {
            Ok(steps) => {
                if steps.len() == 0 {
                    Err(ActionErr::NeedsExploring)
                } else {
                    Ok(PathWalk { steps, taken: 0 })
                }
            },
            Err(_) => Err(ActionErr::NeedsExploring),
        }
    }

    /// The next step to take, or `None` once only the last step is left.
    pub fn next_step(&self) -> (r: Option<PathStep>)
        requires
            self.wf(),
        ensures
            self.taken + 1 < self.steps@.len() ==> r == Some(self.steps@[self.taken as int]),
            self.taken + 1 >= self.steps@.len() ==> r is None,
    {
        if self.taken < self.steps.len() - 1 {
            Some(self.steps[self.taken])
        } else {
            None
        }
    }

    /// Records whether the step just tried succeeded; a failed step means the
    /// robot ran out of energy.
    pub fn step_done(&mut self, ok: bool) -> (r: Result<(), ActionErr>)
        requires
            old(self).wf(),
            old(self).taken + 1 < old(self).steps@.len(),
        ensures
            final(self).wf(),
            final(self).steps@ == old(self).steps@,
            ok ==> r is Ok && final(self).taken == old(self).taken + 1,
            !ok ==> r == Err::<(), ActionErr>(ActionErr::NotEnoughEnergy) && final(self).taken == old(self).taken,
    {
        let n = self.steps.len();
        if ok {
            assert(self.taken + 1 < n);
            self.taken = self.taken + 1;
            Ok(())
        } else {
            Err(ActionErr::NotEnoughEnergy)
        }
    }

    /// The direction of the destination from where the walk stopped; a route
    /// that ends in a teleport leaves it unknown.
    pub fn final_direction(&self) -> (r: Result<Direction, ActionErr>)
        requires
            self.wf(),
        ensures
            self.steps@.last() matches PathStep::Go(d) ==> r == Ok::<Direction, ActionErr>(d),
            self.steps@.last() is Teleport ==> r == Err::<Direction, ActionErr>(ActionErr::NotFound),
    {
        match self.steps[self.steps.len() - 1] {
            PathStep::Go(d) => Ok(d),
            PathStep::Teleport(_) => Err(ActionErr::NotFound),
        }
    }
}

/// The categories a market buys.
pub open spec fn is_sellable(kind: ContentKind) -> bool {
    kind == ContentKind::Tree || kind == ContentKind::Rock || kind == ContentKind::Fish
}

/// The sellable categories held in positive quantity, in backpack order.
pub open spec fn sellable_in(s: Seq<(ContentKind, usize)>) -> Seq<ContentKind>
    decreases s.len(),
{
    if s.len() == 0 {
        Seq::empty()
    } else if s.last().1 > 0 && is_sellable(s.last().0) {
        sellable_in(s.drop_last()).push(s.last().0)
    } else {
        sellable_in(s.drop_last())
    }
}

/// Lists the backpack's categories that a market buys.
pub fn to_be_sold(backpack: &Backpack) -> (r: Vec<ContentKind>)
    ensures
        r@ == sellable_in(backpack.contents@),
{
    let mut out: Vec<ContentKind> = Vec::new();
    let mut i: usize = 0;
    let n = backpack.contents.len();
    while i < n
        invariant
            n == backpack.contents@.len(),
            0 <= i <= n,
            out@ == sellable_in(backpack.contents@.subrange(0, i as int)),
        decreases n - i,
    {
        let entry = backpack.contents[i];
        proof {
            assert(backpack.contents@.subrange(0, i + 1).drop_last() =~= backpack.contents@.subrange(0, i as int));
        }
        if entry.1 > 0 && (entry.0 == ContentKind::Tree || entry.0 == ContentKind::Rock || entry.0
            == ContentKind::Fish) {
            out.push(entry.0);
        }
        i = i + 1;
    }
    proof {
        assert(backpack.contents@.subrange(0, n as int) =~= backpack.contents@);
    }
    out
}

/// Total quantity of a list of sold amounts.
pub open spec fn amount_total(s: Seq<(ContentKind, usize)>) -> nat
    decreases s.len(),
{
    if s.len() == 0 {
        0
    } else {
        amount_total(s.drop_last()) + s.last().1 as nat
    }
}

proof fn lemma_amount_prefix(s: Seq<(ContentKind, usize)>, i: int)
    requires
        0 <= i <= s.len(),
    ensures
        amount_total(s.subrange(0, i)) <= amount_total(s),
    decreases s.len(),
{
    if i < s.len() {
        assert(s.drop_last().subrange(0, i) =~= s.subrange(0, i));
        lemma_amount_prefix(s.drop_last(), i);
    } else {
        assert(s.subrange(0, i) =~= s);
    }
}

fn total_amount(items: &Vec<(ContentKind, usize)>) -> (r: usize)
    requires
        amount_total(items@) <= usize::MAX,
    ensures
        r == amount_total(items@),
{
    let mut total: usize = 0;
    let mut i: usize = 0;
    while i < items.len()
        invariant
            0 <= i <= items@.len(),
            amount_total(items@) <= usize::MAX,
            total == amount_total(items@.subrange(0, i as int)),
        decreases items@.len() - i,
    {
        proof {
            assert(items@.subrange(0, i + 1).drop_last() =~= items@.subrange(0, i as int));
            lemma_amount_prefix(items@, i + 1);
        }
        total = total + items[i].1;
        i = i + 1;
    }
    proof {
        assert(items@.subrange(0, items@.len() as int) =~= items@);
    }
    total
}

/// The content known at `p`, or nothing where the tile is undiscovered.
pub open spec fn content_seen(map: Seq<Vec<Option<Tile>>>, p: (usize, usize)) -> Content {
    match cell(map, p) {
        Some(t) => t.content,
        None => Content { kind: ContentKind::Nothing, amount: 0 },
    }
}

fn content_at(map: &Vec<Vec<Option<Tile>>>, p: (usize, usize)) -> (r: Content)
    requires
        is_square(map@),
        in_grid(p, map@.len() as int),
    ensures
        r == content_seen(map@, p),
{
    let row = &map[p.0];
    match &row[p.1] {
        Some(t) => t.content,
        None => Content { kind: ContentKind::Nothing, amount: 0 },
    }
}

/// The result of selling, given what the seller tool answered from the tile
/// before the market: the items sold with the market's coordinate and content,
/// `NotEnough` when nothing was sold, `Full` when the backpack had no room.
pub fn sell_outcome(
    sold: Result<Vec<(ContentKind, usize)>, ToolError>,
    robot_pos: (usize, usize),
    dir: Direction,
    map: &Vec<Vec<Option<Tile>>>,
) -> (r: Result<ActionReport, ActionErr>)
    requires
        is_square(map@),
        in_grid(robot_pos, map@.len() as int),
        sold matches Ok(items) ==> amount_total(items@) <= usize::MAX,
    ensures
        sold matches Ok(items) ==> {
            let at = shifted(robot_pos, dir, map@.len() as usize);
            if amount_total(items@) > 0 {
                r matches Ok(ActionReport::Traded { amount, at: a, content }) && amount == amount_total(items@) && a
                    == at && content == content_seen(map@, at)
            } else {
                r == Err::<ActionReport, ActionErr>(ActionErr::NotEnough)
            }
        },
        sold == Err::<Vec<(ContentKind, usize)>, ToolError>(ToolError::NotEnoughSpace) ==> r == Err::<
            ActionReport,
            ActionErr,
        >(ActionErr::Full),
        sold == Err::<Vec<(ContentKind, usize)>, ToolError>(ToolError::Other) ==> r == Err::<
            ActionReport,
            ActionErr,
        >(ActionErr::NotEnough),
{
    match sold {
        Ok(items) => {
            let amount = total_amount(&items);
            if amount > 0 {
                let at = match_coordinates(robot_pos, dir, map.len());
                let content = content_at(map, at);
                Ok(ActionReport::Traded { amount, at, content })
            } else {
                Err(ActionErr::NotEnough)
            }
        },
        Err(ToolError::NotEnoughSpace) => Err(ActionErr::Full),
        Err(ToolError::Other) => Err(ActionErr::NotEnough),
    }
}

/// The result of banking `coins`, given what the put primitive answered from
/// the tile before the bank.
pub fn deposit_outcome(
    put: Result<(), ToolError>,
    coins: usize,
    robot_pos: (usize, usize),
    dir: Direction,
    map: &Vec<Vec<Option<Tile>>>,
) -> (r: Result<ActionReport, ActionErr>)
    requires
        is_square(map@),
        in_grid(robot_pos, map@.len() as int),
    ensures
        put is Ok ==> {
            let at = shifted(robot_pos, dir, map@.len() as usize);
            r matches Ok(ActionReport::Traded { amount, at: a, content }) && amount == coins && a == at && content
                == content_seen(map@, at)
        },
        put is Err ==> r == Err::<ActionReport, ActionErr>(ActionErr::NotFound),
{
    match put {
        Ok(_) => {
            let at = match_coordinates(robot_pos, dir, map.len());
            let content = content_at(map, at);
            Ok(ActionReport::Traded { amount: coins, at, content })
        },
        Err(_) => Err(ActionErr::NotFound),
    }
}

/// Picks the known instance of the target content nearest to the robot (the
/// first of equally near ones); with none known the world must be explored
/// first, and no route is planned.
pub fn destroy_target(known: &Vec<(usize, usize)>, robot_pos: (usize, usize)) -> (r: Result<(usize, usize), ActionErr>)
    requires
        known@.len() > 0 ==> small(robot_pos),
        forall|i: int| 0 <= i < known@.len() ==> small(#[trigger] known@[i]),
    ensures
        known@.len() == 0 <==> r is Err,
        r matches Err(e) ==> e == ActionErr::NeedsExploring,
        r matches Ok(c) ==> exists|k: int|
            0 <= k < known@.len() && known@[k] == c && (forall|j: int|
                0 <= j < known@.len() ==> dist_sq(robot_pos, c) <= dist_sq(robot_pos, #[trigger] known@[j])) && (
            forall|j: int| 0 <= j < k ==> dist_sq(robot_pos, c) < dist_sq(robot_pos, #[trigger] known@[j])),
{
    if known.len() == 0 {
        return Err(ActionErr::NeedsExploring);
    }
    match nearest_index(known, robot_pos) {
        Some(k) => Ok(known[k]),
        None => Err(ActionErr::NeedsExploring),
    }
}

/// The direction to strike from a tile next to the target, given the route
/// planned to it: anything but a single plain step means the robot is not
/// beside it.
pub fn strike_direction(final_plan: Result<Vec<PathStep>, ToolError>) -> (r: Result<Direction, ActionErr>)
    ensures
        final_plan is Err ==> r == Err::<Direction, ActionErr>(ActionErr::NeedsExploring),
        final_plan matches Ok(steps) ==> {
            if steps@.len() == 1 && steps@[0] is Go {
                r == Ok::<Direction, ActionErr>(steps@[0]->Go_0)
            } else {
                r == Err::<Direction, ActionErr>(ActionErr::NotFound)
            }
        },
{
    match final_plan {
        Ok(steps) => {
            if steps.len() != 1 {
                return Err(ActionErr::NotFound);
            }
            match steps[0] {
                PathStep::Go(d) => Ok(d),
                PathStep::Teleport(_) => Err(ActionErr::NotFound),
            }
        },
        Err(_) => Err(ActionErr::NeedsExploring),
    }
}

/// The result of destroying in direction `dir`, given what the destroy
/// primitive answered.
pub fn destroy_outcome(res: Result<(), ToolError>, robot_pos: (usize, usize), dir: Direction, size: usize) -> (r: Result<
    ActionReport,
    ActionErr,
>)
    requires
        size > 0,
    ensures
        res is Ok ==> (r matches Ok(ActionReport::DestroyedAt(p)) && p == shifted(robot_pos, dir, size)),
        res == Err::<(), ToolError>(ToolError::NotEnoughSpace) ==> r == Err::<ActionReport, ActionErr>(
            ActionErr::Full,
        ),
        res == Err::<(), ToolError>(ToolError::Other) ==> r == Err::<ActionReport, ActionErr>(
            ActionErr::NeedsExploring,
        ),
{
    match res {
        Ok(_) => Ok(ActionReport::DestroyedAt(match_coordinates(robot_pos, dir, size))),
        Err(ToolError::NotEnoughSpace) => Err(ActionErr::Full),
        Err(ToolError::Other) => Err(ActionErr::NeedsExploring),
    }
}

} // verus!
