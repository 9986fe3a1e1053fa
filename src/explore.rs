use vstd::prelude::*;

use crate::actions::{ActionErr, ActionReport};
use crate::chance::random_below;
use crate::grid::{
    cell, dist_sq, farthest_index, find_unknown, in_grid, is_square, on_frontier, small, surrounded_by_unknown, Direction,
};
use crate::world::Tile;

verus! {

/// Radius that the spotlight lights up around the robot.
pub const SPOTLIGHT_RADIUS: usize = 10;

/// Sweep distance after reaching a frontier, and of the plain exploring action.
pub const NEAR_RADIUS: usize = 5;

/// Sweep distance after following a street to its end.
pub const STREET_RADIUS: usize = 10;

/// One step of exploring the robot's surroundings.
#[derive(Clone, Copy, Debug)]
pub enum ExploreCommand {
    /// Light up the given radius around the robot.
    Illuminate(usize),
    /// Queue the tiles discovered so far for the visualiser.
    PublishTiles,
    /// Get hold of the charting tool.
    StartCharting,
    /// Chart a line of the given length in a direction.
    DiscoverLine(Direction, usize),
    /// Go back to the given position.
    Recenter((usize, usize)),
}

/// The four-way sweep from `start`: up, down, left, right, returning to
/// `start` between directions.
pub open spec fn sweep(start: (usize, usize), distance: usize) -> Seq<ExploreCommand> {
    seq![
        ExploreCommand::DiscoverLine(Direction::Up, distance),
        ExploreCommand::Recenter(start),
        ExploreCommand::DiscoverLine(Direction::Down, distance),
        ExploreCommand::Recenter(start),
        ExploreCommand::DiscoverLine(Direction::Left, distance),
        ExploreCommand::Recenter(start),
        ExploreCommand::DiscoverLine(Direction::Right, distance),
    ]
}

/// Exploring the surroundings: while undiscovered tiles remain, the spotlight
/// first (its tiles published); then the charting tool sweeps the four
/// directions, and the tiles known at the end are published.
pub open spec fn nearings(discoverable: usize, start: (usize, usize), distance: usize) -> Seq<ExploreCommand> {
    let head = if discoverable > 0 {
        seq![ExploreCommand::Illuminate(SPOTLIGHT_RADIUS), ExploreCommand::PublishTiles]
    } else {
        Seq::empty()
    };
    head + seq![ExploreCommand::StartCharting] + sweep(start, distance) + seq![ExploreCommand::PublishTiles]
}

/// One step of an exploration run: from the position `next` in `plan` and
/// whether the spotlight lit, given whether the command there succeeded, the
/// next position, the new lit flag and, when the run ends, its result. A lit
/// spotlight goes on to publish its tiles and then completes the run; a failed
/// spotlight falls back to the sweep; a missing charting tool means nothing
/// can be charted; a failed sweep step means the robot ran out of energy; the
/// final publish completes the run.
pub open spec fn step_spec(plan: Seq<ExploreCommand>, next: nat, lit: bool, ok: bool) -> (
    nat,
    bool,
    Option<Result<ActionReport, ActionErr>>,
) {
    let cmd = plan[next as int];
    match cmd {
        ExploreCommand::Illuminate(_) => (next + 1, ok, None),
        ExploreCommand::PublishTiles => if lit || next + 1 >= plan.len() {
            (next + 1, lit, Some(Ok(ActionReport::Completed)))
        } else {
            (next + 1, lit, None)
        },
        ExploreCommand::StartCharting => if ok {
            (next + 1, lit, None)
        } else {
            (next, lit, Some(Err(ActionErr::NotFound)))
        },
        _ => if ok {
            (next + 1, lit, None)
        } else {
            (next, lit, Some(Err(ActionErr::NotEnoughEnergy)))
        },
    }
}

/// The result of a run from position `next` when its commands succeed or fail
/// as `oks` says, one entry per command carried out; `None` if `oks` runs out
/// first.
pub open spec fn run_result(plan: Seq<ExploreCommand>, next: nat, lit: bool, oks: Seq<bool>) -> Option<
    Result<ActionReport, ActionErr>,
>
    decreases oks.len(),
{
    if oks.len() == 0 || next >= plan.len() {
        None
    } else {
        let (n, l, r) = step_spec(plan, next, lit, oks[0]);
        if r is Some {
            r
        } else {
            run_result(plan, n, l, oks.drop_first())
        }
    }
}

/// An exploration of the robot's surroundings in progress: the commands, the
/// position of the next one and whether the spotlight lit.
pub struct NearingsRun {
    pub commands: Vec<ExploreCommand>,
    pub next: usize,
    pub lit: bool,
}

impl NearingsRun {
    pub open spec fn wf(&self) -> bool {
        self.next <= self.commands@.len()
    }

    /// Starts the run: the commands of `nearings`, none carried out yet.
    pub fn new(discoverable: usize, start: (usize, usize), distance: usize) -> (r: NearingsRun)
        ensures
            r.wf(),
            r.commands@ == nearings(discoverable, start, distance),
            r.next == 0,
            !r.lit,
    {
        let mut out: Vec<ExploreCommand> = Vec::new();
        if discoverable > 0 {
            out.push(ExploreCommand::Illuminate(SPOTLIGHT_RADIUS));
            out.push(ExploreCommand::PublishTiles);
        }
        out.push(ExploreCommand::StartCharting);
        out.push(ExploreCommand::DiscoverLine(Direction::Up, distance));
        out.push(ExploreCommand::Recenter(start));
        out.push(ExploreCommand::DiscoverLine(Direction::Down, distance));
        out.push(ExploreCommand::Recenter(start));
        out.push(ExploreCommand::DiscoverLine(Direction::Left, distance));
        out.push(ExploreCommand::Recenter(start));
        out.push(ExploreCommand::DiscoverLine(Direction::Right, distance));
        out.push(ExploreCommand::PublishTiles);
        assert(out@ =~= nearings(discoverable, start, distance));
        NearingsRun { commands: out, next: 0, lit: false }
    }

    /// The command to carry out now, if the run has one left.
    pub fn next_command(&self) -> (r: Option<ExploreCommand>)
        requires
            self.wf(),
        ensures
            self.next < self.commands@.len() ==> r == Some(self.commands@[self.next as int]),
            self.next >= self.commands@.len() ==> r is None,
    {
        if self.next < self.commands.len() {
            Some(self.commands[self.next])
        } else {
            None
        }
    }

    /// Records whether the current command succeeded; returns the result of
    /// the run once it ends.
    pub fn report(&mut self, ok: bool) -> (r: Option<Result<ActionReport, ActionErr>>)
        requires
            old(self).wf(),
            old(self).next < old(self).commands@.len(),
        ensures
            final(self).wf(),
            final(self).commands@ == old(self).commands@,
            (final(self).next as nat, final(self).lit, r) == step_spec(
                old(self).commands@,
                old(self).next as nat,
                old(self).lit,
                ok,
            ),
    {
        let n = self.commands.len();
        match self.commands[self.next] {
            ExploreCommand::Illuminate(_) => {
                self.next = self.next + 1;
                self.lit = ok;
                None
            },
            ExploreCommand::PublishTiles => {
                self.next = self.next + 1;
                if self.lit || self.next >= n {
                    Some(Ok(ActionReport::Completed))
                } else {
                    None
                }
            },
            ExploreCommand::StartCharting => {
                if ok {
                    self.next = self.next + 1;
                    None
                } else {
                    Some(Err(ActionErr::NotFound))
                }
            },
            _ => {
                if ok {
                    self.next = self.next + 1;
                    None
                } else {
                    Some(Err(ActionErr::NotEnoughEnergy))
                }
            },
        }
    }
}

/// While land is hidden, a lit spotlight is followed by the publishing of its
/// tiles, and the run then completes without any sweep.
pub proof fn lit_spotlight_publishes_then_completes(discoverable: usize, start: (usize, usize), distance: usize)
    requires
        discoverable > 0,
    ensures
        nearings(discoverable, start, distance)[0] == ExploreCommand::Illuminate(SPOTLIGHT_RADIUS),
        nearings(discoverable, start, distance)[1] == ExploreCommand::PublishTiles,
        run_result(nearings(discoverable, start, distance), 0, false, seq![true]) is None,
        run_result(nearings(discoverable, start, distance), 0, false, seq![true, true]) == Some(
            Ok::<ActionReport, ActionErr>(ActionReport::Completed),
        ),
{
    let plan = nearings(discoverable, start, distance);
    let tail = seq![ExploreCommand::StartCharting] + sweep(start, distance) + seq![ExploreCommand::PublishTiles];
    assert(plan =~= seq![ExploreCommand::Illuminate(SPOTLIGHT_RADIUS), ExploreCommand::PublishTiles] + tail);
    assert(plan[0] == ExploreCommand::Illuminate(SPOTLIGHT_RADIUS));
    assert(plan[1] == ExploreCommand::PublishTiles);
    assert(plan.len() == 11);
    assert(step_spec(plan, 0, false, true) == (1nat, true, None::<Result<ActionReport, ActionErr>>));
    assert(seq![true, true].drop_first() =~= seq![true]);
    assert(seq![true].drop_first() =~= Seq::<bool>::empty());
    assert(run_result(plan, 1, true, Seq::<bool>::empty()) is None);
    assert(step_spec(plan, 1, true, true).2 == Some(Ok::<ActionReport, ActionErr>(ActionReport::Completed)));
    assert(run_result(plan, 1, true, seq![true]) == Some(Ok::<ActionReport, ActionErr>(ActionReport::Completed)));
}

/// A spotlight that fails still has its tiles published, and the run goes on
/// to the sweep, starting with the charting tool.
pub proof fn failed_spotlight_falls_back_to_sweep(discoverable: usize, start: (usize, usize), distance: usize)
    requires
        discoverable > 0,
    ensures
        run_result(nearings(discoverable, start, distance), 0, false, seq![false, true]) is None,
        nearings(discoverable, start, distance)[2] == ExploreCommand::StartCharting,
{
    let plan = nearings(discoverable, start, distance);
    let tail = seq![ExploreCommand::StartCharting] + sweep(start, distance) + seq![ExploreCommand::PublishTiles];
    assert(plan =~= seq![ExploreCommand::Illuminate(SPOTLIGHT_RADIUS), ExploreCommand::PublishTiles] + tail);
    assert(plan.len() == 11);
    assert(plan[2] == ExploreCommand::StartCharting);
    assert(seq![false, true].drop_first() =~= seq![true]);
    assert(seq![true].drop_first() =~= Seq::<bool>::empty());
    assert(run_result(plan, 2, false, Seq::<bool>::empty()) is None);
    assert(run_result(plan, 1, false, seq![true]) is None);
}

/// A sweep whose commands all succeed charts the four directions and
/// completes; a failed line or return ends it with `NotEnoughEnergy`.
pub proof fn full_sweep_completes(start: (usize, usize), distance: usize, k: int)
    requires
        1 <= k < 8,
    ensures
        run_result(nearings(0, start, distance), 0, false, Seq::new(9, |i: int| true)) == Some(
            Ok::<ActionReport, ActionErr>(ActionReport::Completed),
        ),
        run_result(nearings(0, start, distance), 0, false, Seq::new(k as nat, |i: int| true).push(false))
            == Some(Err::<ActionReport, ActionErr>(ActionErr::NotEnoughEnergy)),
{
    let plan = nearings(0, start, distance);
    lemma_sweep_plan(start, distance);
    lemma_all_ok_run(start, distance, 0, Seq::new(9, |i: int| true));
    lemma_sweep_fails(start, distance, 0, Seq::new(k as nat, |i: int| true).push(false));
}

proof fn lemma_sweep_plan(start: (usize, usize), distance: usize)
    ensures
        nearings(0, start, distance) == seq![
            ExploreCommand::StartCharting,
            ExploreCommand::DiscoverLine(Direction::Up, distance),
            ExploreCommand::Recenter(start),
            ExploreCommand::DiscoverLine(Direction::Down, distance),
            ExploreCommand::Recenter(start),
            ExploreCommand::DiscoverLine(Direction::Left, distance),
            ExploreCommand::Recenter(start),
            ExploreCommand::DiscoverLine(Direction::Right, distance),
            ExploreCommand::PublishTiles,
        ],
{
    assert(nearings(0, start, distance) =~= seq![
        ExploreCommand::StartCharting,
        ExploreCommand::DiscoverLine(Direction::Up, distance),
        ExploreCommand::Recenter(start),
        ExploreCommand::DiscoverLine(Direction::Down, distance),
        ExploreCommand::Recenter(start),
        ExploreCommand::DiscoverLine(Direction::Left, distance),
        ExploreCommand::Recenter(start),
        ExploreCommand::DiscoverLine(Direction::Right, distance),
        ExploreCommand::PublishTiles,
    ]);
}

proof fn lemma_all_ok_run(start: (usize, usize), distance: usize, next: nat, oks: Seq<bool>)
    requires
        next + oks.len() == 9,
        oks.len() >= 1,
        forall|i: int| 0 <= i < oks.len() ==> oks[i],
    ensures
        run_result(nearings(0, start, distance), next, false, oks) == Some(
            Ok::<ActionReport, ActionErr>(ActionReport::Completed),
        ),
    decreases oks.len(),
{
    lemma_sweep_plan(start, distance);
    assert(oks[0]);
    if oks.len() > 1 {
        assert(oks.drop_first()[0] == oks[1]);
        lemma_all_ok_run(start, distance, next + 1, oks.drop_first());
    }
}

proof fn lemma_sweep_fails(start: (usize, usize), distance: usize, next: nat, oks: Seq<bool>)
    requires
        oks.len() >= 1,
        1 <= next + oks.len() - 1 < 8,
        forall|i: int| 0 <= i < oks.len() - 1 ==> oks[i],
        !oks.last(),
    ensures
        run_result(nearings(0, start, distance), next, false, oks) == Some(
            Err::<ActionReport, ActionErr>(ActionErr::NotEnoughEnergy),
        ),
    decreases oks.len(),
{
    lemma_sweep_plan(start, distance);
    if oks.len() > 1 {
        assert(oks[0]);
        assert(oks.drop_first().last() == oks.last());
        lemma_sweep_fails(start, distance, next + 1, oks.drop_first());
    } else {
        assert(!oks[0]);
    }
}

/// How the robot looks for unknown land.
#[derive(Clone, Copy, Debug, PartialEq, Eq, Structural)]
pub enum ExploreMode {
    /// Head for the farthest of several sampled frontier cells.
    Frontier,
    /// Follow the nearest street to one of its ends.
    Street,
}

/// Draws are taken from `0 .. STREET_ODDS`; one of them means a street.
pub const STREET_ODDS: usize = 20;

/// The mode that a draw from `0 .. STREET_ODDS` selects: a street for zero,
/// a frontier otherwise.
pub fn mode_for(draw: usize) -> (r: ExploreMode)
    ensures
        draw == 0 ==> r == ExploreMode::Street,
        draw != 0 ==> r == ExploreMode::Frontier,
{
    if draw == 0 {
        ExploreMode::Street
    } else {
        ExploreMode::Frontier
    }
}

/// Picks the exploration mode: a street once in twenty times, a frontier
/// otherwise.
pub fn choose_mode() -> (r: ExploreMode) {
    mode_for(random_below(STREET_ODDS))
}

/// Number of random walks sampled for a frontier.
pub const FRONTIER_SAMPLES: usize = 4;

/// The frontier cell to head for among the sampled walks: the first of those
/// farthest from the robot; with none found the world must be explored
/// otherwise.
pub fn pick_frontier(found: &Vec<Option<(usize, usize)>>, robot_pos: (usize, usize)) -> (r: Result<(usize, usize), ActionErr>)
    requires
        small(robot_pos),
        forall|i: int| 0 <= i < found@.len() && (#[trigger] found@[i]) is Some ==> small(found@[i]->Some_0),
    ensures
        r is Err <==> forall|j: int| 0 <= j < found@.len() ==> (#[trigger] found@[j]) is None,
        r matches Err(e) ==> e == ActionErr::NeedsExploring,
        r matches Ok(p) ==> exists|k: int|
            0 <= k < found@.len() && found@[k] == Some(p) && (forall|j: int|
                0 <= j < found@.len() && (#[trigger] found@[j]) is Some ==> dist_sq(robot_pos, found@[j]->Some_0)
                    <= dist_sq(robot_pos, p)) && (forall|j: int|
                0 <= j < k && (#[trigger] found@[j]) is Some ==> dist_sq(robot_pos, found@[j]->Some_0) < dist_sq(
                    robot_pos,
                    p,
                )),
{
    match farthest_index(found, robot_pos) {
        Some(i) => {
            let p = found[i].unwrap();
            assert(found@[i as int] == Some(p));
            Ok(p)
        },
        None => Err(ActionErr::NeedsExploring),
    }
}

/// Samples four random walks from the robot and heads for the frontier cell
/// farthest from it (see `pick_frontier`); when no walk met unknown land the
/// world must be explored otherwise. A robot surrounded by unknown land stays
/// where it is.
pub fn frontier_target(robot_pos: (usize, usize), map: &Vec<Vec<Option<Tile>>>) -> (r: Result<(usize, usize), ActionErr>)
    requires
        is_square(map@),
        in_grid(robot_pos, map@.len() as int),
        map@.len() * map@.len() <= usize::MAX,
    ensures
        surrounded_by_unknown(map@, robot_pos) ==> r == Ok::<(usize, usize), ActionErr>(robot_pos),
        r matches Err(e) ==> e == ActionErr::NeedsExploring,
        r matches Ok(p) ==> {
            &&& in_grid(p, map@.len() as int)
            &&& p == robot_pos || cell(map@, p) is Some
            &&& on_frontier(map@, p)
        },
{
    let mut found: Vec<Option<(usize, usize)>> = Vec::new();
    let mut k: usize = 0;
    while k < FRONTIER_SAMPLES
        invariant
            is_square(map@),
            in_grid(robot_pos, map@.len() as int),
            map@.len() * map@.len() <= usize::MAX,
            found@.len() == k,
            k <= FRONTIER_SAMPLES,
            forall|i: int|
                0 <= i < found@.len() && (#[trigger] found@[i]) is Some ==> {
                    let p = found@[i]->Some_0;
                    &&& in_grid(p, map@.len() as int)
                    &&& p == robot_pos || cell(map@, p) is Some
                    &&& on_frontier(map@, p)
                },
            surrounded_by_unknown(map@, robot_pos) ==> forall|i: int|
                0 <= i < found@.len() ==> #[trigger] found@[i] == Some(robot_pos),
        decreases FRONTIER_SAMPLES - k,
    {
        let sample = find_unknown(robot_pos, map);
        found.push(sample);
        k = k + 1;
    }
    assert(map@.len() <= u32::MAX) by (nonlinear_arith)
        requires
            map@.len() * map@.len() <= usize::MAX,
            usize::MAX <= u64::MAX,
    ;
    let r = pick_frontier(&found, robot_pos);
    proof {
        if surrounded_by_unknown(map@, robot_pos) {
            assert(found@[0] == Some(robot_pos));
        }
    }
    r
}

/// Picks at random one of the places where a street can be left; with none
/// the world must be explored otherwise.
pub fn street_exit(exits: &Vec<(usize, usize)>) -> (r: Result<(usize, usize), ActionErr>)
    ensures
        exits@.len() == 0 <==> r is Err,
        r matches Err(e) ==> e == ActionErr::NeedsExploring,
        r matches Ok(p) ==> exits@.contains(p),
{
    if exits.len() == 0 {
        return Err(ActionErr::NeedsExploring);
    }
    let i = random_below(exits.len());
    assert(exits@[i as int] == exits[i as int]);
    Ok(exits[i])
}

} // verus!
