use vstd::prelude::*;

use crate::chance::random_below;
use crate::world::{dry_walkable, is_dry_walkable, Tile, TileType};

verus! {

/// The four cardinal directions in which the robot moves or interacts.
#[derive(Clone, Copy, Debug, PartialEq, Eq, Structural)]
pub enum Direction {
    Up,
    Down,
    Left,
    Right,
}

/// The cell one step from `pos` in direction `dir` on a `size`-wide square grid,
/// or `pos` itself where that step would leave the grid.
pub open spec fn shifted(pos: (usize, usize), dir: Direction, size: usize) -> (usize, usize) {
    match dir {
        Direction::Up => if pos.0 > 0 { ((pos.0 - 1) as usize, pos.1) } else { pos },
        Direction::Down => if pos.0 + 1 < size { ((pos.0 + 1) as usize, pos.1) } else { pos },
        Direction::Left => if pos.1 > 0 { (pos.0, (pos.1 - 1) as usize) } else { pos },
        Direction::Right => if pos.1 + 1 < size { (pos.0, (pos.1 + 1) as usize) } else { pos },
    }
}

/// A step never leaves the grid: from the top row a step up, and from the
/// bottom row a step down, leave the position as it is, whatever the column.
pub proof fn edges_hold_position(y: usize, size: usize)
    requires
        size > 0,
    ensures
        shifted((0, y), Direction::Up, size) == (0usize, y),
        shifted(((size - 1) as usize, y), Direction::Down, size) == ((size - 1) as usize, y),
{
}

/// Moves `robot_pos` one cell in direction `dir`, clamped at the edges of a
/// `size`-wide grid.
pub fn match_coordinates(robot_pos: (usize, usize), dir: Direction, size: usize) -> (r: (usize, usize))
    requires
        size > 0,
    ensures
        r == shifted(robot_pos, dir, size),
{
    match dir {
        Direction::Up => if robot_pos.0 > 0 { (robot_pos.0 - 1, robot_pos.1) } else { robot_pos },
        Direction::Down => if robot_pos.0 < size - 1 { (robot_pos.0 + 1, robot_pos.1) } else { robot_pos },
        Direction::Left => if robot_pos.1 > 0 { (robot_pos.0, robot_pos.1 - 1) } else { robot_pos },
        Direction::Right => if robot_pos.1 < size - 1 { (robot_pos.0, robot_pos.1 + 1) } else { robot_pos },
    }
}


/// A known-tile grid: `size` rows of `size` cells, `None` where undiscovered.
pub open spec fn is_square(map: Seq<Vec<Option<Tile>>>) -> bool {
    forall|i: int| 0 <= i < map.len() ==> (#[trigger] map[i]).len() == map.len()
}

pub open spec fn in_grid(p: (usize, usize), size: int) -> bool {
    p.0 < size && p.1 < size
}

pub open spec fn cell(map: Seq<Vec<Option<Tile>>>, p: (usize, usize)) -> Option<Tile> {
    map[p.0 as int]@[p.1 as int]
}

/// The cell is discovered and holds dry walkable terrain.
pub open spec fn known_dry(map: Seq<Vec<Option<Tile>>>, p: (usize, usize)) -> bool {
    cell(map, p) is Some && is_dry_walkable(cell(map, p)->Some_0.tile_type)
}

/// The first of the cells above, below, left and right of `pos` that is known
/// and dry walkable.
pub open spec fn dry_neighbour(map: Seq<Vec<Option<Tile>>>, pos: (usize, usize)) -> Option<(usize, usize)> {
    let n = map.len();
    if pos.0 > 0 && known_dry(map, ((pos.0 - 1) as usize, pos.1)) {
        Some(((pos.0 - 1) as usize, pos.1))
    } else if pos.0 + 1 < n && known_dry(map, ((pos.0 + 1) as usize, pos.1)) {
        Some(((pos.0 + 1) as usize, pos.1))
    } else if pos.1 > 0 && known_dry(map, (pos.0, (pos.1 - 1) as usize)) {
        Some((pos.0, (pos.1 - 1) as usize))
    } else if pos.1 + 1 < n && known_dry(map, (pos.0, (pos.1 + 1) as usize)) {
        Some((pos.0, (pos.1 + 1) as usize))
    } else {
        None
    }
}

fn is_known_dry(map: &Vec<Vec<Option<Tile>>>, p: (usize, usize)) -> (r: bool)
    requires
        is_square(map@),
        in_grid(p, map@.len() as int),
    ensures
        r == known_dry(map@, p),
{
    let row = &map[p.0];
    match &row[p.1] {
        Some(t) => dry_walkable(t.tile_type),
        None => false,
    }
}

/// Looks around a street tile for the first adjacent known tile the robot can
/// stand on: above, below, left, then right.
pub fn check_nearings(map: &Vec<Vec<Option<Tile>>>, pos: (usize, usize)) -> (r: Option<(usize, usize)>)
    requires
        is_square(map@),
        in_grid(pos, map@.len() as int),
    ensures
        r == dry_neighbour(map@, pos),
{
    let size = map.len();
    if pos.0 > 0 && is_known_dry(map, (pos.0 - 1, pos.1)) {
        return Some((pos.0 - 1, pos.1));
    }
    if pos.0 < size - 1 && is_known_dry(map, (pos.0 + 1, pos.1)) {
        return Some((pos.0 + 1, pos.1));
    }
    if pos.1 > 0 && is_known_dry(map, (pos.0, pos.1 - 1)) {
        return Some((pos.0, pos.1 - 1));
    }
    if pos.1 < size - 1 && is_known_dry(map, (pos.0, pos.1 + 1)) {
        return Some((pos.0, pos.1 + 1));
    }
    None
}


/// A street tile at `p` yields the dry tile beside it, if there is one.
pub open spec fn street_hit(map: Seq<Vec<Option<Tile>>>, p: (usize, usize)) -> Option<(usize, usize)> {
    if cell(map, p) is Some && cell(map, p)->Some_0.tile_type == TileType::Street {
        dry_neighbour(map, p)
    } else {
        None
    }
}

pub open spec fn opt_seq(o: Option<(usize, usize)>) -> Seq<(usize, usize)> {
    match o {
        Some(v) => seq![v],
        None => Seq::empty(),
    }
}

#[verifier::opaque]
/// Hits of the cells `(lo, col) .. (hi - 1, col)`, top to bottom.
pub open spec fn column_hits(map: Seq<Vec<Option<Tile>>>, col: usize, lo: usize, hi: int) -> Seq<(usize, usize)>
    decreases hi - lo,
{
    if hi <= lo {
        Seq::empty()
    } else {
        column_hits(map, col, lo, hi - 1) + opt_seq(street_hit(map, ((hi - 1) as usize, col)))
    }
}

#[verifier::opaque]
/// Hits of the cells `(row, lo) .. (row, hi - 1)`, left to right.
pub open spec fn row_hits(map: Seq<Vec<Option<Tile>>>, row: usize, lo: usize, hi: int) -> Seq<(usize, usize)>
    decreases hi - lo,
{
    if hi <= lo {
        Seq::empty()
    } else {
        row_hits(map, row, lo, hi - 1) + opt_seq(street_hit(map, (row, (hi - 1) as usize)))
    }
}

/// Lower edge of the ring at distance `i` along one axis (kept at `p` where it
/// would leave the grid).
pub open spec fn ring_lo(p: usize, i: usize) -> usize {
    if p >= i { (p - i) as usize } else { p }
}

/// Upper edge of the ring at distance `i` along one axis (kept at `p` where it
/// would leave the grid).
pub open spec fn ring_hi(p: usize, i: usize, size: usize) -> usize {
    if p + i < size { (p + i) as usize } else { p }
}

#[verifier::opaque]
/// Hits on the four sides of the ring at distance `i` around `pos`: left
/// column, right column, top row, bottom row.
pub open spec fn ring_hits(map: Seq<Vec<Option<Tile>>>, pos: (usize, usize), i: usize) -> Seq<(usize, usize)> {
    let size = map.len() as usize;
    let sr = ring_lo(pos.0, i);
    let er = ring_hi(pos.0, i, size);
    let sc = ring_lo(pos.1, i);
    let ec = ring_hi(pos.1, i, size);
    column_hits(map, sc, sr, er as int) + column_hits(map, ec, sr, er as int) + row_hits(map, sr, sc, ec as int)
        + row_hits(map, er, sc, ec as int)
}

/// Hits of the rings at distances `1 .. k - 1`, nearest first.
pub open spec fn rings_hits(map: Seq<Vec<Option<Tile>>>, pos: (usize, usize), k: usize) -> Seq<(usize, usize)>
    decreases k,
{
    if k <= 1 {
        Seq::empty()
    } else {
        rings_hits(map, pos, (k - 1) as usize) + ring_hits(map, pos, (k - 1) as usize)
    }
}

/// `q` is where some known street tile of the grid can be left.
pub open spec fn is_street_exit(map: Seq<Vec<Option<Tile>>>, q: (usize, usize)) -> bool {
    exists|p: (usize, usize)| in_grid(p, map.len() as int) && #[trigger] street_hit(map, p) == Some(q)
}

pub open spec fn all_exits(map: Seq<Vec<Option<Tile>>>, s: Seq<(usize, usize)>) -> bool {
    forall|k: int| 0 <= k < s.len() ==> is_street_exit(map, #[trigger] s[k])
}

proof fn lemma_concat_exits(map: Seq<Vec<Option<Tile>>>, a: Seq<(usize, usize)>, b: Seq<(usize, usize)>)
    requires
        all_exits(map, a),
        all_exits(map, b),
    ensures
        all_exits(map, a + b),
{
    assert forall|k: int| 0 <= k < (a + b).len() implies is_street_exit(map, #[trigger] (a + b)[k]) by {
        if k < a.len() {
            assert((a + b)[k] == a[k]);
        } else {
            assert((a + b)[k] == b[k - a.len()]);
        }
    }
}

proof fn lemma_hit_exit(map: Seq<Vec<Option<Tile>>>, p: (usize, usize))
    requires
        in_grid(p, map.len() as int),
    ensures
        all_exits(map, opt_seq(street_hit(map, p))),
{
    if street_hit(map, p) is Some {
        let q = street_hit(map, p)->Some_0;
        assert(opt_seq(street_hit(map, p))[0] == q);
        assert(is_street_exit(map, q));
    }
}

proof fn lemma_column_exits(map: Seq<Vec<Option<Tile>>>, col: usize, lo: usize, hi: int)
    requires
        col < map.len(),
        hi <= map.len(),
    ensures
        all_exits(map, column_hits(map, col, lo, hi)),
    decreases hi - lo,
{
    reveal(column_hits);
    if hi > lo {
        lemma_column_exits(map, col, lo, hi - 1);
        lemma_hit_exit(map, ((hi - 1) as usize, col));
        lemma_concat_exits(map, column_hits(map, col, lo, hi - 1), opt_seq(street_hit(map, ((hi - 1) as usize, col))));
    }
}

proof fn lemma_row_exits(map: Seq<Vec<Option<Tile>>>, row: usize, lo: usize, hi: int)
    requires
        row < map.len(),
        hi <= map.len(),
    ensures
        all_exits(map, row_hits(map, row, lo, hi)),
    decreases hi - lo,
{
    reveal(row_hits);
    if hi > lo {
        lemma_row_exits(map, row, lo, hi - 1);
        lemma_hit_exit(map, (row, (hi - 1) as usize));
        lemma_concat_exits(map, row_hits(map, row, lo, hi - 1), opt_seq(street_hit(map, (row, (hi - 1) as usize))));
    }
}

proof fn lemma_rings_exits(map: Seq<Vec<Option<Tile>>>, pos: (usize, usize), k: usize)
    requires
        in_grid(pos, map.len() as int),
        k <= map.len(),
    ensures
        all_exits(map, rings_hits(map, pos, k)),
    decreases k,
{
    if k > 1 {
        let i = (k - 1) as usize;
        let size = map.len() as usize;
        lemma_rings_exits(map, pos, i);
        let sr = ring_lo(pos.0, i);
        let er = ring_hi(pos.0, i, size);
        let sc = ring_lo(pos.1, i);
        let ec = ring_hi(pos.1, i, size);
        lemma_column_exits(map, sc, sr, er as int);
        lemma_column_exits(map, ec, sr, er as int);
        lemma_row_exits(map, sr, sc, ec as int);
        lemma_row_exits(map, er, sc, ec as int);
        let l = column_hits(map, sc, sr, er as int);
        let r = column_hits(map, ec, sr, er as int);
        let t = row_hits(map, sr, sc, ec as int);
        let b = row_hits(map, er, sc, ec as int);
        lemma_concat_exits(map, l, r);
        lemma_concat_exits(map, l + r, t);
        lemma_concat_exits(map, l + r + t, b);
        assert(ring_hits(map, pos, i) == l + r + t + b) by {
            reveal(ring_hits);
        }
        lemma_concat_exits(map, rings_hits(map, pos, i), ring_hits(map, pos, i));
    }
}

fn street_hit_at(map: &Vec<Vec<Option<Tile>>>, p: (usize, usize)) -> (r: Option<(usize, usize)>)
    requires
        is_square(map@),
        in_grid(p, map@.len() as int),
    ensures
        r == street_hit(map@, p),
{
    let row = &map[p.0];
    match &row[p.1] {
        Some(t) => {
            if t.tile_type == TileType::Street {
                check_nearings(map, p)
            } else {
                None
            }
        },
        None => None,
    }
}

fn scan_column(map: &Vec<Vec<Option<Tile>>>, col: usize, lo: usize, hi: usize, out: &mut Vec<(usize, usize)>)
    requires
        is_square(map@),
        col < map@.len(),
        hi <= map@.len(),
    ensures
        final(out)@ == old(out)@ + column_hits(map@, col, lo, hi as int),
{
    let mut row = lo;
    proof {
        reveal(column_hits);
    }
    while row < hi
        invariant
            is_square(map@),
            col < map@.len(),
            hi <= map@.len(),
            lo <= row,
            row <= hi || row == lo,
            out@ == old(out)@ + column_hits(map@, col, lo, row as int),
        decreases hi - row,
    {
        let hit = street_hit_at(map, (row, col));
        match hit {
            Some(v) => out.push(v),
            None => {},
        }
        proof {
            reveal(column_hits);
            assert(column_hits(map@, col, lo, row + 1) == column_hits(map@, col, lo, row as int)
                + opt_seq(street_hit(map@, (row, col))));
        }
        row = row + 1;
    }
}

fn scan_row(map: &Vec<Vec<Option<Tile>>>, row: usize, lo: usize, hi: usize, out: &mut Vec<(usize, usize)>)
    requires
        is_square(map@),
        row < map@.len(),
        hi <= map@.len(),
    ensures
        final(out)@ == old(out)@ + row_hits(map@, row, lo, hi as int),
{
    let mut col = lo;
    proof {
        reveal(row_hits);
    }
    while col < hi
        invariant
            is_square(map@),
            row < map@.len(),
            hi <= map@.len(),
            lo <= col,
            col <= hi || col == lo,
            out@ == old(out)@ + row_hits(map@, row, lo, col as int),
        decreases hi - col,
    {
        let hit = street_hit_at(map, (row, col));
        match hit {
            Some(v) => out.push(v),
            None => {},
        }
        proof {
            reveal(row_hits);
            assert(row_hits(map@, row, lo, col + 1) == row_hits(map@, row, lo, col as int)
                + opt_seq(street_hit(map@, (row, col))));
        }
        col = col + 1;
    }
}

#[verifier::rlimit(30)]
fn scan_ring(map: &Vec<Vec<Option<Tile>>>, pos: (usize, usize), i: usize, out: &mut Vec<(usize, usize)>)
    requires
        is_square(map@),
        in_grid(pos, map@.len() as int),
        i < map@.len(),
    ensures
        final(out)@ == old(out)@ + ring_hits(map@, pos, i),
{
    let size = map.len();
    let starting_row = if pos.0 >= i { pos.0 - i } else { pos.0 };
    let ending_row = if pos.0 < size - i { pos.0 + i } else { pos.0 };
    let starting_col = if pos.1 >= i { pos.1 - i } else { pos.1 };
    let ending_col = if pos.1 < size - i { pos.1 + i } else { pos.1 };
    assert(starting_row == ring_lo(pos.0, i) && ending_row == ring_hi(pos.0, i, size));
    assert(starting_col == ring_lo(pos.1, i) && ending_col == ring_hi(pos.1, i, size));
    let ghost start = out@;
    let ghost m = map@;
    let ghost left = column_hits(m, starting_col, starting_row, ending_row as int);
    let ghost right = column_hits(m, ending_col, starting_row, ending_row as int);
    let ghost top = row_hits(m, starting_row, starting_col, ending_col as int);
    let ghost bottom = row_hits(m, ending_row, starting_col, ending_col as int);
    assert(ring_hits(m, pos, i) == left + right + top + bottom) by {
        reveal(ring_hits);
    }
    scan_column(map, starting_col, starting_row, ending_row, out);
    scan_column(map, ending_col, starting_row, ending_row, out);
    scan_row(map, starting_row, starting_col, ending_col, out);
    scan_row(map, ending_row, starting_col, ending_col, out);
    proof {
        assert(out@ =~= start + (left + right + top + bottom));
    }
}

/// Scans rings of growing distance around the robot for street tiles and
/// collects, for each, the dry tile beside it: the places where a street can be
/// left, nearest rings first.
pub fn reach_end_street(map: &Vec<Vec<Option<Tile>>>, pos: (usize, usize)) -> (r: Vec<(usize, usize)>)
    requires
        is_square(map@),
        in_grid(pos, map@.len() as int),
    ensures
        r@ == rings_hits(map@, pos, map@.len() as usize),
        forall|k: int| 0 <= k < r@.len() ==> is_street_exit(map@, #[trigger] r@[k]),
{
    let size = map.len();
    let mut out: Vec<(usize, usize)> = Vec::new();
    let mut i: usize = 1;
    while i < size
        invariant
            size == map@.len(),
            is_square(map@),
            in_grid(pos, size as int),
            1 <= i,
            i <= size || size == 0,
            out@ == rings_hits(map@, pos, i),
        decreases size - i,
    {
        scan_ring(map, pos, i, &mut out);
        i = i + 1;
    }
    proof {
        lemma_rings_exits(map@, pos, size);
    }
    out
}


/// Coordinates small enough for squared distances to be computed exactly.
pub open spec fn small(p: (usize, usize)) -> bool {
    p.0 <= u32::MAX && p.1 <= u32::MAX
}

/// Squared Euclidean distance between two cells.
pub open spec fn dist_sq(a: (usize, usize), b: (usize, usize)) -> int {
    (a.0 - b.0) * (a.0 - b.0) + (a.1 - b.1) * (a.1 - b.1)
}

fn diff_sq(a: usize, b: usize) -> (r: u128)
    requires
        a <= u32::MAX,
        b <= u32::MAX,
    ensures
        r == (a - b) * (a - b),
        r <= u64::MAX,
{
    let d: u64 = if a >= b { (a - b) as u64 } else { (b - a) as u64 };
    assert(d <= u32::MAX);
    assert(d * d <= (u32::MAX as int) * (u32::MAX as int)) by (nonlinear_arith)
        requires
            d <= u32::MAX,
    ;
    assert((a - b) * (a - b) == d * d) by (nonlinear_arith)
        requires
            d == a - b || d == b - a,
    ;
    (d as u128) * (d as u128)
}

/// Squared Euclidean distance between two cells.
pub fn distance_sq(a: (usize, usize), b: (usize, usize)) -> (r: u128)
    requires
        small(a),
        small(b),
    ensures
        r == dist_sq(a, b),
{
    diff_sq(a.0, b.0) + diff_sq(a.1, b.1)
}

/// Index of the first of `coords` nearest to `from`, if there is any.
pub fn nearest_index(coords: &Vec<(usize, usize)>, from: (usize, usize)) -> (r: Option<usize>)
    requires
        small(from),
        forall|i: int| 0 <= i < coords@.len() ==> small(#[trigger] coords@[i]),
    ensures
        r is None <==> coords@.len() == 0,
        r matches Some(k) ==> {
            &&& k < coords@.len()
            &&& forall|j: int| 0 <= j < coords@.len() ==> dist_sq(from, coords@[k as int]) <= dist_sq(from, #[trigger] coords@[j])
            &&& forall|j: int| 0 <= j < k ==> dist_sq(from, coords@[k as int]) < dist_sq(from, #[trigger] coords@[j])
        },
{
    if coords.len() == 0 {
        return None;
    }
    let mut best: usize = 0;
    let mut best_d = distance_sq(from, coords[0]);
    let mut i: usize = 1;
    while i < coords.len()
        invariant
            small(from),
            forall|i: int| 0 <= i < coords@.len() ==> small(#[trigger] coords@[i]),
            1 <= i <= coords@.len(),
            best < i,
            best_d == dist_sq(from, coords@[best as int]),
            forall|j: int| 0 <= j < i ==> best_d <= dist_sq(from, #[trigger] coords@[j]),
            forall|j: int| 0 <= j < best ==> best_d < dist_sq(from, #[trigger] coords@[j]),
        decreases coords@.len() - i,
    {
        let d = distance_sq(from, coords[i]);
        if d < best_d {
            best = i;
            best_d = d;
        }
        i = i + 1;
    }
    Some(best)
}

/// Index of the first of the found cells farthest from `from`, if any was found.
pub fn farthest_index(found: &Vec<Option<(usize, usize)>>, from: (usize, usize)) -> (r: Option<usize>)
    requires
        small(from),
        forall|i: int| 0 <= i < found@.len() && (#[trigger] found@[i]) is Some ==> small(found@[i]->Some_0),
    ensures
        r is None <==> forall|j: int| 0 <= j < found@.len() ==> (#[trigger] found@[j]) is None,
        r matches Some(k) ==> {
            &&& k < found@.len()
            &&& found@[k as int] is Some
            &&& forall|j: int| 0 <= j < found@.len() && (#[trigger] found@[j]) is Some
                ==> dist_sq(from, found@[j]->Some_0) <= dist_sq(from, found@[k as int]->Some_0)
            &&& forall|j: int| 0 <= j < k && (#[trigger] found@[j]) is Some
                ==> dist_sq(from, found@[j]->Some_0) < dist_sq(from, found@[k as int]->Some_0)
        },
{
    let mut best: Option<usize> = None;
    let mut best_d: u128 = 0;
    let mut i: usize = 0;
    while i < found.len()
        invariant
            small(from),
            forall|i: int| 0 <= i < found@.len() && (#[trigger] found@[i]) is Some ==> small(found@[i]->Some_0),
            0 <= i <= found@.len(),
            best is None <==> forall|j: int| 0 <= j < i ==> (#[trigger] found@[j]) is None,
            best matches Some(k) ==> {
                &&& k < i
                &&& found@[k as int] is Some
                &&& best_d == dist_sq(from, found@[k as int]->Some_0)
                &&& forall|j: int| 0 <= j < i && (#[trigger] found@[j]) is Some
                    ==> dist_sq(from, found@[j]->Some_0) <= best_d
                &&& forall|j: int| 0 <= j < k && (#[trigger] found@[j]) is Some
                    ==> dist_sq(from, found@[j]->Some_0) < best_d
            },
        decreases found@.len() - i,
    {
        match found[i] {
            Some(p) => {
                let d = distance_sq(from, p);
                match best {
                    None => {
                        best = Some(i);
                        best_d = d;
                    },
                    Some(_) => {
                        if d > best_d {
                            best = Some(i);
                            best_d = d;
                        }
                    },
                }
            },
            None => {},
        }
        i = i + 1;
    }
    best
}

/// The cell has an undiscovered neighbour in some direction.
pub open spec fn on_frontier(map: Seq<Vec<Option<Tile>>>, p: (usize, usize)) -> bool {
    exists|d: Direction| cell(map, #[trigger] shifted(p, d, map.len() as usize)) is None
}

/// The direction that a draw from `0 .. 4` stands for.
pub open spec fn direction_at(i: usize) -> Direction {
    if i == 0 {
        Direction::Up
    } else if i == 1 {
        Direction::Down
    } else if i == 2 {
        Direction::Left
    } else {
        Direction::Right
    }
}

/// The direction that a draw from `0 .. 4` stands for: up, down, left, right.
pub fn direction_of(i: usize) -> (d: Direction)
    requires
        i < 4,
    ensures
        d == direction_at(i),
{
    if i == 0 {
        Direction::Up
    } else if i == 1 {
        Direction::Down
    } else if i == 2 {
        Direction::Left
    } else {
        Direction::Right
    }
}

/// All four cells around `p` are undiscovered.
pub open spec fn surrounded_by_unknown(map: Seq<Vec<Option<Tile>>>, p: (usize, usize)) -> bool {
    forall|d: Direction| cell(map, #[trigger] shifted(p, d, map.len() as usize)) is None
}

/// One step of the random walk in direction `dir`: `Ok` with the next cell
/// where it is known, `Err` with the current cell where the next one is
/// undiscovered (the walk ends there).
pub fn walk_step(map: &Vec<Vec<Option<Tile>>>, pos: (usize, usize), dir: Direction) -> (r: Result<
    (usize, usize),
    (usize, usize),
>)
    requires
        is_square(map@),
        in_grid(pos, map@.len() as int),
    ensures
        cell(map@, shifted(pos, dir, map@.len() as usize)) is None ==> r == Err::<(usize, usize), (usize, usize)>(
            pos,
        ),
        cell(map@, shifted(pos, dir, map@.len() as usize)) is Some ==> r == Ok::<(usize, usize), (usize, usize)>(
            shifted(pos, dir, map@.len() as usize),
        ),
{
    let next = match_coordinates(pos, dir, map.len());
    let row = &map[next.0];
    if row[next.1].is_none() {
        Err(pos)
    } else {
        Ok(next)
    }
}

/// Walks at random over the known grid from `robot_pos`, for at most as many
/// steps as the grid has cells, until the next step would enter an undiscovered
/// cell; returns the cell reached just before it. Where every neighbour of the
/// start is undiscovered, the first step ends the walk at the start.
pub fn find_unknown(robot_pos: (usize, usize), map: &Vec<Vec<Option<Tile>>>) -> (r: Option<(usize, usize)>)
    requires
        is_square(map@),
        in_grid(robot_pos, map@.len() as int),
        map@.len() * map@.len() <= usize::MAX,
    ensures
        surrounded_by_unknown(map@, robot_pos) ==> r == Some(robot_pos),
        r matches Some(p) ==> {
            &&& in_grid(p, map@.len() as int)
            &&& p == robot_pos || cell(map@, p) is Some
            &&& on_frontier(map@, p)
        },
{
    let size = map.len();
    let mut pos = robot_pos;
    let mut budget: usize = size * size;
    assert(budget > 0) by (nonlinear_arith)
        requires
            budget == size * size,
            size > 0,
    ;
    while budget > 0
        invariant
            size == map@.len(),
            is_square(map@),
            in_grid(pos, size as int),
            pos == robot_pos || cell(map@, pos) is Some,
            surrounded_by_unknown(map@, robot_pos) ==> pos == robot_pos && budget > 0,
        decreases budget,
    {
        let dir = direction_of(random_below(4));
        match walk_step(map, pos, dir) {
            Err(at) => {
                assert(cell(map@, shifted(pos, dir, size)) is None);
                return Some(at);
            },
            Ok(next) => {
                assert(cell(map@, shifted(pos, dir, size)) is Some);
                pos = next;
            },
        }
        budget = budget - 1;
    }
    None
}

/// The first tile that any of `maps` shows at `(x, y)`, earliest map first.
pub open spec fn first_known(maps: Seq<Vec<Vec<Option<Tile>>>>, x: int, y: int) -> Option<Tile>
    decreases maps.len(),
{
    if maps.len() == 0 {
        None
    } else if first_known(maps.drop_last(), x, y) is Some {
        first_known(maps.drop_last(), x, y)
    } else {
        maps.last()@[x]@[y]
    }
}

/// Every map covers the `size` by `size` square.
pub open spec fn covers(maps: Seq<Vec<Vec<Option<Tile>>>>, size: int) -> bool {
    &&& forall|k: int| 0 <= k < maps.len() ==> (#[trigger] maps[k])@.len() >= size
    &&& forall|k: int, x: int| 0 <= k < maps.len() && 0 <= x < size ==> (#[trigger] maps[k]@[x])@.len() >= size
}

fn first_seen(maps: &Vec<Vec<Vec<Option<Tile>>>>, x: usize, y: usize, size: usize) -> (r: Option<Tile>)
    requires
        covers(maps@, size as int),
        x < size,
        y < size,
    ensures
        r == first_known(maps@, x as int, y as int),
{
    let mut found: Option<Tile> = None;
    let mut k: usize = 0;
    while k < maps.len()
        invariant
            covers(maps@, size as int),
            x < size,
            y < size,
            0 <= k <= maps@.len(),
            found == first_known(maps@.subrange(0, k as int), x as int, y as int),
        decreases maps@.len() - k,
    {
        proof {
            assert(maps@.subrange(0, k + 1).drop_last() =~= maps@.subrange(0, k as int));
            assert(maps@[k as int]@.len() >= size && maps@[k as int]@[x as int]@.len() >= size);
        }
        if found.is_none() {
            let map = &maps[k];
            let row = &map[x];
            found = row[y];
        }
        k = k + 1;
    }
    proof {
        assert(maps@.subrange(0, maps@.len() as int) =~= maps@);
    }
    found
}

/// Merges the snapshots of the known grid taken over a run: each cell shows
/// the first tile any snapshot knew there.
pub fn combine_maps(maps: &Vec<Vec<Vec<Option<Tile>>>>, size: usize) -> (r: Vec<Vec<Option<Tile>>>)
    requires
        covers(maps@, size as int),
    ensures
        r@.len() == size,
        forall|x: int| 0 <= x < size ==> (#[trigger] r@[x])@.len() == size,
        forall|x: int, y: int| 0 <= x < size && 0 <= y < size ==> (#[trigger] r@[x]@[y]) == first_known(maps@, x, y),
{
    let mut out: Vec<Vec<Option<Tile>>> = Vec::new();
    let mut x: usize = 0;
    while x < size
        invariant
            covers(maps@, size as int),
            x <= size,
            out@.len() == x,
            forall|a: int| 0 <= a < x ==> (#[trigger] out@[a])@.len() == size,
            forall|a: int, b: int| 0 <= a < x && 0 <= b < size ==> (#[trigger] out@[a]@[b]) == first_known(maps@, a, b),
        decreases size - x,
    {
        let mut row: Vec<Option<Tile>> = Vec::new();
        let mut y: usize = 0;
        while y < size
            invariant
                covers(maps@, size as int),
                x < size,
                y <= size,
                row@.len() == y,
                forall|b: int| 0 <= b < y ==> (#[trigger] row@[b]) == first_known(maps@, x as int, b),
            decreases size - y,
        {
            row.push(first_seen(maps, x, y, size));
            y = y + 1;
        }
        out.push(row);
        x = x + 1;
    }
    out
}

} // verus!
