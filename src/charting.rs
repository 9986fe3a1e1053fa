use vstd::prelude::*;

use crate::grid::{cell, is_square};
use crate::world::{Content, ContentKind, Tile};

verus! {

/// A change to the index of known content locations.
#[derive(Clone, Copy, Debug)]
pub enum ChartUpdate {
    /// Record the content found at a coordinate, replacing what was there.
    Save(Content, (usize, usize)),
    /// Forget any content of this category at a coordinate.
    Remove(ContentKind, (usize, usize)),
}

/// The categories that the index keeps track of.
pub open spec fn is_charted(kind: ContentKind) -> bool {
    match kind {
        ContentKind::Bank | ContentKind::Market | ContentKind::Tree | ContentKind::Rock | ContentKind::Fish
        | ContentKind::Coin | ContentKind::Garbage => true,
        _ => false,
    }
}

/// Updates for one cell: a known charted content that is not used up is saved
/// afresh, a used-up one is forgotten.
pub open spec fn cell_updates(t: Option<Tile>, p: (usize, usize)) -> Seq<ChartUpdate> {
    match t {
        Some(tile) => if !is_charted(tile.content.kind) {
            Seq::empty()
        } else if tile.content.amount > 0 {
            seq![ChartUpdate::Remove(tile.content.kind, p), ChartUpdate::Save(tile.content, p)]
        } else {
            seq![ChartUpdate::Remove(tile.content.kind, p)]
        },
        None => Seq::empty(),
    }
}

/// Updates for the cells `(i, 0) .. (i, j - 1)`.
pub open spec fn row_updates(map: Seq<Vec<Option<Tile>>>, i: usize, j: int) -> Seq<ChartUpdate>
    decreases j,
{
    if j <= 0 {
        Seq::empty()
    } else {
        row_updates(map, i, j - 1) + cell_updates(cell(map, (i, (j - 1) as usize)), (i, (j - 1) as usize))
    }
}

/// Updates for the rows `0 .. i - 1`, row by row.
pub open spec fn grid_updates(map: Seq<Vec<Option<Tile>>>, i: int) -> Seq<ChartUpdate>
    decreases i,
{
    if i <= 0 {
        Seq::empty()
    } else {
        grid_updates(map, i - 1) + row_updates(map, (i - 1) as usize, map.len() as int)
    }
}

fn push_cell_updates(t: &Option<Tile>, p: (usize, usize), out: &mut Vec<ChartUpdate>)
    ensures
        final(out)@ == old(out)@ + cell_updates(*t, p),
{
    match t {
        Some(tile) => {
            let kind = tile.content.kind;
            match kind {
                ContentKind::Bank | ContentKind::Market | ContentKind::Tree | ContentKind::Rock
                | ContentKind::Fish | ContentKind::Coin | ContentKind::Garbage => {
                    out.push(ChartUpdate::Remove(kind, p));
                    if tile.content.amount > 0 {
                        out.push(ChartUpdate::Save(tile.content, p));
                    }
                },
                _ => {},
            }
        },
        None => {},
    }
    proof {
        assert(final(out)@ =~= old(out)@ + cell_updates(*t, p));
    }
}

/// The changes that bring the index of known content in line with the known
/// grid, cell by cell in row-major order.
pub fn update_map(map: &Vec<Vec<Option<Tile>>>) -> (r: Vec<ChartUpdate>)
    requires
        is_square(map@),
    ensures
        r@ == grid_updates(map@, map@.len() as int),
{
    let n = map.len();
    let mut out: Vec<ChartUpdate> = Vec::new();
    let mut i: usize = 0;
    while i < n
        invariant
            n == map@.len(),
            is_square(map@),
            0 <= i <= n,
            out@ == grid_updates(map@, i as int),
        decreases n - i,
    {
        let row = &map[i];
        let ghost start = out@;
        let mut j: usize = 0;
        while j < n
            invariant
                n == map@.len(),
                is_square(map@),
                0 <= i < n,
                0 <= j <= n,
                row@ == map@[i as int]@,
                out@ == start + row_updates(map@, i, j as int),
            decreases n - j,
        {
            assert(row@.len() == n);
            let ghost before = out@;
            push_cell_updates(&row[j], (i, j), &mut out);
            proof {
                assert(row@[j as int] == cell(map@, (i, j)));
                assert(out@ =~= start + row_updates(map@, i, j + 1));
            }
            j = j + 1;
        }
        proof {
            assert(out@ =~= grid_updates(map@, i + 1));
        }
        i = i + 1;
    }
    out
}

} // verus!
