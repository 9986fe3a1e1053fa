use vstd::prelude::*;

use crate::states::States;
use crate::world::ContentKind;

verus! {

/// Total quantity of coins among `s`.
pub open spec fn coin_total(s: Seq<(ContentKind, usize)>) -> nat
    decreases s.len(),
{
    if s.len() == 0 {
        0
    } else {
        coin_total(s.drop_last()) + if s.last().0 == ContentKind::Coin { s.last().1 as nat } else { 0 }
    }
}

/// Total quantity of everything but coins among `s`.
pub open spec fn item_total(s: Seq<(ContentKind, usize)>) -> nat
    decreases s.len(),
{
    if s.len() == 0 {
        0
    } else {
        item_total(s.drop_last()) + if s.last().0 != ContentKind::Coin { s.last().1 as nat } else { 0 }
    }
}

/// Total quantity held in `s`.
pub open spec fn held_total(s: Seq<(ContentKind, usize)>) -> nat {
    coin_total(s) + item_total(s)
}

/// Quantity of `kind` among `s`.
pub open spec fn quantity_of(s: Seq<(ContentKind, usize)>, kind: ContentKind) -> nat
    decreases s.len(),
{
    if s.len() == 0 {
        0
    } else {
        quantity_of(s.drop_last(), kind) + if s.last().0 == kind { s.last().1 as nat } else { 0 }
    }
}

proof fn lemma_totals_monotone(s: Seq<(ContentKind, usize)>, i: int)
    requires
        0 <= i <= s.len(),
    ensures
        coin_total(s.subrange(0, i)) <= coin_total(s),
        item_total(s.subrange(0, i)) <= item_total(s),
    decreases s.len(),
{
    if i < s.len() {
        assert(s.drop_last().subrange(0, i) =~= s.subrange(0, i));
        lemma_totals_monotone(s.drop_last(), i);
    } else {
        assert(s.subrange(0, i) =~= s);
    }
}

proof fn lemma_quantity_le_held(s: Seq<(ContentKind, usize)>, kind: ContentKind)
    ensures
        quantity_of(s, kind) <= held_total(s),
    decreases s.len(),
{
    if s.len() > 0 {
        lemma_quantity_le_held(s.drop_last(), kind);
    }
}

proof fn lemma_quantity_prefix(s: Seq<(ContentKind, usize)>, i: int, kind: ContentKind)
    requires
        0 <= i <= s.len(),
    ensures
        quantity_of(s.subrange(0, i), kind) <= quantity_of(s, kind),
    decreases s.len(),
{
    if i < s.len() {
        assert(s.drop_last().subrange(0, i) =~= s.subrange(0, i));
        lemma_quantity_prefix(s.drop_last(), i, kind);
    } else {
        assert(s.subrange(0, i) =~= s);
    }
}

/// The robot's bounded inventory: its capacity and the quantity held of each
/// content category.
#[derive(Clone, Debug)]
pub struct Backpack {
    pub size: usize,
    pub contents: Vec<(ContentKind, usize)>,
}

impl Backpack {
    /// The backpack never holds more than its capacity.
    pub open spec fn wf(&self) -> bool {
        held_total(self.contents@) <= self.size
    }

    pub open spec fn coins(&self) -> nat {
        coin_total(self.contents@)
    }

    pub open spec fn items(&self) -> nat {
        item_total(self.contents@)
    }

    pub open spec fn is_full(&self) -> bool {
        held_total(self.contents@) == self.size
    }
}

/// The backpack-full state: coins when they are at least as many as all other
/// items together, items otherwise.
pub open spec fn full_state(coins: nat, items: nat) -> States {
    if coins >= items {
        States::BackpackFullCoins
    } else {
        States::BackpackFullItems
    }
}

/// Sums the coins and the other items that `backpack` holds.
pub fn count_coins_and_items(backpack: &Backpack) -> (r: (usize, usize))
    requires
        backpack.wf(),
    ensures
        r.0 == backpack.coins(),
        r.1 == backpack.items(),
{
    let mut coins: usize = 0;
    let mut items: usize = 0;
    let mut i: usize = 0;
    let n = backpack.contents.len();
    while i < n
        invariant
            n == backpack.contents.len(),
            0 <= i <= n,
            backpack.wf(),
            coins == coin_total(backpack.contents@.subrange(0, i as int)),
            items == item_total(backpack.contents@.subrange(0, i as int)),
        decreases n - i,
    {
        let entry = backpack.contents[i];
        proof {
            let s = backpack.contents@;
            assert(s.subrange(0, i + 1).drop_last() =~= s.subrange(0, i as int));
            lemma_totals_monotone(s, i + 1);
        }
        if entry.0 == ContentKind::Coin {
            coins = coins + entry.1;
        } else {
            items = items + entry.1;
        }
        i = i + 1;
    }
    proof {
        assert(backpack.contents@.subrange(0, n as int) =~= backpack.contents@);
    }
    (coins, items)
}

/// Classifies a full backpack by which of coins or other items dominate it
/// (a tie counts as coins).
pub fn check_backpack(backpack: &Backpack) -> (r: States)
    requires
        backpack.wf(),
    ensures
        r == full_state(backpack.coins(), backpack.items()),
{
    let (coins, items) = count_coins_and_items(backpack);
    if coins >= items {
        States::BackpackFullCoins
    } else {
        States::BackpackFullItems
    }
}

/// How much of `kind` the backpack holds.
pub fn quantity(backpack: &Backpack, kind: ContentKind) -> (r: usize)
    requires
        backpack.wf(),
    ensures
        r == quantity_of(backpack.contents@, kind),
{
    let mut total: usize = 0;
    let mut i: usize = 0;
    let n = backpack.contents.len();
    while i < n
        invariant
            n == backpack.contents.len(),
            0 <= i <= n,
            backpack.wf(),
            total == quantity_of(backpack.contents@.subrange(0, i as int), kind),
        decreases n - i,
    {
        let entry = backpack.contents[i];
        proof {
            let s = backpack.contents@;
            assert(s.subrange(0, i + 1).drop_last() =~= s.subrange(0, i as int));
            lemma_quantity_prefix(s, i + 1, kind);
            lemma_quantity_le_held(s, kind);
        }
        if entry.0 == kind {
            total = total + entry.1;
        }
        i = i + 1;
    }
    proof {
        assert(backpack.contents@.subrange(0, n as int) =~= backpack.contents@);
    }
    total
}

/// Whether the backpack has no free room left.
pub fn full(backpack: &Backpack) -> (r: bool)
    requires
        backpack.wf(),
    ensures
        r == backpack.is_full(),
{
    let (coins, items) = count_coins_and_items(backpack);
    backpack.size - coins - items == 0
}

} // verus!
