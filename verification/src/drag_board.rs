//! The two-column drag board: which column each card sits in, and what a
//! drop does.

use vstd::prelude::*;

verus! {

#[derive(Debug, Clone, Copy, PartialEq, Eq, Structural)]
pub enum DragBoardRegion {
    Left,
    Right,
}

impl Default for DragBoardRegion {
    fn default() -> (r: Self)
        ensures
            r == DragBoardRegion::Left,
    {
        DragBoardRegion::Left
    }
}

/// The number of cards in `region`.
pub fn region_item_count(current_regions: &[DragBoardRegion], region: DragBoardRegion) -> (r: usize)
    ensures
        r == cards_in(current_regions@, region),
{
    let mut count: usize = 0;
    let mut i: usize = 0;
    while i < current_regions.len()
        invariant
            i <= current_regions@.len(),
            count == cards_in(current_regions@.subrange(0, i as int), region),
            count <= i,
        decreases current_regions@.len() - i,
    {
        if current_regions[i] == region {
            count += 1;
        }
        proof {
            reveal(Seq::filter);
            assert(current_regions@.subrange(0, i + 1).drop_last() =~= current_regions@.subrange(0, i as int));
        }
        i += 1;
    }
    assert(current_regions@.subrange(0, current_regions@.len() as int) =~= current_regions@);
    count
}

/// A card dropped on `region`: where it came from the other column and it
/// exists, it moves to `region` and the board reports a change; otherwise
/// nothing changes.
pub fn apply_drag_board_drop(
    current_regions: &mut [DragBoardRegion],
    item_index: usize,
    source: DragBoardRegion,
    region: DragBoardRegion,
) -> (r: bool)
    ensures
        r == (source != region && item_index < old(current_regions)@.len()),
        r ==> final(current_regions)@ == old(current_regions)@.update(item_index as int, region),
        !r ==> final(current_regions)@ == old(current_regions)@,
{
    if source != region && item_index < current_regions.len() {
        current_regions[item_index] = region;
        true
    } else {
        false
    }
}

/// A card being dragged: the board it belongs to (by the value of the board's
/// id), its position among the board's cards, and the column it left.
#[derive(Debug, Clone, Copy, PartialEq, Eq, Structural)]
pub struct DragBoardPayload {
    pub board_id: u64,
    pub item_index: usize,
    pub source: DragBoardRegion,
}

/// Whether `region` of board `board_id` shows that it accepts the card
/// hovering it: only a card of the same board, coming from the other column.
pub fn region_accepts_drop(board_id: u64, hovered: Option<DragBoardPayload>, region: DragBoardRegion) -> (r: bool)
    ensures
        r == (hovered is Some && hovered.unwrap().board_id == board_id && hovered.unwrap().source != region),
{
    match hovered {
        Some(p) => p.board_id == board_id && p.source != region,
        None => false,
    }
}

/// A card released over `region` of board `board_id`. A card of another board
/// is ignored; a card of this board moves as `apply_drag_board_drop` says.
/// Whether the board changed.
pub fn release_on_region(
    current_regions: &mut [DragBoardRegion],
    board_id: u64,
    released: Option<DragBoardPayload>,
    region: DragBoardRegion,
) -> (r: bool)
    ensures
        r == (released is Some && released.unwrap().board_id == board_id && released.unwrap().source != region
            && released.unwrap().item_index < old(current_regions)@.len()),
        r ==> final(current_regions)@ == old(current_regions)@.update(released.unwrap().item_index as int, region),
        !r ==> final(current_regions)@ == old(current_regions)@,
{
    match released {
        Some(p) => {
            if p.board_id == board_id {
                apply_drag_board_drop(current_regions, p.item_index, p.source, region)
            } else {
                false
            }
        },
        None => false,
    }
}

/// The number of cards in `region` on a board whose columns are `s`.
pub open spec fn cards_in(s: Seq<DragBoardRegion>, region: DragBoardRegion) -> nat {
    s.filter(|v: DragBoardRegion| v == region).len()
}

/// Moving a card that is not yet in `region` into it adds one card to
/// `region` and takes one from the other column.
pub proof fn lemma_drop_moves_one_card(s: Seq<DragBoardRegion>, item_index: int, region: DragBoardRegion)
    requires
        0 <= item_index < s.len(),
        s[item_index] != region,
    ensures
        cards_in(s.update(item_index, region), region) == cards_in(s, region) + 1,
        cards_in(s.update(item_index, region), s[item_index]) + 1 == cards_in(s, s[item_index]),
    decreases s.len(),
{
    reveal(Seq::filter);
    let t = s.update(item_index, region);
    if item_index < s.len() - 1 {
        assert(t.drop_last() =~= s.drop_last().update(item_index, region));
        lemma_drop_moves_one_card(s.drop_last(), item_index, region);
    } else {
        assert(t.drop_last() =~= s.drop_last());
    }
}

/// Every card is in exactly one of the two columns.
pub proof fn lemma_columns_partition(s: Seq<DragBoardRegion>)
    ensures
        s.filter(|v: DragBoardRegion| v == DragBoardRegion::Left).len()
            + s.filter(|v: DragBoardRegion| v == DragBoardRegion::Right).len() == s.len(),
    decreases s.len(),
{
    reveal(Seq::filter);
    if s.len() > 0 {
        lemma_columns_partition(s.drop_last());
    }
}

} // verus!
