//! The list of page buttons and ellipses that the pagination widget shows.

use vstd::prelude::*;

verus! {

#[derive(Debug, Clone, Copy, PartialEq, Eq, Structural)]
pub enum PaginationItem {
    Page(usize),
    Ellipsis,
}

pub open spec fn sat_add(a: int, b: int) -> int {
    if a + b > usize::MAX {
        usize::MAX as int
    } else {
        a + b
    }
}

pub open spec fn sat_sub(a: int, b: int) -> int {
    if a >= b {
        a - b
    } else {
        0
    }
}

pub open spec fn sat_double(a: int) -> int {
    if 2 * a > usize::MAX {
        usize::MAX as int
    } else {
        2 * a
    }
}

pub open spec fn min_int(a: int, b: int) -> int {
    if a <= b {
        a
    } else {
        b
    }
}

pub open spec fn max_int(a: int, b: int) -> int {
    if a >= b {
        a
    } else {
        b
    }
}

/// `Page(from)`, `Page(from + 1)`, ..., `Page(to)`; empty where `from > to`.
pub open spec fn page_run(from: int, to: int) -> Seq<PaginationItem> {
    Seq::new(
        if to >= from {
            (to - from + 1) as nat
        } else {
            0
        },
        |k: int| PaginationItem::Page((from + k) as usize),
    )
}

/// `current` clamped to `1..=page_count`.
pub open spec fn clamped_page(current: int, page_count: int) -> int {
    if current < 1 {
        1
    } else if current > page_count {
        page_count
    } else {
        current
    }
}

/// The items shown for page `current` of `page_count` with `sibling_count`
/// pages on each side of the current one: every page where they all fit in
/// `2 * sibling_count + 5` slots, else the first and last page, the window
/// around the current page, and an ellipsis for each gap of more than one page.
pub open spec fn pagination_spec(current: int, page_count: int, sibling_count: int) -> Seq<PaginationItem> {
    if page_count == 0 {
        Seq::empty()
    } else {
        let cur = clamped_page(current, page_count);
        let slots = sat_add(sat_double(sibling_count), 5);
        if page_count <= slots {
            page_run(1, page_count)
        } else {
            let left = max_int(sat_sub(cur, sibling_count), 1);
            let right = min_int(sat_add(cur, sibling_count), page_count);
            let show_left = left > 2;
            let show_right = right < sat_sub(page_count, 1);
            if !show_left && !show_right {
                page_run(1, page_count)
            } else if !show_left && show_right {
                let last_left = min_int(sat_add(sat_double(sibling_count), 2), sat_sub(page_count, 1));
                page_run(1, last_left) + seq![PaginationItem::Ellipsis, PaginationItem::Page(page_count as usize)]
            } else if show_left && !show_right {
                let start = max_int(sat_sub(page_count, sat_add(sat_double(sibling_count), 1)), 2);
                seq![PaginationItem::Page(1), PaginationItem::Ellipsis] + page_run(start, page_count)
            } else {
                seq![PaginationItem::Page(1), PaginationItem::Ellipsis] + page_run(left, right) + seq![
                    PaginationItem::Ellipsis,
                    PaginationItem::Page(page_count as usize),
                ]
            }
        }
    }
}

fn push_page_run(items: &mut Vec<PaginationItem>, from: usize, to: usize)
    requires
        1 <= from,
    ensures
        final(items)@ == old(items)@ + page_run(from as int, to as int),
{
    let mut page = from;
    let ghost start = old(items)@.len();
    if from > to {
        assert(page_run(from as int, to as int) =~= Seq::<PaginationItem>::empty());
        assert(items@ =~= old(items)@ + page_run(from as int, to as int));
        return;
    }
    while page <= to
        invariant
            from <= page,
            from <= to,
            page <= to + 1,
            items@ == old(items)@ + page_run(from as int, page as int - 1),
        decreases to + 1 - page,
    {
        items.push(PaginationItem::Page(page));
        assert(items@ =~= old(items)@ + page_run(from as int, page as int));
        if page == to {
            return;
        }
        page += 1;
    }
}

fn double_saturating(a: usize) -> (r: usize)
    ensures
        r == sat_double(a as int),
{
    if a <= usize::MAX / 2 {
        a * 2
    } else {
        usize::MAX
    }
}

/// The pages, and ellipses for skipped pages, that the pagination widget
/// shows for page `current_page` of `page_count`.
pub fn pagination_items(current_page: usize, page_count: usize, sibling_count: usize) -> (r: Vec<PaginationItem>)
    ensures
        r@ == pagination_spec(current_page as int, page_count as int, sibling_count as int),
{
    let mut items: Vec<PaginationItem> = Vec::new();
    if page_count == 0 {
        assert(items@ =~= pagination_spec(current_page as int, page_count as int, sibling_count as int));
        return items;
    }
    let current = if current_page < 1 {
        1
    } else if current_page > page_count {
        page_count
    } else {
        current_page
    };
    let doubled = double_saturating(sibling_count);
    let slots = doubled.saturating_add(5);
    if page_count <= slots {
        push_page_run(&mut items, 1, page_count);
        assert(items@ =~= pagination_spec(current_page as int, page_count as int, sibling_count as int));
        return items;
    }
    let left_raw = current.saturating_sub(sibling_count);
    let left = if left_raw > 1 {
        left_raw
    } else {
        1
    };
    let right_raw = current.saturating_add(sibling_count);
    let right = if right_raw < page_count {
        right_raw
    } else {
        page_count
    };
    let show_left = left > 2;
    let show_right = right < page_count.saturating_sub(1);
    if !show_left && !show_right {
        push_page_run(&mut items, 1, page_count);
    } else if !show_left && show_right {
        let a = doubled.saturating_add(2);
        let b = page_count.saturating_sub(1);
        let last_left = if a <= b {
            a
        } else {
            b
        };
        push_page_run(&mut items, 1, last_left);
        items.push(PaginationItem::Ellipsis);
        items.push(PaginationItem::Page(page_count));
    } else if show_left && !show_right {
        let a = page_count.saturating_sub(doubled.saturating_add(1));
        let start = if a >= 2 {
            a
        } else {
            2
        };
        items.push(PaginationItem::Page(1));
        items.push(PaginationItem::Ellipsis);
        push_page_run(&mut items, start, page_count);
    } else {
        items.push(PaginationItem::Page(1));
        items.push(PaginationItem::Ellipsis);
        push_page_run(&mut items, left, right);
        items.push(PaginationItem::Ellipsis);
        items.push(PaginationItem::Page(page_count));
    }
    assert(items@ =~= pagination_spec(current_page as int, page_count as int, sibling_count as int));
    items
}

/// The page that the widget shows as current: `current_page` clamped to the
/// pages there are (unchanged where there are none).
pub fn clamp_current_page(current_page: usize, page_count: usize) -> (r: usize)
    ensures
        page_count == 0 ==> r == current_page,
        page_count > 0 ==> r == clamped_page(current_page as int, page_count as int),
{
    if page_count == 0 {
        current_page
    } else if current_page < 1 {
        1
    } else if current_page > page_count {
        page_count
    } else {
        current_page
    }
}

/// Every page within `sibling_count` of the current page (the current page
/// taken within `1..=page_count`) is shown: no page next to the current one
/// hides behind an ellipsis.
pub proof fn lemma_pages_near_current_shown(current: int, page_count: int, sibling_count: int, page: int)
    requires
        0 <= current <= usize::MAX,
        1 <= page_count <= usize::MAX,
        0 <= sibling_count <= usize::MAX,
        1 <= page <= page_count,
        ({
            let cur = if current < 1 { 1 } else if current > page_count { page_count } else { current };
            cur - sibling_count <= page <= cur + sibling_count
        }),
    ensures
        exists|i: int|
            0 <= i < pagination_spec(current, page_count, sibling_count).len()
                && pagination_spec(current, page_count, sibling_count)[i] == PaginationItem::Page(page as usize),
{
    let items = pagination_spec(current, page_count, sibling_count);
    let cur = clamped_page(current, page_count);
    let slots = sat_add(sat_double(sibling_count), 5);
    let left = max_int(sat_sub(cur, sibling_count), 1);
    let right = min_int(sat_add(cur, sibling_count), page_count);
    let show_left = left > 2;
    let show_right = right < sat_sub(page_count, 1);
    if page_count <= slots || (!show_left && !show_right) {
        assert(items[page - 1] == PaginationItem::Page(page as usize));
    } else if !show_left && show_right {
        assert(items[page - 1] == PaginationItem::Page(page as usize));
    } else if show_left && !show_right {
        let start = max_int(sat_sub(page_count, sat_add(sat_double(sibling_count), 1)), 2);
        assert(items[page - start + 2] == PaginationItem::Page(page as usize));
    } else {
        assert(items[page - left + 2] == PaginationItem::Page(page as usize));
    }
}

/// Whether the "Previous" button shows: past the first page.
pub fn shows_previous(current_page: usize) -> (r: bool)
    ensures
        r == (current_page > 1),
{
    current_page > 1
}

/// Whether the "Next" button shows: before the last page.
pub fn shows_next(current_page: usize, page_count: usize) -> (r: bool)
    ensures
        r == (current_page < page_count),
{
    current_page < page_count
}

/// A click on the pagination bar.
#[derive(Debug, Clone, Copy, PartialEq, Eq, Structural)]
pub enum PaginationClick {
    Previous,
    Page(usize),
    Next,
}

/// The current page after a click: "Previous" and "Next" step one page (where
/// they show), and a page button goes to its page.
pub fn apply_pagination_click(current_page: usize, page_count: usize, click: PaginationClick) -> (r: usize)
    ensures
        r == (match click {
            PaginationClick::Previous => if current_page > 1 { (current_page - 1) as usize } else { current_page },
            PaginationClick::Page(p) => p,
            PaginationClick::Next => if current_page < page_count { (current_page + 1) as usize } else { current_page },
        }),
{
    match click {
        PaginationClick::Previous => if current_page > 1 { current_page - 1 } else { current_page },
        PaginationClick::Page(p) => p,
        PaginationClick::Next => if current_page < page_count { current_page + 1 } else { current_page },
    }
}

/// A click never leaves the pages there are: from a page in range, any click on
/// a button that shows (a page button carrying a page in range) lands in range.
pub proof fn lemma_click_stays_in_range(current_page: usize, page_count: usize, click: PaginationClick)
    requires
        1 <= current_page <= page_count,
        click matches PaginationClick::Page(p) ==> 1 <= p <= page_count,
    ensures
        ({
            let next = match click {
                PaginationClick::Previous => if current_page > 1 { current_page - 1 } else { current_page as int },
                PaginationClick::Page(p) => p as int,
                PaginationClick::Next => if current_page < page_count { current_page + 1 } else { current_page as int },
            };
            1 <= next <= page_count
        }),
{
}

/// The page numbers among `items`.
pub open spec fn is_page(item: PaginationItem, page: int) -> bool {
    item matches PaginationItem::Page(p) && p == page
}

/// Every page shown is a page there is, the first and the last page are
/// always shown, first and last, the current page is shown, and the pages
/// shown increase from left to right.
pub proof fn lemma_pagination_well_formed(current: int, page_count: int, sibling_count: int)
    requires
        0 <= current <= usize::MAX,
        1 <= page_count <= usize::MAX,
        0 <= sibling_count <= usize::MAX,
    ensures
        ({
            let items = pagination_spec(current, page_count, sibling_count);
            &&& items.len() >= 1
            &&& is_page(items[0], 1)
            &&& is_page(items[items.len() - 1], page_count)
            &&& forall|k: int|
                #![trigger items[k]]
                0 <= k < items.len() ==> (items[k] matches PaginationItem::Page(p) ==> 1 <= p
                    <= page_count)
            &&& exists|k: int| #![trigger items[k]] 0 <= k < items.len() && is_page(items[k], clamped_page(current, page_count))
            &&& forall|i: int, j: int|
                #![trigger items[i], items[j]]
                0 <= i < j < items.len() ==> (items[i] matches PaginationItem::Page(a) ==> (
                items[j] matches PaginationItem::Page(b) ==> a < b))
        }),
{
    let items = pagination_spec(current, page_count, sibling_count);
    let cur = clamped_page(current, page_count);
    let slots = sat_add(sat_double(sibling_count), 5);
    if page_count <= slots {
        assert(is_page(items[cur - 1], cur));
    } else {
        let left = max_int(sat_sub(cur, sibling_count), 1);
        let right = min_int(sat_add(cur, sibling_count), page_count);
        let show_left = left > 2;
        let show_right = right < sat_sub(page_count, 1);
        if !show_left && !show_right {
            assert(is_page(items[cur - 1], cur));
        } else if !show_left && show_right {
            assert(is_page(items[cur - 1], cur));
        } else if show_left && !show_right {
            let start = max_int(sat_sub(page_count, sat_add(sat_double(sibling_count), 1)), 2);
            assert(is_page(items[cur - start + 2], cur));
        } else {
            assert(is_page(items[cur - left + 2], cur));
        }
    }
}

} // verus!
