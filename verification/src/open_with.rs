//! The split "open with" button: which action its main segment runs and
//! which entry its menu marks as chosen.

use vstd::prelude::*;
use crate::dropdown_menu::{DropdownMenuAction, DropdownMenuEntry};

verus! {

/// The first action of `entries`, from position `i` on.
pub open spec fn first_action_from<'a>(entries: Seq<DropdownMenuEntry<'a>>, i: int) -> Option<DropdownMenuAction<'a>>
    decreases entries.len() - i,
{
    if i < 0 || i >= entries.len() {
        None
    } else {
        match entries[i] {
            DropdownMenuEntry::Action(action) => Some(action),
            _ => first_action_from(entries, i + 1),
        }
    }
}

/// The first action of `entries` with id `id`, from position `i` on.
pub open spec fn action_with_id_from<'a>(entries: Seq<DropdownMenuEntry<'a>>, id: usize, i: int) -> Option<DropdownMenuAction<'a>>
    decreases entries.len() - i,
{
    if i < 0 || i >= entries.len() {
        None
    } else {
        match entries[i] {
            DropdownMenuEntry::Action(action) => if action.id == id {
                Some(action)
            } else {
                action_with_id_from(entries, id, i + 1)
            },
            _ => action_with_id_from(entries, id, i + 1),
        }
    }
}

/// The action the main segment runs: the chosen one where it is among the
/// entries, else the first action.
pub open spec fn resolved_action<'a>(entries: Seq<DropdownMenuEntry<'a>>, selected: Option<usize>) -> Option<DropdownMenuAction<'a>> {
    match selected {
        Some(id) => match action_with_id_from(entries, id, 0) {
            Some(action) => Some(action),
            None => first_action_from(entries, 0),
        },
        None => first_action_from(entries, 0),
    }
}

pub fn first_open_with_action<'a>(entries: &'a [DropdownMenuEntry<'a>]) -> (r: Option<DropdownMenuAction<'a>>)
    ensures
        r == first_action_from(entries@, 0),
{
    let mut i: usize = 0;
    while i < entries.len()
        invariant
            i <= entries@.len(),
            first_action_from(entries@, 0) == first_action_from(entries@, i as int),
        decreases entries@.len() - i,
    {
        match entries[i] {
            DropdownMenuEntry::Action(action) => {
                return Some(action);
            },
            _ => {},
        }
        i += 1;
    }
    None
}

pub fn resolve_open_with_action<'a>(
    entries: &'a [DropdownMenuEntry<'a>],
    selected_action: Option<usize>,
) -> (r: Option<DropdownMenuAction<'a>>)
    ensures
        r == resolved_action(entries@, selected_action),
{
    if let Some(selected) = selected_action {
        let mut i: usize = 0;
        while i < entries.len()
            invariant
                i <= entries@.len(),
                selected_action == Some(selected),
                action_with_id_from(entries@, selected, 0) == action_with_id_from(entries@, selected, i as int),
            decreases entries@.len() - i,
        {
            match entries[i] {
                DropdownMenuEntry::Action(action) => {
                    if action.id == selected {
                        assert(action_with_id_from(entries@, selected, i as int) == Some(action));
                        return Some(action);
                    }
                },
                _ => {},
            }
            i += 1;
        }
    }
    first_open_with_action(entries)
}

/// `entry` with its action marked chosen exactly where its id is `selected`.
pub open spec fn marked_entry<'a>(entry: DropdownMenuEntry<'a>, selected: Option<usize>) -> DropdownMenuEntry<'a> {
    match entry {
        DropdownMenuEntry::Action(action) => DropdownMenuEntry::Action(
            DropdownMenuAction { selected: selected == Some(action.id), ..action },
        ),
        other => other,
    }
}

/// The entries of the menu, with the chosen action marked and every other
/// action unmarked.
pub fn selected_open_with_entries<'a>(
    entries: &'a [DropdownMenuEntry<'a>],
    selected_action_id: Option<usize>,
) -> (r: Vec<DropdownMenuEntry<'a>>)
    ensures
        r@ == entries@.map_values(|e: DropdownMenuEntry<'a>| marked_entry(e, selected_action_id)),
{
    let mut r: Vec<DropdownMenuEntry<'a>> = Vec::new();
    let mut i: usize = 0;
    while i < entries.len()
        invariant
            i <= entries@.len(),
            r@ == entries@.subrange(0, i as int).map_values(
                |e: DropdownMenuEntry<'a>| marked_entry(e, selected_action_id),
            ),
        decreases entries@.len() - i,
    {
        let entry = entries[i];
        let marked = match entry {
            DropdownMenuEntry::Action(action) => {
                let chosen = match selected_action_id {
                    Some(id) => id == action.id,
                    None => false,
                };
                DropdownMenuEntry::Action(action.selected(chosen))
            },
            other => other,
        };
        r.push(marked);
        assert(r@ =~= entries@.subrange(0, i + 1).map_values(
            |e: DropdownMenuEntry<'a>| marked_entry(e, selected_action_id),
        ));
        i += 1;
    }
    assert(entries@.subrange(0, entries@.len() as int) =~= entries@);
    r
}

/// The label of the main segment: that of the action it runs, or the
/// placeholder where there is no action.
pub fn open_with_label<'a>(
    entries: &'a [DropdownMenuEntry<'a>],
    selected_action: Option<usize>,
    placeholder: &'a str,
) -> (r: &'a str)
    ensures
        r == (match resolved_action(entries@, selected_action) {
            Some(action) => action.label,
            None => placeholder,
        }),
{
    match resolve_open_with_action(entries, selected_action) {
        Some(action) => action.label,
        None => placeholder,
    }
}

/// An action chosen in the menu becomes the chosen one. Whether the choice changed.
pub fn choose_open_with_action(selected_action: &mut Option<usize>, action_id: usize) -> (r: bool)
    ensures
        *final(selected_action) == Some(action_id),
        r == (*old(selected_action) != Some(action_id)),
{
    let changed = match *selected_action {
        Some(current) => current != action_id,
        None => true,
    };
    *selected_action = Some(action_id);
    changed
}

} // verus!
