//! Which menu of a menu bar is open.

use vstd::prelude::*;

verus! {

#[derive(Debug, Clone, Copy, PartialEq, Eq, Structural)]
pub struct MenuBarState {
    pub action: Option<usize>,
    pub active_menu: Option<usize>,
}

impl Default for MenuBarState {
    fn default() -> (r: Self)
        ensures
            r == (MenuBarState { action: None, active_menu: None }),
    {
        MenuBarState { action: None, active_menu: None }
    }
}

/// Whether menu `index` exists and has entries.
pub open spec fn can_open(openable: Seq<bool>, index: usize) -> bool {
    index < openable.len() && openable[index as int]
}

/// The open menu after a frame: a click on a menu that can open toggles it
/// (closing it where it was the open one); else, while a menu is open,
/// hovering another one that can open switches to it; else nothing changes.
pub open spec fn next_active_menu(
    current: Option<usize>,
    clicked_trigger: Option<usize>,
    hovered_trigger: Option<usize>,
    openable: Seq<bool>,
) -> Option<usize> {
    if clicked_trigger is Some && can_open(openable, clicked_trigger->0) {
        if current == clicked_trigger {
            None
        } else {
            clicked_trigger
        }
    } else if current is Some && hovered_trigger is Some && can_open(openable, hovered_trigger->0) {
        hovered_trigger
    } else {
        current
    }
}

fn openable_at(openable: &[bool], index: usize) -> (r: bool)
    ensures
        r == can_open(openable@, index),
{
    index < openable.len() && openable[index]
}

pub fn resolve_active_menu(
    current: Option<usize>,
    clicked_trigger: Option<usize>,
    hovered_trigger: Option<usize>,
    openable: &[bool],
) -> (r: Option<usize>)
    ensures
        r == next_active_menu(current, clicked_trigger, hovered_trigger, openable@),
        r is None || r == current || can_open(openable@, r->0),
{
    if let Some(clicked) = clicked_trigger {
        if openable_at(openable, clicked) {
            let same = match current {
                Some(c) => c == clicked,
                None => false,
            };
            return if same {
                None
            } else {
                Some(clicked)
            };
        }
    }
    if current.is_some() {
        if let Some(hovered) = hovered_trigger {
            if openable_at(openable, hovered) {
                return Some(hovered);
            }
        }
    }
    current
}

/// The remembered open menu, dropped where it names no menu.
pub fn remembered_active_menu(active_menu: Option<usize>, item_count: usize) -> (r: Option<usize>)
    ensures
        r == (match active_menu {
            Some(i) => if i < item_count {
                Some(i)
            } else {
                None
            },
            None => None,
        }),
{
    match active_menu {
        Some(i) => if i < item_count {
            Some(i)
        } else {
            None
        },
        None => None,
    }
}

/// Whether the trigger of menu `index` shows as open: it is the open menu and
/// it can open.
pub fn menu_trigger_open(active_menu: Option<usize>, index: usize, openable: &[bool]) -> (r: bool)
    ensures
        r == (active_menu == Some(index) && can_open(openable@, index)),
{
    let active = match active_menu {
        Some(a) => a == index,
        None => false,
    };
    active && openable_at(openable, index)
}

/// The open menu at the end of a frame: its popup closing (or not showing),
/// an action chosen in it, or the Escape key close it.
pub fn settle_active_menu(
    active_menu: Option<usize>,
    popup_shown: bool,
    popup_still_open: bool,
    action_chosen: bool,
    escape_pressed: bool,
) -> (r: Option<usize>)
    ensures
        r == (if active_menu is Some && (!popup_shown || !popup_still_open || action_chosen) || escape_pressed {
            None
        } else {
            active_menu
        }),
{
    let mut active = active_menu;
    if active.is_some() && (!popup_shown || !popup_still_open || action_chosen) {
        active = None;
    }
    if escape_pressed {
        active = None;
    }
    active
}

/// Clicking the trigger of the open menu closes it, and clicking it again
/// opens it again.
pub proof fn lemma_click_toggles(current: usize, openable: Seq<bool>)
    requires
        can_open(openable, current),
    ensures
        next_active_menu(Some(current), Some(current), None, openable) == None::<usize>,
        next_active_menu(None, Some(current), None, openable) == Some(current),
{
}

/// What a click on a trigger does, whatever is hovered: a click on a menu
/// that exists and has entries opens it where another menu (or none) was open,
/// and closes it where it was the open one; a click on any other trigger, with
/// nothing hovered, leaves the open menu as it was.
pub proof fn lemma_click_opens_or_closes(
    current: Option<usize>,
    clicked: usize,
    hovered: Option<usize>,
    openable: Seq<bool>,
)
    ensures
        clicked < openable.len() && openable[clicked as int] && current != Some(clicked)
            ==> next_active_menu(current, Some(clicked), hovered, openable) == Some(clicked),
        clicked < openable.len() && openable[clicked as int] && current == Some(clicked)
            ==> next_active_menu(current, Some(clicked), hovered, openable) == None::<usize>,
        !(clicked < openable.len() && openable[clicked as int])
            ==> next_active_menu(current, Some(clicked), None, openable) == current,
{
}

/// What hovering does with no click: while a menu is open, hovering a trigger
/// whose menu exists and has entries switches to that menu; with no menu open,
/// or over a trigger that cannot open, the open menu stays.
pub proof fn lemma_hover_switches_open_menu(current: Option<usize>, hovered: usize, openable: Seq<bool>)
    ensures
        current is Some && hovered < openable.len() && openable[hovered as int]
            ==> next_active_menu(current, None, Some(hovered), openable) == Some(hovered),
        current is None ==> next_active_menu(current, None, Some(hovered), openable) == None::<usize>,
        !(hovered < openable.len() && openable[hovered as int])
            ==> next_active_menu(current, None, Some(hovered), openable) == current,
{
}

} // verus!
