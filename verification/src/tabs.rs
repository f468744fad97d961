//! Tab options and the selection rules of the tab strips.

use vstd::prelude::*;
use crate::common::CornerRadii;

verus! {

#[derive(Debug, Clone, Copy)]
pub struct TabOption<'a> {
    pub value: usize,
    pub label: &'a str,
    pub icon: Option<&'a str>,
}

impl<'a> TabOption<'a> {
    pub fn new(value: usize, label: &'a str) -> (r: Self)
        ensures
            r == (TabOption { value, label, icon: None }),
    {
        TabOption { value, label, icon: None }
    }

    pub fn with_icon(value: usize, label: &'a str, icon: &'a str) -> (r: Self)
        ensures
            r == (TabOption { value, label, icon: Some(icon) }),
    {
        TabOption { value, label, icon: Some(icon) }
    }
}

#[derive(Debug, Clone, Copy, PartialEq, Eq, Structural)]
pub enum TabsVariant {
    Underline,
    Segmented,
    BlenderTopbar,
}

impl Default for TabsVariant {
    fn default() -> (r: Self)
        ensures
            r == TabsVariant::Underline,
    {
        TabsVariant::Underline
    }
}

/// A selected position kept within `count` items: past the last one it
/// becomes the last one (0 where there are none).
pub fn clamp_to_last(current: usize, count: usize) -> (r: usize)
    ensures
        r == (if count == 0 {
            0
        } else if current < count {
            current
        } else {
            (count - 1) as usize
        }),
{
    let last = count.saturating_sub(1);
    if current < last {
        current
    } else {
        last
    }
}

/// A click on tab `value` of a strip whose tabs can all be off: it turns
/// off where it was on, and on (alone) otherwise.
pub fn toggle_optional_tab(current: Option<usize>, value: usize) -> (r: Option<usize>)
    ensures
        r == (if current == Some(value) {
            None
        } else {
            Some(value)
        }),
{
    match current {
        Some(c) => if c == value {
            None
        } else {
            Some(value)
        },
        None => Some(value),
    }
}

/// The rounding of a tab of the top-bar strip: only the top corners are
/// rounded, a little more on the selected tab (4 points) than on the others (3).
pub fn blender_topbar_corner_radius(selected: bool) -> (r: CornerRadii)
    ensures
        r == (CornerRadii {
            nw: if selected { 4u8 } else { 3u8 },
            ne: if selected { 4u8 } else { 3u8 },
            sw: 0,
            se: 0,
        }),
{
    let radius: u8 = if selected { 4 } else { 3 };
    CornerRadii { nw: radius, ne: radius, sw: 0, se: 0 }
}

} // verus!
