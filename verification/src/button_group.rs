//! The segmented button group: how its segments are rounded and which
//! segment a frame's clicks pick.

use vstd::prelude::*;
use crate::common::CornerRadii;

verus! {

/// The rounding of segment `index` of `count` segments, `radius` being the
/// theme's medium radius: a lone segment is rounded all round, the first on
/// its left, the last on its right, and the ones between not at all.
pub fn button_group_segment_corners(count: usize, index: usize, radius: u8) -> (r: CornerRadii)
    requires
        index < count,
    ensures
        r == (if count == 1 {
            CornerRadii { nw: radius, ne: radius, sw: radius, se: radius }
        } else if index == 0 {
            CornerRadii { nw: radius, ne: 0, sw: radius, se: 0 }
        } else if index == count - 1 {
            CornerRadii { nw: 0, ne: radius, sw: 0, se: radius }
        } else {
            CornerRadii { nw: 0, ne: 0, sw: 0, se: 0 }
        }),
{
    if count == 1 {
        CornerRadii::same(radius)
    } else if index == 0 {
        CornerRadii { nw: radius, ne: 0, sw: radius, se: 0 }
    } else if index == count - 1 {
        CornerRadii { nw: 0, ne: radius, sw: 0, se: radius }
    } else {
        CornerRadii::zero()
    }
}

/// The last index `i` below `i_end` at which `clicks` holds, if any.
pub open spec fn last_clicked(clicks: Seq<bool>, i_end: int) -> Option<usize>
    decreases i_end,
{
    if i_end <= 0 {
        None
    } else if clicks[i_end - 1] {
        Some((i_end - 1) as usize)
    } else {
        last_clicked(clicks, i_end - 1)
    }
}

/// The segment a frame's clicks pick (`clicks[i]` tells whether segment `i`
/// was clicked): the last one clicked, or none, as for a group without
/// segments.
pub fn button_group_clicked_index(clicks: &[bool]) -> (r: Option<usize>)
    ensures
        r == last_clicked(clicks@, clicks@.len() as int),
        r matches Some(i) ==> i < clicks@.len() && clicks@[i as int],
{
    let mut clicked: Option<usize> = None;
    let mut i: usize = 0;
    while i < clicks.len()
        invariant
            i <= clicks@.len(),
            clicked == last_clicked(clicks@, i as int),
            clicked matches Some(k) ==> k < i && clicks@[k as int],
        decreases clicks@.len() - i,
    {
        if clicks[i] {
            clicked = Some(i);
        }
        i += 1;
    }
    clicked
}

} // verus!
