//! The palette colour picker: which swatch shows as the current colour, and
//! what picking a swatch does.

use vstd::prelude::*;
use crate::collab_cursor::Rgba8;

verus! {

/// The first swatch of `palette` that is the colour `value`, if any.
pub open spec fn first_swatch_of(palette: Seq<Rgba8>, value: Rgba8, i: int) -> Option<usize>
    decreases palette.len() - i,
{
    if i < 0 || i >= palette.len() {
        None
    } else if palette[i] == value {
        Some(i as usize)
    } else {
        first_swatch_of(palette, value, i + 1)
    }
}

/// The swatch that shows as the current colour: the first one equal to it, or
/// none where the colour is not in the palette.
pub fn palette_selected_index(palette: &[Rgba8], value: Rgba8) -> (r: Option<usize>)
    ensures
        r == first_swatch_of(palette@, value, 0),
        r matches Some(i) ==> i < palette@.len() && palette@[i as int] == value,
{
    let mut i: usize = 0;
    while i < palette.len()
        invariant
            i <= palette@.len(),
            first_swatch_of(palette@, value, 0) == first_swatch_of(palette@, value, i as int),
            forall|k: int| 0 <= k < i ==> palette@[k] != value,
        decreases palette@.len() - i,
    {
        if palette[i] == value {
            return Some(i);
        }
        i += 1;
    }
    None
}

/// Picking a swatch: it becomes the colour, the change is reported and the
/// palette closes.
pub fn apply_palette_swatch_selection(value: &mut Rgba8, swatch: Rgba8, open: &mut bool, swatch_changed: &mut bool)
    ensures
        *final(value) == swatch,
        *final(swatch_changed),
        !*final(open),
{
    *value = swatch;
    *swatch_changed = true;
    *open = false;
}

} // verus!
