//! The options of a radio group and what a click on one does.

use vstd::prelude::*;

verus! {

#[derive(Debug, Clone, Copy)]
pub struct RadioOption<'a> {
    pub value: usize,
    pub label: &'a str,
    pub description: Option<&'a str>,
}

impl<'a> RadioOption<'a> {
    pub fn new(value: usize, label: &'a str) -> (r: Self)
        ensures
            r == (RadioOption { value, label, description: None }),
    {
        RadioOption { value, label, description: None }
    }

    pub fn description(self, description: &'a str) -> (r: Self)
        ensures
            r == (RadioOption { description: Some(description), ..self }),
    {
        RadioOption { description: Some(description), ..self }
    }
}

/// A click on the option `value` of a radio group selects it; whether the
/// selection changed.
pub fn choose_radio_option(current: &mut Option<usize>, value: usize) -> (r: bool)
    ensures
        *final(current) == Some(value),
        r == (*old(current) != Some(value)),
{
    let changed = match *current {
        Some(c) => c != value,
        None => true,
    };
    *current = Some(value);
    changed
}

} // verus!
