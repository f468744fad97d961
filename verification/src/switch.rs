//! The switch control's label and size.

use vstd::prelude::*;
use crate::common::ControlSize;

verus! {

#[derive(Debug, Clone, Copy)]
pub struct Switch<'a> {
    pub label: Option<&'a str>,
    pub size: ControlSize,
}

impl<'a> Switch<'a> {
    pub fn new() -> (r: Self)
        ensures
            r == (Switch::<'a> { label: None, size: ControlSize::Md }),
    {
        Switch { label: None, size: ControlSize::Md }
    }

    pub fn label(self, label: &'a str) -> (r: Self)
        ensures
            r == (Switch { label: Some(label), ..self }),
    {
        Switch { label: Some(label), ..self }
    }

    pub fn size(self, size: ControlSize) -> (r: Self)
        ensures
            r == (Switch { size, ..self }),
    {
        Switch { size, ..self }
    }

    pub fn small(self) -> (r: Self)
        ensures
            r == (Switch { size: ControlSize::Sm, ..self }),
    {
        Switch { size: ControlSize::Sm, ..self }
    }
}

impl<'a> Default for Switch<'a> {
    fn default() -> (r: Self)
        ensures
            r == (Switch::<'a> { label: None, size: ControlSize::Md }),
    {
        Switch::new()
    }
}

} // verus!
