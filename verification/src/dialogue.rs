//! The header of a dialogue: title, description and intent.

use vstd::prelude::*;

verus! {

#[derive(Debug, Clone, Copy, PartialEq, Eq, Structural)]
pub enum DialogueIntent {
    Default,
    Alert,
}

#[derive(Debug, Clone, Copy)]
pub struct DialogueHeader<'a> {
    pub title: &'a str,
    pub description: &'a str,
    pub intent: DialogueIntent,
}

impl<'a> DialogueHeader<'a> {
    pub fn new(title: &'a str) -> (r: Self)
        ensures
            r == (DialogueHeader { title, description: "", intent: DialogueIntent::Default }),
    {
        DialogueHeader { title, description: "", intent: DialogueIntent::Default }
    }

    pub fn description(self, description: &'a str) -> (r: Self)
        ensures
            r == (DialogueHeader { description, ..self }),
    {
        DialogueHeader { description, ..self }
    }

    pub fn intent(self, intent: DialogueIntent) -> (r: Self)
        ensures
            r == (DialogueHeader { intent, ..self }),
    {
        DialogueHeader { intent, ..self }
    }
}

} // verus!
