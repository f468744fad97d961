//! The agent chat composer card: its texts and what was clicked.

use vstd::prelude::*;

verus! {

#[derive(Debug, Clone, Copy)]
pub struct AgentChatProps<'a> {
    pub placeholder: &'a str,
    pub mode_label: &'a str,
    pub usage_label: &'a str,
}

impl<'a> AgentChatProps<'a> {
    pub fn new() -> (r: Self)
        ensures
            r == (AgentChatProps::<'a> {
                placeholder: "Ask, Search or Chat...",
                mode_label: "Auto",
                usage_label: "52% used",
            }),
    {
        AgentChatProps { placeholder: "Ask, Search or Chat...", mode_label: "Auto", usage_label: "52% used" }
    }

    pub fn placeholder(self, placeholder: &'a str) -> (r: Self)
        ensures
            r == (AgentChatProps { placeholder, ..self }),
    {
        AgentChatProps { placeholder, ..self }
    }

    pub fn mode_label(self, mode_label: &'a str) -> (r: Self)
        ensures
            r == (AgentChatProps { mode_label, ..self }),
    {
        AgentChatProps { mode_label, ..self }
    }

    pub fn usage_label(self, usage_label: &'a str) -> (r: Self)
        ensures
            r == (AgentChatProps { usage_label, ..self }),
    {
        AgentChatProps { usage_label, ..self }
    }
}

impl<'a> Default for AgentChatProps<'a> {
    fn default() -> (r: Self)
        ensures
            r == (AgentChatProps::<'a> {
                placeholder: "Ask, Search or Chat...",
                mode_label: "Auto",
                usage_label: "52% used",
            }),
    {
        AgentChatProps::new()
    }
}

#[derive(Debug, Clone, Copy, PartialEq, Eq, Structural)]
pub struct AgentChatState {
    pub add_clicked: bool,
    pub send_clicked: bool,
}

impl Default for AgentChatState {
    fn default() -> (r: Self)
        ensures
            r == (AgentChatState { add_clicked: false, send_clicked: false }),
    {
        AgentChatState { add_clicked: false, send_clicked: false }
    }
}

} // verus!
