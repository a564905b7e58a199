//! Declared actions: named hooks with an optional payload type and the
//! side of the game they run on.

use vstd::prelude::*;

verus! {

/// Where an action runs.
#[derive(Debug, Clone, Copy, PartialEq, Eq, Structural)]
pub enum ActionSide {
    Client,
    Server,
    Both,
    Debug,
}

/// A declared action: the name of its payload type, if it carries one, and
/// the side it runs on.
#[derive(Debug, Clone, PartialEq)]
pub struct ActionDTO {
    pub data_type: Option<String>,
    pub side: ActionSide,
}

/// The mathematical model of an [`ActionDTO`].
pub struct ActionView {
    pub data_type: Option<Seq<char>>,
    pub side: ActionSide,
}

impl View for ActionDTO {
    type V = ActionView;

    open spec fn view(&self) -> ActionView {
        ActionView {
            data_type: match &self.data_type {
                Some(s) => Some(s@),
                None => None,
            },
            side: self.side,
        }
    }
}

} // verus!
