use vstd::prelude::*;
use crate::nav::Nav;
use crate::notification::Notification;

verus! {

/// An effect that reaches the root whatever the depth of the component it comes from.
#[derive(Debug)]
pub enum Action {
    Quit,
    Esc,
    NavTo(Nav),
    ChangeSheet,
    Notification(Notification),
}

impl Action {
    /// Whether this action ends the run.
    pub fn is_quit(&self) -> (out: bool)
        ensures
            out == (*self is Quit),
    {
        match self {
            Action::Quit => true,
            _ => false,
        }
    }
}

} // verus!
