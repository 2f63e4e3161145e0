//! The handler mapping widget signals to Core's user actions.

use vstd::prelude::*;

verus! {

/// Handles mapping from widget signals to Core's user actions; it holds no
/// state of its own.
#[derive(Debug, PartialEq, Eq, Structural)]
pub struct ActionHandler;

impl ActionHandler {
    pub fn new() -> (handler: Self)
        ensures
            handler == ActionHandler,
    {
        ActionHandler
    }
}

} // verus!
