//! Switches by which the host steers the interpreter between steps.
use vstd::prelude::*;

verus! {

/// What the host asks of the interpreter.
#[derive(Debug, Eq, PartialEq, Structural, Clone, Copy)]
pub struct Controller {
    /// Pause after every instruction.
    pub step_mode: bool,
    /// Execute nothing until cleared.
    pub pause: bool,
    /// The host wants to stop; observed by the host's loop between steps.
    pub quit: bool,
}

impl Default for Controller {
    fn default() -> (controller: Self)
        ensures
            controller == (Controller { step_mode: false, pause: false, quit: false }),
    {
        Self { step_mode: false, pause: false, quit: false }
    }
}

} // verus!
