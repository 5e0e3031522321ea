//! The simulation clock, which the rules can ask to stop and to run.
//!
//! The clock itself is the host's. Physics, spawning and fade-outs follow it;
//! the frame clock, which drives the display, runs on.

use vstd::prelude::*;

verus! {

/// What is asked of the simulation clock.
#[derive(Clone, Copy, Debug, PartialEq, Eq, Structural)]
pub enum ClockCommand {
    Pause,
    Unpause,
}

} // verus!
