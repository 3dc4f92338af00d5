//! Listeners that are told of the clock's ticks.
use vstd::prelude::*;
use tokio::sync::mpsc::Sender;

verus! {

/// One subscriber to the clock's ticks.
pub struct ClockListener {
    /// The channel on which the listener is sent a unit message per tick.
    pub tx: Sender<()>,
}

impl ClockListener {
    /// Called on a clock pulse; a listener needs no work of its own there.
    pub fn tick() {
    }
}

} // verus!
