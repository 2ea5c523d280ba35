//! The shared module state and the values the hardware hands the core.
//!
//! The real device keeps encoder, display and alarm handles next to this
//! data; those are opaque hardware services, so here the state holds only
//! what the core's own logic reads and writes.  The interrupt shell
//! samples the hardware and passes plain values in.

use vstd::prelude::*;
use crate::samples::{OscState, MAX_LENGTH};

verus! {

/// One completed detent of a rotary encoder, as the quadrature decoder
/// reports it: a turn one way, a turn the other way, or no completed
/// detent since the last poll.
#[derive(Clone, Copy, PartialEq, Eq, Structural, Debug)]
pub enum Direction {
    Clockwise,
    Anticlockwise,
    Still,
}

/// The state the arbiter hands out to exactly one holder at a time: the
/// oscillator aggregate, the latched "change requested" flag from the
/// encoder button, the logical length of the active table, and the poll
/// period the timer handler reschedules itself with.
pub struct ModuleState {
    pub osc_state: OscState,
    pub change: bool,
    pub sample_length: usize,
    pub encoder_poll_duration_us: u32,
}

impl ModuleState {
    /// Well-formedness: the oscillators are well formed and the logical
    /// length never passes the tables' fixed capacity.
    pub open spec fn wf(self) -> bool {
        &&& self.osc_state.wf()
        &&& self.sample_length <= MAX_LENGTH
    }
}

/// A fresh module state around the given oscillator aggregate, with no
/// change requested.
pub fn new_module_state(osc_state: OscState, sample_length: usize, encoder_poll_duration_us: u32) -> (state:
    ModuleState)
    requires
        osc_state.wf(),
        sample_length <= MAX_LENGTH,
    ensures
        state.wf(),
        state.osc_state == osc_state,
        state.change == false,
        state.sample_length == sample_length,
        state.encoder_poll_duration_us == encoder_poll_duration_us,
{
    ModuleState { osc_state, change: false, sample_length, encoder_poll_duration_us }
}

} // verus!
