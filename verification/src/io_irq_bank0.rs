//! Decision core of the GPIO edge interrupt handler.
//!
//! The handler checks the module state out of the arbiter, reads and
//! clears the pending edge flags (a rising edge on the encoder button, a
//! falling edge on the encoder's data pin), polls the decoder when the
//! data pin fired, and hands the plain values to `gpio_edge_step`.  The
//! decision is small: a button edge, or a completed detent behind a data
//! edge, latches the "change requested" flag.

use vstd::prelude::*;
use crate::types::{Direction, ModuleState};

verus! {

/// The latched flag after one GPIO edge event: once requested, a change
/// stays requested; a button edge requests one, and so does a completed
/// detent seen behind a falling data edge.
pub open spec fn change_after(change: bool, button_edge_high: bool, dt_edge_low: bool, dir: Direction) -> bool {
    change || button_edge_high || (dt_edge_low && !(dir is Still))
}

/// One GPIO edge event over the checked-out module state: latch the
/// change flag as `change_after` says; nothing else in the state moves.
pub fn gpio_edge_step(
    state: &mut ModuleState,
    button_edge_high: bool,
    dt_edge_low: bool,
    dir: Direction,
)
    requires
        old(state).wf(),
    ensures
        final(state).wf(),
        final(state).change == change_after(
            old(state).change,
            button_edge_high,
            dt_edge_low,
            dir,
        ),
        final(state).osc_state == old(state).osc_state,
        final(state).sample_length == old(state).sample_length,
        final(state).encoder_poll_duration_us == old(state).encoder_poll_duration_us,
{
    if button_edge_high {
        state.change = true;
    }
    if dt_edge_low {
        match dir {
            Direction::Clockwise => {
                state.change = true;
            },
            Direction::Anticlockwise => {
                state.change = true;
            },
            Direction::Still => {
            },
        }
    }
}

} // verus!
