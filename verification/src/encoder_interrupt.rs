//! Decision core of the timer-poll interrupt handler.
//!
//! At every poll tick the handler checks the module state out of the
//! arbiter, services the alarm, polls both encoders, and hands the two
//! decoded directions to `timer_poll_step`.  The first encoder tunes the
//! oscillator selected by `edit_index`: one detent moves its length one
//! step, clamped to `[1, MAX_LENGTH]`, and raises the edit flag for the
//! decoupled regenerator.  The second encoder only picks a status text
//! for the display sink.

use vstd::prelude::*;
use crate::samples::{Osc, MAX_LENGTH};
use crate::types::{Direction, ModuleState};

verus! {

/// The clamping policy of a detent: a clockwise step grows the length, an
/// anticlockwise step shrinks it, and both stop at the bounds instead of
/// wrapping.
pub open spec fn adjusted_count(count: int, dir: Direction) -> int {
    match dir {
        Direction::Clockwise => if count < MAX_LENGTH {
            count + 1
        } else {
            count
        },
        Direction::Anticlockwise => if count > 1 {
            count - 1
        } else {
            count
        },
        Direction::Still => count,
    }
}

/// The oscillator after one detent: the adjusted length, the edit flag
/// raised on any completed detent, everything else untouched.
pub open spec fn directed_osc(o: Osc, dir: Direction) -> Osc {
    Osc {
        sample_count: adjusted_count(o.sample_count as int, dir) as usize,
        edit_flag: if dir is Still {
            o.edit_flag
        } else {
            true
        },
        ..o
    }
}

/// Apply one decoded detent to an oscillator: adjust its length under the
/// clamping policy and raise the edit flag; a poll with no completed
/// detent changes nothing.
pub fn apply_direction(osc: &mut Osc, dir: Direction)
    requires
        old(osc).wf(),
    ensures
        final(osc).wf(),
        *final(osc) == directed_osc(*old(osc), dir),
{
    match dir {
        Direction::Clockwise => {
            if osc.sample_count < MAX_LENGTH {
                osc.sample_count = osc.sample_count + 1;
            }
            osc.edit_flag = true;
        },
        Direction::Anticlockwise => {
            if osc.sample_count > 1 {
                osc.sample_count = osc.sample_count - 1;
            }
            osc.edit_flag = true;
        },
        Direction::Still => {
        },
    }
}

/// The status text the second encoder selects for the display.
pub open spec fn display_chars(dir: Direction) -> Seq<char> {
    match dir {
        Direction::Clockwise => seq!['c', 'l', 'o', 'c', 'k', '2'],
        Direction::Anticlockwise => seq!['a', 'n', 't', 'i', '2'],
        Direction::Still => Seq::empty(),
    }
}

/// The display action a detent of the second encoder asks for: the text
/// to show after clearing the display, or nothing at all when no detent
/// completed (the display is then left alone).
pub fn display_message(dir: Direction) -> (msg: Option<Vec<char>>)
    ensures
        msg is Some <==> !(dir is Still),
        msg is Some ==> msg->0@ == display_chars(dir),
{
    match dir {
        Direction::Clockwise => {
            let mut text: Vec<char> = Vec::new();
            text.push('c');
            text.push('l');
            text.push('o');
            text.push('c');
            text.push('k');
            text.push('2');
            proof {
                assert(text@ =~= display_chars(dir));
            }
            Some(text)
        },
        Direction::Anticlockwise => {
            let mut text: Vec<char> = Vec::new();
            text.push('a');
            text.push('n');
            text.push('t');
            text.push('i');
            text.push('2');
            proof {
                assert(text@ =~= display_chars(dir));
            }
            Some(text)
        },
        Direction::Still => None,
    }
}

/// One timer-poll tick over the checked-out module state: the first
/// encoder's detent tunes the oscillator selected by `edit_index`, the
/// second encoder's detent picks the display text.  Nothing else in the
/// state moves.
pub fn timer_poll_step(state: &mut ModuleState, dir_1: Direction, dir_2: Direction) -> (msg: Option<
    Vec<char>,
>)
    requires
        old(state).wf(),
    ensures
        final(state).wf(),
        final(state).osc_state == old(state).osc_state.with_osc(
            old(state).osc_state.edit_index as int,
            directed_osc(
                old(state).osc_state.osc_at(old(state).osc_state.edit_index as int),
                dir_1,
            ),
        ),
        final(state).osc_state.edit_index == old(state).osc_state.edit_index,
        final(state).change == old(state).change,
        final(state).sample_length == old(state).sample_length,
        final(state).encoder_poll_duration_us == old(state).encoder_poll_duration_us,
        msg is Some <==> !(dir_2 is Still),
        msg is Some ==> msg->0@ == display_chars(dir_2),
{
    let edit_index = state.osc_state.edit_index;
    if edit_index == 0 {
        apply_direction(&mut state.osc_state.osc_1, dir_1);
    } else if edit_index == 1 {
        apply_direction(&mut state.osc_state.osc_2, dir_1);
    } else if edit_index == 2 {
        apply_direction(&mut state.osc_state.osc_3, dir_1);
    } else {
        apply_direction(&mut state.osc_state.osc_4, dir_1);
    }
    display_message(dir_2)
}

} // verus!
