use osc_core::samples::{
    advance_osc, blank_sample, flat, new_osc, new_osc_state, ramp, reset_osc, saw, triangle, Osc,
    TableError, Wave, MAX_AMP, MAX_LENGTH,
};

#[test]
fn blank_sample_is_all_terminator() {
    let s = blank_sample();
    assert_eq!(s.len(), MAX_LENGTH);
    for slot in s.iter() {
        assert!(slot.is_none());
    }
}

#[test]
fn new_osc_is_silent() {
    let osc = new_osc();
    assert!(matches!(osc.wave, Wave::Flat));
    assert_eq!(osc.sample_count, 1);
    assert_eq!(osc.max_amp, 0);
    assert_eq!(osc.next, 0);
    assert_eq!(osc.last, 0);
    assert!(!osc.edit_flag);
    assert_eq!(osc.sample.len(), MAX_LENGTH);
}

#[test]
fn ramp_scenario_hundred_slots() {
    let mut s = blank_sample();
    let r = ramp(100, 0xfff, &mut s);
    assert!(r.is_ok());
    assert_eq!(s[0], Some(0));
    assert_eq!(s[50], Some((0xfff / 100) * 50));
    assert_eq!(s[50], Some(2000));
    assert_eq!(s[99], None);
}

#[test]
fn ramp_is_nondecreasing_and_terminated() {
    let mut s = blank_sample();
    assert!(ramp(1000, 0xfff, &mut s).is_ok());
    let mut prev: u16 = 0;
    for i in 0..999 {
        let v = s[i].expect("populated slot");
        assert!(v >= prev);
        prev = v;
    }
    assert_eq!(s[999], None);
}

#[test]
fn ramp_leaves_tail_alone() {
    let mut s = blank_sample();
    assert!(ramp(10, 100, &mut s).is_ok());
    for i in 10..MAX_LENGTH {
        assert_eq!(s[i], None);
    }
}

#[test]
fn ramp_rejects_zero_length() {
    let mut s = blank_sample();
    assert_eq!(ramp(0, 100, &mut s), Err(TableError::LengthOutOfRange));
    for slot in s.iter() {
        assert!(slot.is_none());
    }
}

#[test]
fn ramp_rejects_over_long_length() {
    let mut s = blank_sample();
    assert_eq!(ramp(MAX_LENGTH + 1, 100, &mut s), Err(TableError::LengthOutOfRange));
}

#[test]
fn ramp_rejects_over_range_amplitude() {
    let mut s = blank_sample();
    assert_eq!(ramp(100, MAX_AMP + 1, &mut s), Err(TableError::AmplitudeOutOfRange));
}

#[test]
fn saw_falls_from_peak() {
    let mut s = blank_sample();
    assert!(saw(4, 100, &mut s).is_ok());
    assert_eq!(s[0], Some(100));
    assert_eq!(s[1], Some(75));
    assert_eq!(s[2], Some(50));
    assert_eq!(s[3], None);
    for i in 4..MAX_LENGTH {
        assert_eq!(s[i], Some(0));
    }
}

#[test]
fn saw_rejects_bad_arguments() {
    let mut s = blank_sample();
    assert_eq!(saw(0, 100, &mut s), Err(TableError::LengthOutOfRange));
    assert_eq!(saw(10, MAX_AMP + 1, &mut s), Err(TableError::AmplitudeOutOfRange));
}

#[test]
fn triangle_rises_then_falls_symmetrically() {
    let mut s = blank_sample();
    assert!(triangle(8, 0xfff, &mut s).is_ok());
    // factor = 2 * 0xfff / 8 = 1023
    assert_eq!(s[0], Some(0));
    assert_eq!(s[1], Some(1023));
    assert_eq!(s[2], Some(2046));
    assert_eq!(s[3], Some(3069));
    assert_eq!(s[4], Some(3069));
    assert_eq!(s[5], Some(2046));
    assert_eq!(s[6], Some(1023));
    assert_eq!(s[7], None);
    for i in 8..MAX_LENGTH {
        assert_eq!(s[i], Some(0));
    }
}

#[test]
fn triangle_never_passes_peak() {
    let mut s = blank_sample();
    assert!(triangle(7, 0xfff, &mut s).is_ok());
    for slot in s.iter() {
        if let Some(v) = slot {
            assert!(*v <= 0xfff);
        }
    }
}

#[test]
fn triangle_rejects_bad_arguments() {
    let mut s = blank_sample();
    assert_eq!(triangle(0, 100, &mut s), Err(TableError::LengthOutOfRange));
    assert_eq!(triangle(10, MAX_AMP + 1, &mut s), Err(TableError::AmplitudeOutOfRange));
}

#[test]
fn flat_is_zero_with_terminator() {
    let mut s = blank_sample();
    assert!(flat(5, &mut s).is_ok());
    assert_eq!(s[0], Some(0));
    assert_eq!(s[3], Some(0));
    assert_eq!(s[4], None);
    for i in 5..MAX_LENGTH {
        assert_eq!(s[i], Some(0));
    }
}

#[test]
fn flat_rejects_zero_length() {
    let mut s = blank_sample();
    assert_eq!(flat(0, &mut s), Err(TableError::LengthOutOfRange));
}

fn osc_with_table(values: &[u16]) -> Osc {
    let mut osc = new_osc();
    for (i, v) in values.iter().enumerate() {
        osc.sample[i] = Some(*v);
    }
    osc
}

#[test]
fn playback_cycle_repeats_last_sample_and_wraps() {
    // A table of three real samples and the terminator: four calls report
    // the three samples, then the repeat, and the cursor is back at 0.
    let mut osc = osc_with_table(&[5, 7, 9]);
    assert_eq!(advance_osc(&mut osc), 5);
    assert_eq!(advance_osc(&mut osc), 7);
    assert_eq!(advance_osc(&mut osc), 9);
    assert_eq!(osc.next, 3);
    assert_eq!(advance_osc(&mut osc), 9);
    assert_eq!(osc.next, 0);
    // The next cycle is identical.
    assert_eq!(advance_osc(&mut osc), 5);
}

#[test]
fn advance_latches_last_real_sample() {
    let mut osc = osc_with_table(&[42]);
    assert_eq!(osc.last, 0);
    assert_eq!(advance_osc(&mut osc), 42);
    assert_eq!(osc.last, 42);
    assert_eq!(advance_osc(&mut osc), 42);
}

#[test]
fn advance_on_blank_table_repeats_initial_last() {
    let mut osc = new_osc();
    assert_eq!(advance_osc(&mut osc), 0);
    assert_eq!(osc.next, 0);
    assert_eq!(advance_osc(&mut osc), 0);
    assert_eq!(osc.next, 0);
}

#[test]
fn reset_osc_regenerates_and_clears_flag() {
    let mut osc = new_osc();
    osc.wave = Wave::Ramp;
    osc.sample_count = 100;
    osc.max_amp = 0xfff;
    osc.edit_flag = true;
    osc.next = 7;
    reset_osc(&mut osc);
    assert!(!osc.edit_flag);
    assert_eq!(osc.next, 0);
    assert_eq!(osc.sample[0], Some(0));
    assert_eq!(osc.sample[50], Some(2000));
    assert_eq!(osc.sample[99], None);
}

#[test]
fn reset_osc_without_flag_changes_nothing() {
    let mut osc = new_osc();
    osc.wave = Wave::Saw;
    osc.sample_count = 10;
    osc.max_amp = 100;
    osc.next = 0;
    reset_osc(&mut osc);
    assert!(!osc.edit_flag);
    // The table was never regenerated: still blank.
    assert_eq!(osc.sample[0], None);
}

#[test]
fn new_osc_state_tunes_first_oscillator() {
    let state = new_osc_state();
    assert_eq!(state.edit_index, 0);
    assert_eq!(state.osc_1.sample_count, 1);
    assert_eq!(state.osc_4.sample_count, 1);
    assert!(!state.osc_1.edit_flag);
}
